//! The local-file backend: one JSON document at a configured path.
use vstd::prelude::*;

use crate::save::Backend;
use crate::save::Load;
use crate::save::LoadError;
use crate::save::LoadErrorView;
use crate::save::Save;
use crate::save::SaveError;
use crate::save::SaveErrorView;
use crate::save::StoreCommand;
use crate::save::StoreCommandView;
use crate::save::StoreReply;
use crate::save::StoreReplyView;
use crate::text::text_or;
use crate::text::text_or_view;
use crate::vault::models::sys::init::PostInitResponse;
use crate::vault::models::sys::init::PostInitResponseView;

verus! {

/// The path that is used where none is configured.
pub const DEFAULT_PATH: &'static str = "vault-init.json";

/// Configuration of the file backend.
#[derive(Default, Debug, Clone, PartialEq, Eq)]
pub struct File {
    /// Where the document lives. Without it, [`DEFAULT_PATH`].
    pub path: Option<String>,
    /// Whether an existing file may be replaced. Without it, it may not.
    pub overwrite: Option<bool>,
}

/// Mathematical content of a [`File`].
pub struct FileView {
    pub path: Option<Seq<char>>,
    pub overwrite: Option<bool>,
}

impl FileView {
    /// The path of the document.
    pub open spec fn target(self) -> Seq<char> {
        text_or_view(self.path, DEFAULT_PATH@)
    }

    /// Whether an existing file may be replaced.
    pub open spec fn overwrites(self) -> bool {
        self.overwrite == Some(true)
    }
}

impl View for File {
    type V = FileView;

    open spec fn view(&self) -> FileView {
        FileView { path: self.path.deep_view(), overwrite: self.overwrite }
    }
}

impl DeepView for File {
    type V = FileView;

    open spec fn deep_view(&self) -> FileView {
        self@
    }
}

impl File {
    /// The path of the document.
    pub fn target(&self) -> (path: String)
        ensures
            path@ == self@.target(),
    {
        text_or(&self.path, DEFAULT_PATH)
    }

    /// Whether an existing file may be replaced.
    pub fn overwrites(&self) -> (allowed: bool)
        ensures
            allowed == self@.overwrites(),
    {
        match self.overwrite {
            Some(allowed) => allowed,
            None => false,
        }
    }
}

impl Save for File {
    /// A save opens with a look at the path.
    open spec fn save_lookup_model(&self) -> StoreCommandView {
        StoreCommandView::ProbeFile { path: self@.target() }
    }

    /// - A regular file at the path, and no leave to overwrite: the save is
    ///   refused as already existing, and nothing is written.
    /// - A regular file and leave to overwrite, something that is no regular
    ///   file, or nothing at all: the result is written to the path.
    /// - A look that failed: the save fails with its cause.
    open spec fn save_init_model(&self, data: PostInitResponseView, found: StoreReplyView)
        -> Result<StoreCommandView, SaveErrorView> {
        match found {
            StoreReplyView::FileAbsent => Ok(
                StoreCommandView::WriteFile { path: self@.target(), data },
            ),
            StoreReplyView::FilePresent { regular } => if regular && !self@.overwrites() {
                Err(SaveErrorView::AlreadyExists(Backend::File))
            } else {
                Ok(StoreCommandView::WriteFile { path: self@.target(), data })
            },
            StoreReplyView::Failed(cause) => Err(SaveErrorView::Failed(cause)),
            _ => Err(SaveErrorView::Unexpected),
        }
    }

    fn save_lookup(&self) -> (command: StoreCommand) {
        StoreCommand::ProbeFile { path: self.target() }
    }

    fn save_init(&self, data: &PostInitResponse, found: StoreReply) -> (outcome: Result<
        StoreCommand,
        SaveError,
    >) {
        match found {
            StoreReply::FileAbsent => Ok(
                StoreCommand::WriteFile { path: self.target(), data: data.duplicate() },
            ),
            StoreReply::FilePresent { regular } => {
                if regular && !self.overwrites() {
                    Err(SaveError::AlreadyExists(Backend::File))
                } else {
                    Ok(StoreCommand::WriteFile { path: self.target(), data: data.duplicate() })
                }
            },
            StoreReply::Failed(cause) => Err(SaveError::Failed(cause)),
            _ => Err(SaveError::Unexpected),
        }
    }
}

impl Load for File {
    /// A load opens with a read of the path.
    open spec fn load_lookup_model(&self) -> StoreCommandView {
        StoreCommandView::ReadFile { path: self@.target() }
    }

    /// The bytes that were read are to be decoded as they are. A read that
    /// failed fails the load with its cause.
    open spec fn load_init_model(&self, found: StoreReplyView) -> Result<
        StoreCommandView,
        LoadErrorView,
    > {
        match found {
            StoreReplyView::FileRead(bytes) => Ok(StoreCommandView::DecodeBytes(bytes)),
            StoreReplyView::Failed(cause) => Err(LoadErrorView::Failed(cause)),
            _ => Err(LoadErrorView::Unexpected),
        }
    }

    fn load_lookup(&self) -> (command: StoreCommand) {
        StoreCommand::ReadFile { path: self.target() }
    }

    fn load_init(&self, found: StoreReply) -> (outcome: Result<StoreCommand, LoadError>) {
        match found {
            StoreReply::FileRead(bytes) => Ok(StoreCommand::DecodeBytes(bytes)),
            StoreReply::Failed(cause) => Err(LoadError::Failed(cause)),
            _ => Err(LoadError::Unexpected),
        }
    }
}

/// An existing file is replaced only with leave.
///
/// Where a regular file is at the path, a file backend without leave to
/// overwrite refuses the save as already existing and asks for no write, so
/// that the bytes of the file stay as they are. One with leave to overwrite
/// asks for the write of the new result to that path, in place of what is
/// there. The lookup itself writes nothing.
pub proof fn an_existing_file_is_replaced_only_with_leave(file: File, data: PostInitResponseView)
    ensures
        !file.save_lookup_model().writes(),
        !file@.overwrites() ==> file.save_init_model(
            data,
            StoreReplyView::FilePresent { regular: true },
        ) == Err::<StoreCommandView, SaveErrorView>(SaveErrorView::AlreadyExists(Backend::File)),
        file@.overwrites() ==> file.save_init_model(
            data,
            StoreReplyView::FilePresent { regular: true },
        ) == Ok::<StoreCommandView, SaveErrorView>(
            StoreCommandView::WriteFile { path: file@.target(), data },
        ),
{
}

/// Where nothing is at the path, the file is created, with or without leave
/// to overwrite.
pub proof fn a_missing_file_is_created(file: File, data: PostInitResponseView)
    ensures
        file.save_init_model(data, StoreReplyView::FileAbsent) == Ok::<
            StoreCommandView,
            SaveErrorView,
        >(StoreCommandView::WriteFile { path: file@.target(), data }),
{
}

} // verus!
