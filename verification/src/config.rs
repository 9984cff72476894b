//! The configured persistence backends, and their aggregate save and load.
//!
//! The backends are tried in a fixed order: the file, then the cluster
//! secret. A backend that is not configured is passed over and never
//! attempted.
//!
//! - A save goes through every configured backend in turn. The first one
//!   that fails ends the save with its error, and no later backend is
//!   attempted: redundancy is had only where the file backend cannot fail for
//!   another reason than an existing file.
//! - A load returns what the first backend that succeeds supplies. A backend
//!   that fails is passed over. Where every configured backend has failed,
//!   or none is configured, the load fails as unavailable.
use vstd::prelude::*;

pub mod trace;

use crate::save::Backend;
use crate::save::File;
use crate::save::KubeSecret;
use crate::save::Load;
use crate::save::LoadError;
use crate::save::LoadErrorView;
use crate::save::Save;
use crate::save::SaveError;
use crate::save::SaveErrorView;
use crate::save::StoreCommand;
use crate::save::StoreCommandView;
use crate::save::StoreReply;
use crate::save::StoreReplyView;
use crate::save::file::FileView;
use crate::save::kube_secret::KubeSecretView;
use crate::vault::models::sys::init::PostInitResponse;
use crate::vault::models::sys::init::PostInitResponseView;

verus! {

/// The configuration of a run.
#[derive(Debug, Clone, PartialEq, Eq)]
pub struct Config {
    pub save_method: SaveMethod,
}

/// The backends that are configured. An absent one is not attempted.
#[derive(Debug, Clone, PartialEq, Eq)]
pub struct SaveMethod {
    pub file: Option<File>,
    pub kube_secret: Option<KubeSecret>,
}

/// Mathematical content of a [`SaveMethod`].
pub struct SaveMethodView {
    pub file: Option<FileView>,
    pub kube_secret: Option<KubeSecretView>,
}

impl View for SaveMethod {
    type V = SaveMethodView;

    open spec fn view(&self) -> SaveMethodView {
        SaveMethodView { file: self.file.deep_view(), kube_secret: self.kube_secret.deep_view() }
    }
}

/// Mathematical content of a [`Config`].
pub struct ConfigView {
    pub save_method: SaveMethodView,
}

impl View for Config {
    type V = ConfigView;

    open spec fn view(&self) -> ConfigView {
        ConfigView { save_method: self.save_method@ }
    }
}

/// Where a save stands.
#[derive(Debug, Clone, Copy, PartialEq, Eq, Structural)]
pub enum SaveStage {
    /// The lookup of the backend is outstanding.
    Lookup(Backend),
    /// The write of the backend is outstanding.
    Write(Backend),
}

/// Outcome of one step of a save.
#[derive(Debug, Clone, PartialEq, Eq)]
pub enum SaveStep {
    /// Perform the command and come back with its reply, in the given stage.
    Next(StoreCommand, SaveStage),
    /// Every configured backend has saved.
    Done,
    /// A backend failed. No command is outstanding.
    Abort(SaveError),
}

/// Mathematical content of a [`SaveStep`].
pub enum SaveStepView {
    Next(StoreCommandView, SaveStage),
    Done,
    Abort(SaveErrorView),
}

impl View for SaveStep {
    type V = SaveStepView;

    open spec fn view(&self) -> SaveStepView {
        match self {
            SaveStep::Next(command, stage) => SaveStepView::Next(command@, *stage),
            SaveStep::Done => SaveStepView::Done,
            SaveStep::Abort(error) => SaveStepView::Abort(error@),
        }
    }
}

/// Where a load stands.
#[derive(Debug, Clone, Copy, PartialEq, Eq, Structural)]
pub enum LoadStage {
    /// The fetch of the backend is outstanding.
    Fetch(Backend),
    /// The decoding of what the backend supplied is outstanding.
    Decode(Backend),
}

/// Outcome of one step of a load.
#[derive(Debug, Clone, PartialEq, Eq)]
pub enum LoadStep {
    /// Perform the command and come back with its reply, in the given stage.
    Next(StoreCommand, LoadStage),
    /// A backend supplied the result.
    Done(PostInitResponse),
    /// No backend could supply the result. No command is outstanding.
    Abort(LoadError),
}

/// Mathematical content of a [`LoadStep`].
pub enum LoadStepView {
    Next(StoreCommandView, LoadStage),
    Done(PostInitResponseView),
    Abort(LoadErrorView),
}

impl View for LoadStep {
    type V = LoadStepView;

    open spec fn view(&self) -> LoadStepView {
        match self {
            LoadStep::Next(command, stage) => LoadStepView::Next(command@, *stage),
            LoadStep::Done(data) => LoadStepView::Done(data@),
            LoadStep::Abort(error) => LoadStepView::Abort(error@),
        }
    }
}

impl SaveStage {
    /// The backend that the stage belongs to.
    pub open spec fn backend(self) -> Backend {
        match self {
            SaveStage::Lookup(backend) => backend,
            SaveStage::Write(backend) => backend,
        }
    }
}

impl LoadStage {
    /// The backend that the stage belongs to.
    pub open spec fn backend(self) -> Backend {
        match self {
            LoadStage::Fetch(backend) => backend,
            LoadStage::Decode(backend) => backend,
        }
    }
}

impl SaveMethod {
    /// Whether the backend is configured.
    pub open spec fn configured(&self, backend: Backend) -> bool {
        match backend {
            Backend::File => self.file is Some,
            Backend::KubeSecret => self.kube_secret is Some,
        }
    }

    /// The opening of the save with the cluster secret, or the end of the
    /// whole save where that backend is not configured.
    pub open spec fn save_kube_secret_model(&self) -> SaveStepView {
        match self.kube_secret {
            Some(secret) => SaveStepView::Next(
                secret.save_lookup_model(),
                SaveStage::Lookup(Backend::KubeSecret),
            ),
            None => SaveStepView::Done,
        }
    }

    /// The opening of a save: the lookup of the first configured backend.
    /// With no backend configured the save is done at once.
    pub open spec fn save_init_all_model(&self) -> SaveStepView {
        match self.file {
            Some(file) => SaveStepView::Next(
                file.save_lookup_model(),
                SaveStage::Lookup(Backend::File),
            ),
            None => self.save_kube_secret_model(),
        }
    }

    /// What follows the write of a backend: on success the backend after it,
    /// on failure the end of the save with the cause.
    pub open spec fn after_write_model(reply: StoreReplyView, then: SaveStepView)
        -> SaveStepView {
        match reply {
            StoreReplyView::Written => then,
            StoreReplyView::Failed(cause) => SaveStepView::Abort(SaveErrorView::Failed(cause)),
            _ => SaveStepView::Abort(SaveErrorView::Unexpected),
        }
    }

    /// What follows the decision of a backend: its write, or the end of the
    /// save with its error.
    pub open spec fn after_lookup_model(
        decision: Result<StoreCommandView, SaveErrorView>,
        backend: Backend,
    ) -> SaveStepView {
        match decision {
            Ok(write) => SaveStepView::Next(write, SaveStage::Write(backend)),
            Err(error) => SaveStepView::Abort(error),
        }
    }

    /// One step of a save of `data`.
    ///
    /// The reply to a lookup goes to the backend, which decides. Its refusal
    /// ends the save. The reply to a write ends the save where it reports a
    /// failure, and otherwise leads to the next configured backend, or to
    /// the end. A stage of a backend that is not configured is unexpected.
    pub open spec fn resume_save_model(
        &self,
        data: PostInitResponseView,
        stage: SaveStage,
        reply: StoreReplyView,
    ) -> SaveStepView {
        match stage {
            SaveStage::Lookup(Backend::File) => match self.file {
                Some(file) => Self::after_lookup_model(
                    file.save_init_model(data, reply),
                    Backend::File,
                ),
                None => SaveStepView::Abort(SaveErrorView::Unexpected),
            },
            SaveStage::Write(Backend::File) => Self::after_write_model(
                reply,
                self.save_kube_secret_model(),
            ),
            SaveStage::Lookup(Backend::KubeSecret) => match self.kube_secret {
                Some(secret) => Self::after_lookup_model(
                    secret.save_init_model(data, reply),
                    Backend::KubeSecret,
                ),
                None => SaveStepView::Abort(SaveErrorView::Unexpected),
            },
            SaveStage::Write(Backend::KubeSecret) => Self::after_write_model(
                reply,
                SaveStepView::Done,
            ),
        }
    }

    fn save_kube_secret(&self) -> (step: SaveStep)
        ensures
            step@ == self.save_kube_secret_model(),
    {
        match &self.kube_secret {
            Some(secret) => SaveStep::Next(
                secret.save_lookup(),
                SaveStage::Lookup(Backend::KubeSecret),
            ),
            None => SaveStep::Done,
        }
    }

    /// Opens a save.
    pub fn save_init_all(&self) -> (step: SaveStep)
        ensures
            step@ == self.save_init_all_model(),
    {
        match &self.file {
            Some(file) => SaveStep::Next(file.save_lookup(), SaveStage::Lookup(Backend::File)),
            None => self.save_kube_secret(),
        }
    }

    /// Takes the save of `data` one step further, with the reply to the
    /// command that [`SaveMethod::save_init_all`] or the last call of this
    /// function gave.
    pub fn resume_save(&self, data: &PostInitResponse, stage: SaveStage, reply: StoreReply) -> (step:
        SaveStep)
        ensures
            step@ == self.resume_save_model(data@, stage, reply@),
    {
        match stage {
            SaveStage::Lookup(Backend::File) => match &self.file {
                Some(file) => match file.save_init(data, reply) {
                    Ok(write) => SaveStep::Next(write, SaveStage::Write(Backend::File)),
                    Err(error) => SaveStep::Abort(error),
                },
                None => SaveStep::Abort(SaveError::Unexpected),
            },
            SaveStage::Write(Backend::File) => match reply {
                StoreReply::Written => self.save_kube_secret(),
                StoreReply::Failed(cause) => SaveStep::Abort(SaveError::Failed(cause)),
                _ => SaveStep::Abort(SaveError::Unexpected),
            },
            SaveStage::Lookup(Backend::KubeSecret) => match &self.kube_secret {
                Some(secret) => match secret.save_init(data, reply) {
                    Ok(write) => SaveStep::Next(write, SaveStage::Write(Backend::KubeSecret)),
                    Err(error) => SaveStep::Abort(error),
                },
                None => SaveStep::Abort(SaveError::Unexpected),
            },
            SaveStage::Write(Backend::KubeSecret) => match reply {
                StoreReply::Written => SaveStep::Done,
                StoreReply::Failed(cause) => SaveStep::Abort(SaveError::Failed(cause)),
                _ => SaveStep::Abort(SaveError::Unexpected),
            },
        }
    }

    /// The opening of the load from the cluster secret, or the failure of
    /// the whole load where that backend is not configured.
    pub open spec fn load_kube_secret_model(&self) -> LoadStepView {
        match self.kube_secret {
            Some(secret) => LoadStepView::Next(
                secret.load_lookup_model(),
                LoadStage::Fetch(Backend::KubeSecret),
            ),
            None => LoadStepView::Abort(LoadErrorView::Unavailable),
        }
    }

    /// The opening of a load: the fetch of the first configured backend.
    /// With no backend configured the load fails at once.
    pub open spec fn load_init_all_model(&self) -> LoadStepView {
        match self.file {
            Some(file) => LoadStepView::Next(
                file.load_lookup_model(),
                LoadStage::Fetch(Backend::File),
            ),
            None => self.load_kube_secret_model(),
        }
    }

    /// What follows the extraction of a backend: the decoding of its
    /// document, or, where it has none, `otherwise`.
    pub open spec fn after_fetch_model(
        extraction: Result<StoreCommandView, LoadErrorView>,
        backend: Backend,
        otherwise: LoadStepView,
    ) -> LoadStepView {
        match extraction {
            Ok(decode) => LoadStepView::Next(decode, LoadStage::Decode(backend)),
            Err(_) => otherwise,
        }
    }

    /// What follows a decoding: the result, or, where there is none,
    /// `otherwise`.
    pub open spec fn after_decode_model(reply: StoreReplyView, otherwise: LoadStepView)
        -> LoadStepView {
        match reply {
            StoreReplyView::Decoded(data) => LoadStepView::Done(data),
            _ => otherwise,
        }
    }

    /// One step of a load.
    ///
    /// The reply to a fetch goes to the backend, which extracts the document
    /// to decode. A decoding that succeeds ends the load with its result.
    /// Whatever else happens to the file backend leads to the cluster
    /// secret, if that is configured; whatever else happens to the cluster
    /// secret fails the load.
    pub open spec fn resume_load_model(&self, stage: LoadStage, reply: StoreReplyView)
        -> LoadStepView {
        match stage {
            LoadStage::Fetch(Backend::File) => match self.file {
                Some(file) => Self::after_fetch_model(
                    file.load_init_model(reply),
                    Backend::File,
                    self.load_kube_secret_model(),
                ),
                None => self.load_kube_secret_model(),
            },
            LoadStage::Decode(Backend::File) => Self::after_decode_model(
                reply,
                self.load_kube_secret_model(),
            ),
            LoadStage::Fetch(Backend::KubeSecret) => match self.kube_secret {
                Some(secret) => Self::after_fetch_model(
                    secret.load_init_model(reply),
                    Backend::KubeSecret,
                    LoadStepView::Abort(LoadErrorView::Unavailable),
                ),
                None => LoadStepView::Abort(LoadErrorView::Unavailable),
            },
            LoadStage::Decode(Backend::KubeSecret) => Self::after_decode_model(
                reply,
                LoadStepView::Abort(LoadErrorView::Unavailable),
            ),
        }
    }

    fn load_kube_secret(&self) -> (step: LoadStep)
        ensures
            step@ == self.load_kube_secret_model(),
    {
        match &self.kube_secret {
            Some(secret) => LoadStep::Next(
                secret.load_lookup(),
                LoadStage::Fetch(Backend::KubeSecret),
            ),
            None => LoadStep::Abort(LoadError::Unavailable),
        }
    }

    /// Opens a load.
    pub fn load_init_all(&self) -> (step: LoadStep)
        ensures
            step@ == self.load_init_all_model(),
    {
        match &self.file {
            Some(file) => LoadStep::Next(file.load_lookup(), LoadStage::Fetch(Backend::File)),
            None => self.load_kube_secret(),
        }
    }

    /// Takes a load one step further, with the reply to the command that
    /// [`SaveMethod::load_init_all`] or the last call of this function gave.
    pub fn resume_load(&self, stage: LoadStage, reply: StoreReply) -> (step: LoadStep)
        ensures
            step@ == self.resume_load_model(stage, reply@),
    {
        match stage {
            LoadStage::Fetch(Backend::File) => match &self.file {
                Some(file) => match file.load_init(reply) {
                    Ok(decode) => LoadStep::Next(decode, LoadStage::Decode(Backend::File)),
                    Err(_) => self.load_kube_secret(),
                },
                None => self.load_kube_secret(),
            },
            LoadStage::Decode(Backend::File) => match reply {
                StoreReply::Decoded(data) => LoadStep::Done(data),
                _ => self.load_kube_secret(),
            },
            LoadStage::Fetch(Backend::KubeSecret) => match &self.kube_secret {
                Some(secret) => match secret.load_init(reply) {
                    Ok(decode) => LoadStep::Next(decode, LoadStage::Decode(Backend::KubeSecret)),
                    Err(_) => LoadStep::Abort(LoadError::Unavailable),
                },
                None => LoadStep::Abort(LoadError::Unavailable),
            },
            LoadStage::Decode(Backend::KubeSecret) => match reply {
                StoreReply::Decoded(data) => LoadStep::Done(data),
                _ => LoadStep::Abort(LoadError::Unavailable),
            },
        }
    }
}

} // verus!
