//! Persistence of the initialization result.
//!
//! A backend can save the result and load it again. It touches nothing
//! itself: it says what is to be looked up, decides on what was found, and
//! says what is to be written or decoded. The caller carries each
//! [`StoreCommand`] out and hands the [`StoreReply`] back.
//!
//! A save is a lookup, a decision ([`Save::save_init`]) and a write. A load
//! is a fetch, an extraction ([`Load::load_init`]) and a decoding. The JSON
//! document that is written and decoded has the members `keys`,
//! `keys_base64` and `root_token`.
use vstd::prelude::*;

pub mod file;
pub mod kube_secret;

pub use file::File;
pub use kube_secret::KubeSecret;

use crate::save::kube_secret::SecretManifest;
use crate::save::kube_secret::SecretManifestView;
use crate::save::kube_secret::SecretObject;
use crate::save::kube_secret::SecretObjectView;
use crate::vault::models::sys::init::PostInitResponse;
use crate::vault::models::sys::init::PostInitResponseView;

verus! {

/// The two backends, in the order in which they are tried.
#[derive(Debug, Clone, Copy, PartialEq, Eq, Structural)]
pub enum Backend {
    File,
    KubeSecret,
}

/// What the caller is asked to do to a persistence target.
#[derive(Debug, Clone, PartialEq, Eq)]
pub enum StoreCommand {
    /// Look whether something exists at the path.
    ProbeFile { path: String },
    /// Write the result, as one JSON document, to the path, in place of
    /// whatever is there.
    WriteFile { path: String, data: PostInitResponse },
    /// Read the bytes at the path.
    ReadFile { path: String },
    /// Get the secret of that name. Without a namespace, the caller's own is
    /// meant.
    GetSecret { namespace: Option<String>, name: String },
    /// Create the secret.
    CreateSecret { namespace: Option<String>, secret: SecretManifest },
    /// Replace the secret of the manifest's name by the manifest.
    ReplaceSecret { namespace: Option<String>, secret: SecretManifest },
    /// Decode the bytes as the JSON document of a result.
    DecodeBytes(Vec<u8>),
    /// Decode the text as the JSON document of a result.
    DecodeText(String),
}

/// Mathematical content of a [`StoreCommand`].
pub enum StoreCommandView {
    ProbeFile { path: Seq<char> },
    WriteFile { path: Seq<char>, data: PostInitResponseView },
    ReadFile { path: Seq<char> },
    GetSecret { namespace: Option<Seq<char>>, name: Seq<char> },
    CreateSecret { namespace: Option<Seq<char>>, secret: SecretManifestView },
    ReplaceSecret { namespace: Option<Seq<char>>, secret: SecretManifestView },
    DecodeBytes(Seq<u8>),
    DecodeText(Seq<char>),
}

impl StoreCommandView {
    /// The backend whose target the command touches, if it touches one.
    pub open spec fn backend(self) -> Option<Backend> {
        match self {
            StoreCommandView::ProbeFile { .. } => Some(Backend::File),
            StoreCommandView::WriteFile { .. } => Some(Backend::File),
            StoreCommandView::ReadFile { .. } => Some(Backend::File),
            StoreCommandView::GetSecret { .. } => Some(Backend::KubeSecret),
            StoreCommandView::CreateSecret { .. } => Some(Backend::KubeSecret),
            StoreCommandView::ReplaceSecret { .. } => Some(Backend::KubeSecret),
            StoreCommandView::DecodeBytes(_) => None,
            StoreCommandView::DecodeText(_) => None,
        }
    }

    /// Whether the command changes a persistence target.
    pub open spec fn writes(self) -> bool {
        match self {
            StoreCommandView::WriteFile { .. } => true,
            StoreCommandView::CreateSecret { .. } => true,
            StoreCommandView::ReplaceSecret { .. } => true,
            _ => false,
        }
    }
}

impl View for StoreCommand {
    type V = StoreCommandView;

    open spec fn view(&self) -> StoreCommandView {
        match self {
            StoreCommand::ProbeFile { path } => StoreCommandView::ProbeFile { path: path@ },
            StoreCommand::WriteFile { path, data } => StoreCommandView::WriteFile {
                path: path@,
                data: data@,
            },
            StoreCommand::ReadFile { path } => StoreCommandView::ReadFile { path: path@ },
            StoreCommand::GetSecret { namespace, name } => StoreCommandView::GetSecret {
                namespace: namespace.deep_view(),
                name: name@,
            },
            StoreCommand::CreateSecret { namespace, secret } => StoreCommandView::CreateSecret {
                namespace: namespace.deep_view(),
                secret: secret@,
            },
            StoreCommand::ReplaceSecret { namespace, secret } => StoreCommandView::ReplaceSecret {
                namespace: namespace.deep_view(),
                secret: secret@,
            },
            StoreCommand::DecodeBytes(bytes) => StoreCommandView::DecodeBytes(bytes@),
            StoreCommand::DecodeText(text) => StoreCommandView::DecodeText(text@),
        }
    }
}

/// What came back from a [`StoreCommand`].
#[derive(Debug, Clone, PartialEq, Eq)]
pub enum StoreReply {
    /// Answer to `ProbeFile`: nothing is at the path.
    FileAbsent,
    /// Answer to `ProbeFile`: something is at the path; `regular` says
    /// whether it is a regular file.
    FilePresent { regular: bool },
    /// Answer to `ReadFile`: the bytes.
    FileRead(Vec<u8>),
    /// Answer to `GetSecret`: the secret.
    SecretFound(SecretObject),
    /// Answer to `GetSecret`: the cluster was asked and returned no secret.
    /// The text says why.
    SecretAbsent(String),
    /// Answer to `WriteFile`, `CreateSecret` and `ReplaceSecret`: done.
    Written,
    /// Answer to `DecodeBytes` and `DecodeText`: the result.
    Decoded(PostInitResponse),
    /// The command could not be carried out: the file system refused, no
    /// client for the cluster could be had, the cluster refused the write,
    /// or the document does not decode. The text says why.
    Failed(String),
}

/// Mathematical content of a [`StoreReply`].
pub enum StoreReplyView {
    FileAbsent,
    FilePresent { regular: bool },
    FileRead(Seq<u8>),
    SecretFound(SecretObjectView),
    SecretAbsent(Seq<char>),
    Written,
    Decoded(PostInitResponseView),
    Failed(Seq<char>),
}

impl View for StoreReply {
    type V = StoreReplyView;

    open spec fn view(&self) -> StoreReplyView {
        match self {
            StoreReply::FileAbsent => StoreReplyView::FileAbsent,
            StoreReply::FilePresent { regular } => StoreReplyView::FilePresent {
                regular: *regular,
            },
            StoreReply::FileRead(bytes) => StoreReplyView::FileRead(bytes@),
            StoreReply::SecretFound(secret) => StoreReplyView::SecretFound(secret@),
            StoreReply::SecretAbsent(cause) => StoreReplyView::SecretAbsent(cause@),
            StoreReply::Written => StoreReplyView::Written,
            StoreReply::Decoded(data) => StoreReplyView::Decoded(data@),
            StoreReply::Failed(cause) => StoreReplyView::Failed(cause@),
        }
    }
}

/// Why a save failed.
#[derive(Debug, Clone, PartialEq, Eq)]
pub enum SaveError {
    /// The target of the backend exists and the backend is not configured to
    /// overwrite. Nothing was written.
    AlreadyExists(Backend),
    /// The lookup or the write failed. The text is the cause as the caller
    /// reported it.
    Failed(String),
    /// The reply does not answer the command that was outstanding.
    Unexpected,
}

/// Mathematical content of a [`SaveError`].
pub enum SaveErrorView {
    AlreadyExists(Backend),
    Failed(Seq<char>),
    Unexpected,
}

impl View for SaveError {
    type V = SaveErrorView;

    open spec fn view(&self) -> SaveErrorView {
        match self {
            SaveError::AlreadyExists(backend) => SaveErrorView::AlreadyExists(*backend),
            SaveError::Failed(cause) => SaveErrorView::Failed(cause@),
            SaveError::Unexpected => SaveErrorView::Unexpected,
        }
    }
}

/// Why a load failed.
#[derive(Debug, Clone, PartialEq, Eq)]
pub enum LoadError {
    /// The fetch failed. The text is the cause as the caller reported it.
    Failed(String),
    /// The secret holds no data at all.
    NoData,
    /// The secret holds data, but none under the configured key.
    MissingKey,
    /// The bytes under the configured key are not UTF-8.
    NotUtf8,
    /// The reply does not answer the command that was outstanding.
    Unexpected,
    /// No configured backend could supply the result.
    Unavailable,
}

/// Mathematical content of a [`LoadError`].
pub enum LoadErrorView {
    Failed(Seq<char>),
    NoData,
    MissingKey,
    NotUtf8,
    Unexpected,
    Unavailable,
}

impl View for LoadError {
    type V = LoadErrorView;

    open spec fn view(&self) -> LoadErrorView {
        match self {
            LoadError::Failed(cause) => LoadErrorView::Failed(cause@),
            LoadError::NoData => LoadErrorView::NoData,
            LoadError::MissingKey => LoadErrorView::MissingKey,
            LoadError::NotUtf8 => LoadErrorView::NotUtf8,
            LoadError::Unexpected => LoadErrorView::Unexpected,
            LoadError::Unavailable => LoadErrorView::Unavailable,
        }
    }
}

/// Mathematical content of the outcome of [`Save::save_init`].
pub open spec fn save_outcome_view(outcome: Result<StoreCommand, SaveError>) -> Result<
    StoreCommandView,
    SaveErrorView,
> {
    match outcome {
        Ok(command) => Ok(command@),
        Err(error) => Err(error@),
    }
}

/// Mathematical content of the outcome of [`Load::load_init`].
pub open spec fn load_outcome_view(outcome: Result<StoreCommand, LoadError>) -> Result<
    StoreCommandView,
    LoadErrorView,
> {
    match outcome {
        Ok(command) => Ok(command@),
        Err(error) => Err(error@),
    }
}

/// The capability to save the initialization result.
pub trait Save {
    /// The lookup that a save opens with.
    spec fn save_lookup_model(&self) -> StoreCommandView;

    /// The write that is due once the lookup was answered with `found`, or
    /// the reason why nothing is written.
    spec fn save_init_model(&self, data: PostInitResponseView, found: StoreReplyView) -> Result<
        StoreCommandView,
        SaveErrorView,
    >;

    /// The lookup that a save opens with.
    fn save_lookup(&self) -> (command: StoreCommand)
        ensures
            command@ == self.save_lookup_model(),
    ;

    /// Decides on the write of `data`, given what the lookup found.
    fn save_init(&self, data: &PostInitResponse, found: StoreReply) -> (outcome: Result<
        StoreCommand,
        SaveError,
    >)
        ensures
            save_outcome_view(outcome) == self.save_init_model(data@, found@),
    ;
}

/// The capability to load the initialization result.
pub trait Load {
    /// The fetch that a load opens with.
    spec fn load_lookup_model(&self) -> StoreCommandView;

    /// The decoding that is due once the fetch was answered with `found`, or
    /// the reason why there is nothing to decode.
    spec fn load_init_model(&self, found: StoreReplyView) -> Result<
        StoreCommandView,
        LoadErrorView,
    >;

    /// The fetch that a load opens with.
    fn load_lookup(&self) -> (command: StoreCommand)
        ensures
            command@ == self.load_lookup_model(),
    ;

    /// Extracts the document to decode from what the fetch found.
    fn load_init(&self, found: StoreReply) -> (outcome: Result<StoreCommand, LoadError>)
        ensures
            load_outcome_view(outcome) == self.load_init_model(found@),
    ;
}

impl SaveErrorView {
    /// The message of the error.
    pub open spec fn message(self) -> Seq<char> {
        match self {
            SaveErrorView::AlreadyExists(Backend::File) =>
                "File already exists, but not configured to overwrite"@,
            SaveErrorView::AlreadyExists(Backend::KubeSecret) =>
                "Kube secret already exists, but not configured to overwrite"@,
            SaveErrorView::Failed(cause) => cause,
            SaveErrorView::Unexpected => "Unexpected reply while saving init data"@,
        }
    }
}

impl SaveError {
    /// The message of the error.
    pub fn message(&self) -> (text: String)
        ensures
            text@ == self@.message(),
    {
        match self {
            SaveError::AlreadyExists(Backend::File) =>
                "File already exists, but not configured to overwrite".to_owned(),
            SaveError::AlreadyExists(Backend::KubeSecret) =>
                "Kube secret already exists, but not configured to overwrite".to_owned(),
            SaveError::Failed(cause) => cause.clone(),
            SaveError::Unexpected => "Unexpected reply while saving init data".to_owned(),
        }
    }
}

impl LoadErrorView {
    /// The message of the error.
    pub open spec fn message(self) -> Seq<char> {
        match self {
            LoadErrorView::Failed(cause) => cause,
            LoadErrorView::NoData => "Kubernetes secret contained no data"@,
            LoadErrorView::MissingKey => "Kubernetes secret did not contain expected key"@,
            LoadErrorView::NotUtf8 => "Kubernetes secret data is not valid UTF-8"@,
            LoadErrorView::Unexpected => "Unexpected reply while loading init data"@,
            LoadErrorView::Unavailable => "Failed loading init data from all save methods"@,
        }
    }
}

impl LoadError {
    /// The message of the error.
    pub fn message(&self) -> (text: String)
        ensures
            text@ == self@.message(),
    {
        match self {
            LoadError::Failed(cause) => cause.clone(),
            LoadError::NoData => "Kubernetes secret contained no data".to_owned(),
            LoadError::MissingKey => "Kubernetes secret did not contain expected key".to_owned(),
            LoadError::NotUtf8 => "Kubernetes secret data is not valid UTF-8".to_owned(),
            LoadError::Unexpected => "Unexpected reply while loading init data".to_owned(),
            LoadError::Unavailable => "Failed loading init data from all save methods".to_owned(),
        }
    }
}

} // verus!
