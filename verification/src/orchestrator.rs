//! The bootstrap itself: three phases, each of which reads the server's
//! state afresh and acts only where that state asks for it.
//!
//! A phase is a function from the stage it is in and the reply to the
//! command that was outstanding, to the next command and stage, to the end
//! of the phase, or to a failure. The caller performs each command, one at a
//! time, and hands the reply back. Nothing is kept between runs: a run that
//! was cut short is repeated from the start, and every phase finds out again
//! what is left to do.
//!
//! - [`init_and_save`]: if the server is not initialized, initialize it and
//!   persist the result.
//! - [`load_and_unseal`]: if the server is sealed, load the persisted result
//!   and submit its key shares until the server reports that it is unsealed.
//! - [`rotate_root`]: unless a root generation attempt is already in
//!   progress, start one, submit the key shares to it, and on completion
//!   revoke the previous root token.
//! - [`start`] and [`advance`] run the three in this order.
//!
//! The new root token that a completed attempt yields is neither decoded nor
//! persisted: the attempt's one-time pad is kept while shares are submitted
//! and dropped with the stage.
use vstd::prelude::*;
use vstd::string::StringExecFns;

pub mod trace;

use crate::config::LoadStep;
use crate::config::LoadStepView;
use crate::config::SaveMethod;
use crate::config::SaveStep;
use crate::config::SaveStepView;
use crate::save::LoadError;
use crate::save::SaveError;
use crate::vault::BodyView;
use crate::vault::ClientError;
use crate::vault::Method;
use crate::vault::Request;
use crate::vault::RequestView;
use crate::vault::VaultClient;
use crate::vault::VaultClientView;
use crate::vault::GENERATE_ROOT_ATTEMPT_PATH;
use crate::vault::GENERATE_ROOT_UPDATE_PATH;
use crate::vault::INIT_PATH;
use crate::vault::REVOKE_SELF_PATH;
use crate::vault::SEAL_STATUS_PATH;
use crate::vault::UNSEAL_PATH;
use crate::vault::models::sys::generate_root::GetGenerateRootAttemptResponse;
use crate::vault::models::sys::generate_root::GetGenerateRootAttemptResponseView;
use crate::vault::models::sys::generate_root::PostGenerateRootAttemptRequest;
use crate::vault::models::sys::generate_root::PostGenerateRootAttemptRequestView;
use crate::vault::models::sys::generate_root::PostGenerateRootAttemptResponse;
use crate::vault::models::sys::generate_root::PostGenerateRootAttemptResponseView;
use crate::vault::models::sys::generate_root::PostGenerateRootUpdateRequest;
use crate::vault::models::sys::generate_root::PostGenerateRootUpdateRequestView;
use crate::vault::models::sys::generate_root::PostGenerateRootUpdateResponse;
use crate::vault::models::sys::generate_root::PostGenerateRootUpdateResponseView;
use crate::vault::models::sys::init::GetInitResponse;
use crate::vault::models::sys::init::PostInitRequest;
use crate::vault::models::sys::init::PostInitRequestView;
use crate::vault::models::sys::init::PostInitResponse;
use crate::vault::models::sys::init::PostInitResponseView;
use crate::vault::models::sys::seal_status::SealStatusResponse;
use crate::vault::models::sys::seal_status::SealStatusResponseView;
use crate::vault::models::sys::unseal::PostUnsealRequest;
use crate::vault::models::sys::unseal::PostUnsealRequestView;
use crate::vault::models::sys::unseal::PostUnsealResponse;
use crate::vault::models::sys::unseal::PostUnsealResponseView;

verus! {

/// The three phases of a run.
#[derive(Debug, Clone, Copy, PartialEq, Eq, Structural)]
pub enum Phase {
    Init,
    Unseal,
    RotateRoot,
}

/// The kinds of command.
#[derive(Debug, Clone, Copy, PartialEq, Eq, Structural)]
pub enum Operation {
    ReadInitStatus,
    StartInit,
    SaveInit,
    GetSealStatus,
    LoadInit,
    SubmitUnsealKey,
    GetGenerateRootAttempt,
    PostGenerateRootAttempt,
    PostGenerateRootUpdate,
    RevokeSelf,
}

impl Operation {
    /// Whether carrying the operation out changes the server or a
    /// persistence target.
    pub open spec fn mutating(self) -> bool {
        match self {
            Operation::ReadInitStatus => false,
            Operation::GetSealStatus => false,
            Operation::GetGenerateRootAttempt => false,
            Operation::LoadInit => false,
            Operation::StartInit => true,
            Operation::SaveInit => true,
            Operation::SubmitUnsealKey => true,
            Operation::PostGenerateRootAttempt => true,
            Operation::PostGenerateRootUpdate => true,
            Operation::RevokeSelf => true,
        }
    }

    /// Whether carrying the operation out changes the server or a
    /// persistence target.
    pub fn is_mutating(self) -> (mutating: bool)
        ensures
            mutating == self.mutating(),
    {
        match self {
            Operation::ReadInitStatus => false,
            Operation::GetSealStatus => false,
            Operation::GetGenerateRootAttempt => false,
            Operation::LoadInit => false,
            _ => true,
        }
    }
}

/// What the caller is asked to do next.
#[derive(Debug, Clone, PartialEq, Eq)]
pub enum Command {
    /// Read whether the server is initialized.
    ReadInitStatus,
    /// Initialize the server.
    StartInit(PostInitRequest),
    /// Persist the initialization result with every configured backend.
    SaveInit(PostInitResponse),
    /// Read the seal status.
    GetSealStatus,
    /// Load the persisted initialization result.
    LoadInit,
    /// Submit one key share to the unseal.
    SubmitUnsealKey(PostUnsealRequest),
    /// Read the state of the root generation attempt.
    GetGenerateRootAttempt,
    /// Start a root generation attempt.
    PostGenerateRootAttempt(PostGenerateRootAttemptRequest),
    /// Submit one key share to the root generation attempt.
    PostGenerateRootUpdate(PostGenerateRootUpdateRequest),
    /// Revoke the given token, in a call that authenticates with it.
    RevokeSelf(String),
}

/// Mathematical content of a [`Command`].
pub enum CommandView {
    ReadInitStatus,
    StartInit(PostInitRequestView),
    SaveInit(PostInitResponseView),
    GetSealStatus,
    LoadInit,
    SubmitUnsealKey(PostUnsealRequestView),
    GetGenerateRootAttempt,
    PostGenerateRootAttempt(PostGenerateRootAttemptRequestView),
    PostGenerateRootUpdate(PostGenerateRootUpdateRequestView),
    RevokeSelf(Seq<char>),
}

impl CommandView {
    /// The kind of the command.
    pub open spec fn operation(self) -> Operation {
        match self {
            CommandView::ReadInitStatus => Operation::ReadInitStatus,
            CommandView::StartInit(_) => Operation::StartInit,
            CommandView::SaveInit(_) => Operation::SaveInit,
            CommandView::GetSealStatus => Operation::GetSealStatus,
            CommandView::LoadInit => Operation::LoadInit,
            CommandView::SubmitUnsealKey(_) => Operation::SubmitUnsealKey,
            CommandView::GetGenerateRootAttempt => Operation::GetGenerateRootAttempt,
            CommandView::PostGenerateRootAttempt(_) => Operation::PostGenerateRootAttempt,
            CommandView::PostGenerateRootUpdate(_) => Operation::PostGenerateRootUpdate,
            CommandView::RevokeSelf(_) => Operation::RevokeSelf,
        }
    }
}

/// Mathematical content of the outcome of [`Command::request`].
pub open spec fn call_view(call: Option<Result<Request, ClientError>>) -> Option<
    Result<RequestView, ClientError>,
> {
    match call {
        Some(Ok(request)) => Some(Ok(request@)),
        Some(Err(error)) => Some(Err(error)),
        None => None,
    }
}

impl CommandView {
    /// The HTTP request that carries a command out with `client`, for the
    /// commands that are calls to the server; nothing for those that go to
    /// the persistence backends. The revocation is the one call that does
    /// not use the client's credential: it authenticates with the token that
    /// it revokes.
    pub open spec fn request(self, client: VaultClientView) -> Option<
        Result<RequestView, ClientError>,
    > {
        match self {
            CommandView::ReadInitStatus => Some(
                client.call(Method::Get, INIT_PATH@, BodyView::Empty),
            ),
            CommandView::StartInit(request) => Some(
                client.call(Method::Post, INIT_PATH@, BodyView::Init(request)),
            ),
            CommandView::SaveInit(_) => None,
            CommandView::GetSealStatus => Some(
                client.call(Method::Get, SEAL_STATUS_PATH@, BodyView::Empty),
            ),
            CommandView::LoadInit => None,
            CommandView::SubmitUnsealKey(request) => Some(
                client.call(Method::Post, UNSEAL_PATH@, BodyView::Unseal(request)),
            ),
            CommandView::GetGenerateRootAttempt => Some(
                client.call(Method::Get, GENERATE_ROOT_ATTEMPT_PATH@, BodyView::Empty),
            ),
            CommandView::PostGenerateRootAttempt(request) => Some(
                client.call(
                    Method::Post,
                    GENERATE_ROOT_ATTEMPT_PATH@,
                    BodyView::GenerateRootAttempt(request),
                ),
            ),
            CommandView::PostGenerateRootUpdate(request) => Some(
                client.call(
                    Method::Post,
                    GENERATE_ROOT_UPDATE_PATH@,
                    BodyView::GenerateRootUpdate(request),
                ),
            ),
            CommandView::RevokeSelf(token) => Some(
                (VaultClientView { addr: client.addr, token: Some(token) }).call(
                    Method::Post,
                    REVOKE_SELF_PATH@,
                    BodyView::Empty,
                ),
            ),
        }
    }
}

/// How a command is carried out.
#[derive(Debug, Clone, PartialEq, Eq)]
pub enum Errand {
    /// Send the request. The response, decoded, is the reply.
    Call(Request),
    /// The request could not be made. The reply is a failure.
    Refused(ClientError),
    /// Save the result, from the given step on. The reply is
    /// [`Reply::saved`] of how the save ends.
    Save(PostInitResponse, SaveStep),
    /// Load the result, from the given step on. The reply is
    /// [`Reply::loaded`] of how the load ends.
    Load(LoadStep),
}

/// Mathematical content of an [`Errand`].
pub enum ErrandView {
    Call(RequestView),
    Refused(ClientError),
    Save(PostInitResponseView, SaveStepView),
    Load(LoadStepView),
}

impl View for Errand {
    type V = ErrandView;

    open spec fn view(&self) -> ErrandView {
        match self {
            Errand::Call(request) => ErrandView::Call(request@),
            Errand::Refused(error) => ErrandView::Refused(*error),
            Errand::Save(data, step) => ErrandView::Save(data@, step@),
            Errand::Load(step) => ErrandView::Load(step@),
        }
    }
}

impl CommandView {
    /// How the command is carried out with `client` and the backends of
    /// `method`: a call to the server for the commands that are calls, the
    /// opening of the aggregate save for the persistence of the result, and
    /// the opening of the aggregate load for its retrieval.
    pub open spec fn errand(self, client: VaultClientView, method: SaveMethod) -> ErrandView {
        match self {
            CommandView::SaveInit(data) => ErrandView::Save(data, method.save_init_all_model()),
            CommandView::LoadInit => ErrandView::Load(method.load_init_all_model()),
            _ => match self.request(client)->0 {
                Ok(request) => ErrandView::Call(request),
                Err(error) => ErrandView::Refused(error),
            },
        }
    }
}

impl View for Command {
    type V = CommandView;

    open spec fn view(&self) -> CommandView {
        match self {
            Command::ReadInitStatus => CommandView::ReadInitStatus,
            Command::StartInit(request) => CommandView::StartInit(request@),
            Command::SaveInit(data) => CommandView::SaveInit(data@),
            Command::GetSealStatus => CommandView::GetSealStatus,
            Command::LoadInit => CommandView::LoadInit,
            Command::SubmitUnsealKey(request) => CommandView::SubmitUnsealKey(request@),
            Command::GetGenerateRootAttempt => CommandView::GetGenerateRootAttempt,
            Command::PostGenerateRootAttempt(request) => CommandView::PostGenerateRootAttempt(
                request@,
            ),
            Command::PostGenerateRootUpdate(request) => CommandView::PostGenerateRootUpdate(
                request@,
            ),
            Command::RevokeSelf(token) => CommandView::RevokeSelf(token@),
        }
    }
}

impl Command {
    /// The HTTP request that carries the command out with `client`, if the
    /// command is a call to the server.
    pub fn request(&self, client: &VaultClient) -> (call: Option<Result<Request, ClientError>>)
        ensures
            call_view(call) == self@.request(client@),
    {
        match self {
            Command::ReadInitStatus => Some(client.read_init_status()),
            Command::StartInit(request) => Some(client.start_init(request)),
            Command::SaveInit(_) => None,
            Command::GetSealStatus => Some(client.get_seal_status()),
            Command::LoadInit => None,
            Command::SubmitUnsealKey(request) => Some(client.submit_unseal_key(request)),
            Command::GetGenerateRootAttempt => Some(client.get_generate_root_attempt()),
            Command::PostGenerateRootAttempt(request) => Some(
                client.post_generate_root_attempt(request),
            ),
            Command::PostGenerateRootUpdate(request) => Some(
                client.post_generate_root_update(request),
            ),
            Command::RevokeSelf(token) => Some(
                client.with_token(token.clone()).post_auth_token_revoke_self(),
            ),
        }
    }

    /// How the command is carried out with `client` and the backends of
    /// `method`.
    pub fn errand(self, client: &VaultClient, method: &SaveMethod) -> (errand: Errand)
        ensures
            errand@ == self@.errand(client@, *method),
    {
        match self.request(client) {
            Some(Ok(request)) => Errand::Call(request),
            Some(Err(error)) => Errand::Refused(error),
            None => match self {
                Command::SaveInit(data) => Errand::Save(data, method.save_init_all()),
                _ => Errand::Load(method.load_init_all()),
            },
        }
    }

    /// The kind of the command.
    pub fn operation(&self) -> (operation: Operation)
        ensures
            operation == self@.operation(),
    {
        match self {
            Command::ReadInitStatus => Operation::ReadInitStatus,
            Command::StartInit(_) => Operation::StartInit,
            Command::SaveInit(_) => Operation::SaveInit,
            Command::GetSealStatus => Operation::GetSealStatus,
            Command::LoadInit => Operation::LoadInit,
            Command::SubmitUnsealKey(_) => Operation::SubmitUnsealKey,
            Command::GetGenerateRootAttempt => Operation::GetGenerateRootAttempt,
            Command::PostGenerateRootAttempt(_) => Operation::PostGenerateRootAttempt,
            Command::PostGenerateRootUpdate(_) => Operation::PostGenerateRootUpdate,
            Command::RevokeSelf(_) => Operation::RevokeSelf,
        }
    }
}

/// What came back from a command.
#[derive(Debug, Clone, PartialEq, Eq)]
pub enum Reply {
    /// Answer to [`Command::ReadInitStatus`].
    InitStatus(GetInitResponse),
    /// Answer to [`Command::StartInit`].
    Initialized(PostInitResponse),
    /// Answer to [`Command::SaveInit`]: every configured backend has saved.
    Saved,
    /// Answer to [`Command::GetSealStatus`].
    SealStatus(SealStatusResponse),
    /// Answer to [`Command::LoadInit`].
    Loaded(PostInitResponse),
    /// Answer to [`Command::SubmitUnsealKey`].
    Unseal(PostUnsealResponse),
    /// Answer to [`Command::GetGenerateRootAttempt`].
    GenerateRootStatus(GetGenerateRootAttemptResponse),
    /// Answer to [`Command::PostGenerateRootAttempt`].
    GenerateRootStarted(PostGenerateRootAttemptResponse),
    /// Answer to [`Command::PostGenerateRootUpdate`].
    GenerateRootUpdated(PostGenerateRootUpdateResponse),
    /// Answer to [`Command::RevokeSelf`].
    Revoked,
    /// The command failed: the connection, a status code outside the
    /// success range, a body that does not decode, or a persistence backend.
    /// The text says why.
    Failed(String),
}

/// Mathematical content of a [`Reply`].
pub enum ReplyView {
    InitStatus(GetInitResponse),
    Initialized(PostInitResponseView),
    Saved,
    SealStatus(SealStatusResponseView),
    Loaded(PostInitResponseView),
    Unseal(PostUnsealResponseView),
    GenerateRootStatus(GetGenerateRootAttemptResponseView),
    GenerateRootStarted(PostGenerateRootAttemptResponseView),
    GenerateRootUpdated(PostGenerateRootUpdateResponseView),
    Revoked,
    Failed(Seq<char>),
}

impl View for Reply {
    type V = ReplyView;

    open spec fn view(&self) -> ReplyView {
        match self {
            Reply::InitStatus(status) => ReplyView::InitStatus(status@),
            Reply::Initialized(data) => ReplyView::Initialized(data@),
            Reply::Saved => ReplyView::Saved,
            Reply::SealStatus(status) => ReplyView::SealStatus(status@),
            Reply::Loaded(data) => ReplyView::Loaded(data@),
            Reply::Unseal(status) => ReplyView::Unseal(status@),
            Reply::GenerateRootStatus(status) => ReplyView::GenerateRootStatus(status@),
            Reply::GenerateRootStarted(status) => ReplyView::GenerateRootStarted(status@),
            Reply::GenerateRootUpdated(status) => ReplyView::GenerateRootUpdated(status@),
            Reply::Revoked => ReplyView::Revoked,
            Reply::Failed(cause) => ReplyView::Failed(cause@),
        }
    }
}

impl Reply {
    /// The reply to [`Command::SaveInit`] that a finished save makes: saved,
    /// or failed with the message of the error.
    pub fn saved(outcome: Result<(), SaveError>) -> (reply: Reply)
        ensures
            reply@ == match outcome {
                Ok(_) => ReplyView::Saved,
                Err(error) => ReplyView::Failed(error@.message()),
            },
    {
        match outcome {
            Ok(_) => Reply::Saved,
            Err(error) => Reply::Failed(error.message()),
        }
    }

    /// The reply to [`Command::LoadInit`] that a finished load makes: the
    /// result, or failed with the message of the error.
    pub fn loaded(outcome: Result<PostInitResponse, LoadError>) -> (reply: Reply)
        ensures
            reply@ == match outcome {
                Ok(data) => ReplyView::Loaded(data@),
                Err(error) => ReplyView::Failed(error@.message()),
            },
    {
        match outcome {
            Ok(data) => Reply::Loaded(data),
            Err(error) => Reply::Failed(error.message()),
        }
    }
}

/// Why a phase gave up.
#[derive(Debug, Clone, PartialEq, Eq)]
pub enum Reason {
    /// The operation failed. The text is the cause as the caller reported it.
    Failed(String),
    /// The reply does not answer the operation.
    Unexpected,
    /// Every key share was submitted and the server did not reach the state
    /// that the submissions were to bring about.
    Exhausted,
    /// A root generation attempt is already in progress on the server.
    InProgress,
}

/// Mathematical content of a [`Reason`].
pub enum ReasonView {
    Failed(Seq<char>),
    Unexpected,
    Exhausted,
    InProgress,
}

impl View for Reason {
    type V = ReasonView;

    open spec fn view(&self) -> ReasonView {
        match self {
            Reason::Failed(cause) => ReasonView::Failed(cause@),
            Reason::Unexpected => ReasonView::Unexpected,
            Reason::Exhausted => ReasonView::Exhausted,
            Reason::InProgress => ReasonView::InProgress,
        }
    }
}

/// A fatal error of a run: the phase, the operation that was outstanding,
/// and the reason.
#[derive(Debug, Clone, PartialEq, Eq)]
pub struct Failure {
    pub phase: Phase,
    pub operation: Operation,
    pub reason: Reason,
}

/// Mathematical content of a [`Failure`].
pub struct FailureView {
    pub phase: Phase,
    pub operation: Operation,
    pub reason: ReasonView,
}

impl View for Failure {
    type V = FailureView;

    open spec fn view(&self) -> FailureView {
        FailureView { phase: self.phase, operation: self.operation, reason: self.reason@ }
    }
}

/// Outcome of one step of a phase, or of the run, in stage type `S`.
#[derive(Debug, Clone, PartialEq, Eq)]
pub enum Progress<S> {
    /// Perform the command and come back with its reply, in the given stage.
    Next(Command, S),
    /// Nothing is left to do.
    Done,
    /// A fatal error. No command is outstanding.
    Abort(Failure),
}

/// Mathematical content of a [`Progress`].
pub enum ProgressView<V> {
    Next(CommandView, V),
    Done,
    Abort(FailureView),
}

impl<S: View> View for Progress<S> {
    type V = ProgressView<S::V>;

    open spec fn view(&self) -> ProgressView<S::V> {
        match self {
            Progress::Next(command, stage) => ProgressView::Next(command@, stage@),
            Progress::Done => ProgressView::Done,
            Progress::Abort(failure) => ProgressView::Abort(failure@),
        }
    }
}

/// A failure of `operation` in `phase` with the cause that the caller
/// reported.
pub open spec fn failed_view(phase: Phase, operation: Operation, cause: Seq<char>) -> FailureView {
    FailureView { phase, operation, reason: ReasonView::Failed(cause) }
}

/// The failure of a phase that was handed a reply to another operation than
/// the outstanding one.
pub open spec fn unexpected_view(phase: Phase, operation: Operation) -> FailureView {
    FailureView { phase, operation, reason: ReasonView::Unexpected }
}

fn failed(phase: Phase, operation: Operation, cause: String) -> (failure: Failure)
    ensures
        failure@ == failed_view(phase, operation, cause@),
{
    Failure { phase, operation, reason: Reason::Failed(cause) }
}

fn unexpected(phase: Phase, operation: Operation) -> (failure: Failure)
    ensures
        failure@ == unexpected_view(phase, operation),
{
    Failure { phase, operation, reason: Reason::Unexpected }
}

/// Where the rotation of the root token stands.
#[derive(Debug, Clone, PartialEq, Eq)]
pub enum RotateStage {
    /// The state of the root generation attempt was asked for.
    Check,
    /// The persisted initialization result was asked for.
    Load,
    /// The start of a new attempt was asked for.
    Start { init: PostInitResponse },
    /// Shares `0 .. next` of `init` were submitted to the attempt `nonce`;
    /// the reply to the last of them is awaited.
    Submit { init: PostInitResponse, nonce: String, otp: String, next: usize },
    /// The revocation of the previous root token was asked for.
    Revoke,
}

/// Mathematical content of a [`RotateStage`].
pub enum RotateStageView {
    Check,
    Load,
    Start { init: PostInitResponseView },
    Submit { init: PostInitResponseView, nonce: Seq<char>, otp: Seq<char>, next: nat },
    Revoke,
}

impl View for RotateStage {
    type V = RotateStageView;

    open spec fn view(&self) -> RotateStageView {
        match self {
            RotateStage::Check => RotateStageView::Check,
            RotateStage::Load => RotateStageView::Load,
            RotateStage::Start { init } => RotateStageView::Start { init: init@ },
            RotateStage::Submit { init, nonce, otp, next } => RotateStageView::Submit {
                init: init@,
                nonce: nonce@,
                otp: otp@,
                next: *next as nat,
            },
            RotateStage::Revoke => RotateStageView::Revoke,
        }
    }
}

/// The submission of one key share to the attempt `nonce`.
pub open spec fn rotate_request_view(key: Seq<char>, nonce: Seq<char>) -> CommandView {
    CommandView::PostGenerateRootUpdate(PostGenerateRootUpdateRequestView { key, nonce })
}

/// The start of a root generation attempt without a PGP key.
pub open spec fn start_attempt_view() -> CommandView {
    CommandView::PostGenerateRootAttempt(PostGenerateRootAttemptRequestView { pgp_key: None })
}

/// The failure of a rotation that has run out of key shares.
pub open spec fn unable_to_rotate() -> FailureView {
    FailureView {
        phase: Phase::RotateRoot,
        operation: Operation::PostGenerateRootUpdate,
        reason: ReasonView::Exhausted,
    }
}

/// The failure of a rotation that found an attempt in progress.
pub open spec fn attempt_in_progress() -> FailureView {
    FailureView {
        phase: Phase::RotateRoot,
        operation: Operation::GetGenerateRootAttempt,
        reason: ReasonView::InProgress,
    }
}

/// The submission of share `next` of `init` to the attempt `nonce`, or, where
/// no share is left, the failure of the rotation.
pub open spec fn rotate_share_model(
    init: PostInitResponseView,
    nonce: Seq<char>,
    otp: Seq<char>,
    next: nat,
) -> ProgressView<RotateStageView> {
    if next < init.keys.len() {
        ProgressView::Next(
            rotate_request_view(init.keys[next as int], nonce),
            RotateStageView::Submit { init, nonce, otp, next: next + 1 },
        )
    } else {
        ProgressView::Abort(unable_to_rotate())
    }
}

/// One step of the rotation of the root token.
///
/// - `Check`: a failed read is fatal. An attempt that is already started is
///   fatal too, and is not resumed. Otherwise the persisted initialization
///   result is asked for.
/// - `Load`: a failed load is fatal. Otherwise a new attempt is started,
///   without a PGP key.
/// - `Start`: a failed start is fatal. Otherwise the first share is
///   submitted with the nonce of the new attempt.
/// - `Submit`: a reply that reports completion leads to the revocation of
///   the previous root token, in a call that authenticates with it. A reply
///   that does not, and a failed submission, lead to the next share. Where
///   none is left, the rotation fails.
/// - `Revoke`: a failed revocation is fatal. Otherwise the phase is done.
pub open spec fn rotate_root_model(stage: RotateStageView, reply: ReplyView) -> ProgressView<
    RotateStageView,
> {
    match stage {
        RotateStageView::Check => match reply {
            ReplyView::GenerateRootStatus(status) => if status.started {
                ProgressView::Abort(attempt_in_progress())
            } else {
                ProgressView::Next(CommandView::LoadInit, RotateStageView::Load)
            },
            ReplyView::Failed(cause) => ProgressView::Abort(
                failed_view(Phase::RotateRoot, Operation::GetGenerateRootAttempt, cause),
            ),
            _ => ProgressView::Abort(
                unexpected_view(Phase::RotateRoot, Operation::GetGenerateRootAttempt),
            ),
        },
        RotateStageView::Load => match reply {
            ReplyView::Loaded(init) => ProgressView::Next(
                start_attempt_view(),
                RotateStageView::Start { init },
            ),
            ReplyView::Failed(cause) => ProgressView::Abort(
                failed_view(Phase::RotateRoot, Operation::LoadInit, cause),
            ),
            _ => ProgressView::Abort(unexpected_view(Phase::RotateRoot, Operation::LoadInit)),
        },
        RotateStageView::Start { init } => match reply {
            ReplyView::GenerateRootStarted(attempt) => rotate_share_model(
                init,
                attempt.nonce,
                attempt.otp,
                0,
            ),
            ReplyView::Failed(cause) => ProgressView::Abort(
                failed_view(Phase::RotateRoot, Operation::PostGenerateRootAttempt, cause),
            ),
            _ => ProgressView::Abort(
                unexpected_view(Phase::RotateRoot, Operation::PostGenerateRootAttempt),
            ),
        },
        RotateStageView::Submit { init, nonce, otp, next } => match reply {
            ReplyView::GenerateRootUpdated(attempt) => if attempt.complete {
                ProgressView::Next(
                    CommandView::RevokeSelf(init.root_token),
                    RotateStageView::Revoke,
                )
            } else {
                rotate_share_model(init, nonce, otp, next)
            },
            ReplyView::Failed(_) => rotate_share_model(init, nonce, otp, next),
            _ => ProgressView::Abort(
                unexpected_view(Phase::RotateRoot, Operation::PostGenerateRootUpdate),
            ),
        },
        RotateStageView::Revoke => match reply {
            ReplyView::Revoked => ProgressView::Done,
            ReplyView::Failed(cause) => ProgressView::Abort(
                failed_view(Phase::RotateRoot, Operation::RevokeSelf, cause),
            ),
            _ => ProgressView::Abort(unexpected_view(Phase::RotateRoot, Operation::RevokeSelf)),
        },
    }
}

fn rotate_share(init: PostInitResponse, nonce: String, otp: String, next: usize) -> (progress:
    Progress<RotateStage>)
    ensures
        progress@ == rotate_share_model(init@, nonce@, otp@, next as nat),
{
    if next < init.keys.len() {
        let request = PostGenerateRootUpdateRequest {
            key: init.keys[next].clone(),
            nonce: nonce.clone(),
        };
        Progress::Next(
            Command::PostGenerateRootUpdate(request),
            RotateStage::Submit { init, nonce, otp, next: next + 1 },
        )
    } else {
        Progress::Abort(
            Failure {
                phase: Phase::RotateRoot,
                operation: Operation::PostGenerateRootUpdate,
                reason: Reason::Exhausted,
            },
        )
    }
}

/// The rotation of the root token, one step at a time. The phase opens with
/// [`Command::GetGenerateRootAttempt`] in stage [`RotateStage::Check`].
pub fn rotate_root(stage: RotateStage, reply: Reply) -> (progress: Progress<RotateStage>)
    ensures
        progress@ == rotate_root_model(stage@, reply@),
{
    match stage {
        RotateStage::Check => match reply {
            Reply::GenerateRootStatus(status) => {
                if status.started {
                    Progress::Abort(
                        Failure {
                            phase: Phase::RotateRoot,
                            operation: Operation::GetGenerateRootAttempt,
                            reason: Reason::InProgress,
                        },
                    )
                } else {
                    Progress::Next(Command::LoadInit, RotateStage::Load)
                }
            },
            Reply::Failed(cause) => Progress::Abort(
                failed(Phase::RotateRoot, Operation::GetGenerateRootAttempt, cause),
            ),
            _ => Progress::Abort(unexpected(Phase::RotateRoot, Operation::GetGenerateRootAttempt)),
        },
        RotateStage::Load => match reply {
            Reply::Loaded(init) => Progress::Next(
                Command::PostGenerateRootAttempt(PostGenerateRootAttemptRequest { pgp_key: None }),
                RotateStage::Start { init },
            ),
            Reply::Failed(cause) => Progress::Abort(
                failed(Phase::RotateRoot, Operation::LoadInit, cause),
            ),
            _ => Progress::Abort(unexpected(Phase::RotateRoot, Operation::LoadInit)),
        },
        RotateStage::Start { init } => match reply {
            Reply::GenerateRootStarted(attempt) => rotate_share(
                init,
                attempt.nonce,
                attempt.otp,
                0,
            ),
            Reply::Failed(cause) => Progress::Abort(
                failed(Phase::RotateRoot, Operation::PostGenerateRootAttempt, cause),
            ),
            _ => Progress::Abort(unexpected(Phase::RotateRoot, Operation::PostGenerateRootAttempt)),
        },
        RotateStage::Submit { init, nonce, otp, next } => match reply {
            Reply::GenerateRootUpdated(attempt) => {
                if attempt.complete {
                    Progress::Next(Command::RevokeSelf(init.root_token), RotateStage::Revoke)
                } else {
                    rotate_share(init, nonce, otp, next)
                }
            },
            Reply::Failed(_) => rotate_share(init, nonce, otp, next),
            _ => Progress::Abort(unexpected(Phase::RotateRoot, Operation::PostGenerateRootUpdate)),
        },
        RotateStage::Revoke => match reply {
            Reply::Revoked => Progress::Done,
            Reply::Failed(cause) => Progress::Abort(
                failed(Phase::RotateRoot, Operation::RevokeSelf, cause),
            ),
            _ => Progress::Abort(unexpected(Phase::RotateRoot, Operation::RevokeSelf)),
        },
    }
}

/// Where the unseal stands.
#[derive(Debug, Clone, PartialEq, Eq)]
pub enum UnsealStage {
    /// The seal status was asked for.
    Status,
    /// The persisted initialization result was asked for.
    Load,
    /// Shares `0 .. next` of `init` were submitted; the reply to the last of
    /// them is awaited.
    Submit { init: PostInitResponse, next: usize },
}

/// Mathematical content of an [`UnsealStage`].
pub enum UnsealStageView {
    Status,
    Load,
    Submit { init: PostInitResponseView, next: nat },
}

impl View for UnsealStage {
    type V = UnsealStageView;

    open spec fn view(&self) -> UnsealStageView {
        match self {
            UnsealStage::Status => UnsealStageView::Status,
            UnsealStage::Load => UnsealStageView::Load,
            UnsealStage::Submit { init, next } => UnsealStageView::Submit {
                init: init@,
                next: *next as nat,
            },
        }
    }
}

/// The submission of one key share to the unseal.
pub open spec fn unseal_request_view(key: Seq<char>) -> CommandView {
    CommandView::SubmitUnsealKey(
        PostUnsealRequestView { key: Some(key), reset: false, migrate: false },
    )
}

/// The failure of an unseal that has run out of key shares.
pub open spec fn unable_to_unseal() -> FailureView {
    FailureView {
        phase: Phase::Unseal,
        operation: Operation::SubmitUnsealKey,
        reason: ReasonView::Exhausted,
    }
}

/// The submission of share `next` of `init`, or, where no share is left, the
/// failure of the unseal.
pub open spec fn unseal_share_model(init: PostInitResponseView, next: nat) -> ProgressView<
    UnsealStageView,
> {
    if next < init.keys.len() {
        ProgressView::Next(
            unseal_request_view(init.keys[next as int]),
            UnsealStageView::Submit { init, next: next + 1 },
        )
    } else {
        ProgressView::Abort(unable_to_unseal())
    }
}

/// One step of the unseal.
///
/// - `Status`: a failed read is fatal. A server that is not sealed ends the
///   phase. Otherwise the persisted initialization result is asked for.
/// - `Load`: a failed load is fatal. Otherwise the first share is submitted.
/// - `Submit`: a reply that reports the server unsealed ends the phase. A
///   reply that reports it sealed, and a failed submission, lead to the next
///   share, in the order in which the shares were returned. Where none is
///   left, the unseal fails.
pub open spec fn load_and_unseal_model(stage: UnsealStageView, reply: ReplyView) -> ProgressView<
    UnsealStageView,
> {
    match stage {
        UnsealStageView::Status => match reply {
            ReplyView::SealStatus(status) => if status.sealed {
                ProgressView::Next(CommandView::LoadInit, UnsealStageView::Load)
            } else {
                ProgressView::Done
            },
            ReplyView::Failed(cause) => ProgressView::Abort(
                failed_view(Phase::Unseal, Operation::GetSealStatus, cause),
            ),
            _ => ProgressView::Abort(unexpected_view(Phase::Unseal, Operation::GetSealStatus)),
        },
        UnsealStageView::Load => match reply {
            ReplyView::Loaded(init) => unseal_share_model(init, 0),
            ReplyView::Failed(cause) => ProgressView::Abort(
                failed_view(Phase::Unseal, Operation::LoadInit, cause),
            ),
            _ => ProgressView::Abort(unexpected_view(Phase::Unseal, Operation::LoadInit)),
        },
        UnsealStageView::Submit { init, next } => match reply {
            ReplyView::Unseal(status) => if status.sealed {
                unseal_share_model(init, next)
            } else {
                ProgressView::Done
            },
            ReplyView::Failed(_) => unseal_share_model(init, next),
            _ => ProgressView::Abort(unexpected_view(Phase::Unseal, Operation::SubmitUnsealKey)),
        },
    }
}

fn unseal_share(init: PostInitResponse, next: usize) -> (progress: Progress<UnsealStage>)
    ensures
        progress@ == unseal_share_model(init@, next as nat),
{
    if next < init.keys.len() {
        let request = PostUnsealRequest {
            key: Some(init.keys[next].clone()),
            reset: false,
            migrate: false,
        };
        Progress::Next(
            Command::SubmitUnsealKey(request),
            UnsealStage::Submit { init, next: next + 1 },
        )
    } else {
        Progress::Abort(
            Failure {
                phase: Phase::Unseal,
                operation: Operation::SubmitUnsealKey,
                reason: Reason::Exhausted,
            },
        )
    }
}

/// The unseal, one step at a time. The phase opens with
/// [`Command::GetSealStatus`] in stage [`UnsealStage::Status`].
pub fn load_and_unseal(stage: UnsealStage, reply: Reply) -> (progress: Progress<UnsealStage>)
    ensures
        progress@ == load_and_unseal_model(stage@, reply@),
{
    match stage {
        UnsealStage::Status => match reply {
            Reply::SealStatus(status) => {
                if status.sealed {
                    Progress::Next(Command::LoadInit, UnsealStage::Load)
                } else {
                    Progress::Done
                }
            },
            Reply::Failed(cause) => Progress::Abort(
                failed(Phase::Unseal, Operation::GetSealStatus, cause),
            ),
            _ => Progress::Abort(unexpected(Phase::Unseal, Operation::GetSealStatus)),
        },
        UnsealStage::Load => match reply {
            Reply::Loaded(init) => unseal_share(init, 0),
            Reply::Failed(cause) => Progress::Abort(
                failed(Phase::Unseal, Operation::LoadInit, cause),
            ),
            _ => Progress::Abort(unexpected(Phase::Unseal, Operation::LoadInit)),
        },
        UnsealStage::Submit { init, next } => match reply {
            Reply::Unseal(status) => {
                if status.sealed {
                    unseal_share(init, next)
                } else {
                    Progress::Done
                }
            },
            Reply::Failed(_) => unseal_share(init, next),
            _ => Progress::Abort(unexpected(Phase::Unseal, Operation::SubmitUnsealKey)),
        },
    }
}

/// Where the initialization stands.
#[derive(Debug, Clone, PartialEq, Eq)]
pub enum InitStage {
    /// The init status was asked for. `request` is what the server is to be
    /// initialized with, should it need to be.
    Status { request: PostInitRequest },
    /// The initialization was asked for.
    Init,
    /// The persistence of the initialization result was asked for.
    Save,
}

/// Mathematical content of an [`InitStage`].
pub enum InitStageView {
    Status { request: PostInitRequestView },
    Init,
    Save,
}

impl View for InitStage {
    type V = InitStageView;

    open spec fn view(&self) -> InitStageView {
        match self {
            InitStage::Status { request } => InitStageView::Status { request: request@ },
            InitStage::Init => InitStageView::Init,
            InitStage::Save => InitStageView::Save,
        }
    }
}

/// One step of the initialization.
///
/// - `Status`: a failed read is fatal. A server that is initialized ends the
///   phase. Otherwise the server is initialized with the request.
/// - `Init`: a failed initialization is fatal. Otherwise the result is
///   handed to the persistence backends, as it came.
/// - `Save`: a failed save is fatal. Otherwise the phase is done.
pub open spec fn init_and_save_model(stage: InitStageView, reply: ReplyView) -> ProgressView<
    InitStageView,
> {
    match stage {
        InitStageView::Status { request } => match reply {
            ReplyView::InitStatus(status) => if status.initialized {
                ProgressView::Done
            } else {
                ProgressView::Next(CommandView::StartInit(request), InitStageView::Init)
            },
            ReplyView::Failed(cause) => ProgressView::Abort(
                failed_view(Phase::Init, Operation::ReadInitStatus, cause),
            ),
            _ => ProgressView::Abort(unexpected_view(Phase::Init, Operation::ReadInitStatus)),
        },
        InitStageView::Init => match reply {
            ReplyView::Initialized(data) => ProgressView::Next(
                CommandView::SaveInit(data),
                InitStageView::Save,
            ),
            ReplyView::Failed(cause) => ProgressView::Abort(
                failed_view(Phase::Init, Operation::StartInit, cause),
            ),
            _ => ProgressView::Abort(unexpected_view(Phase::Init, Operation::StartInit)),
        },
        InitStageView::Save => match reply {
            ReplyView::Saved => ProgressView::Done,
            ReplyView::Failed(cause) => ProgressView::Abort(
                failed_view(Phase::Init, Operation::SaveInit, cause),
            ),
            _ => ProgressView::Abort(unexpected_view(Phase::Init, Operation::SaveInit)),
        },
    }
}

/// The initialization, one step at a time. The phase opens with
/// [`Command::ReadInitStatus`] in stage [`InitStage::Status`].
pub fn init_and_save(stage: InitStage, reply: Reply) -> (progress: Progress<InitStage>)
    ensures
        progress@ == init_and_save_model(stage@, reply@),
{
    match stage {
        InitStage::Status { request } => match reply {
            Reply::InitStatus(status) => {
                if status.initialized {
                    Progress::Done
                } else {
                    Progress::Next(Command::StartInit(request), InitStage::Init)
                }
            },
            Reply::Failed(cause) => Progress::Abort(
                failed(Phase::Init, Operation::ReadInitStatus, cause),
            ),
            _ => Progress::Abort(unexpected(Phase::Init, Operation::ReadInitStatus)),
        },
        InitStage::Init => match reply {
            Reply::Initialized(data) => Progress::Next(Command::SaveInit(data), InitStage::Save),
            Reply::Failed(cause) => Progress::Abort(
                failed(Phase::Init, Operation::StartInit, cause),
            ),
            _ => Progress::Abort(unexpected(Phase::Init, Operation::StartInit)),
        },
        InitStage::Save => match reply {
            Reply::Saved => Progress::Done,
            Reply::Failed(cause) => Progress::Abort(
                failed(Phase::Init, Operation::SaveInit, cause),
            ),
            _ => Progress::Abort(unexpected(Phase::Init, Operation::SaveInit)),
        },
    }
}

/// Where a run stands: the phase, and the stage within it.
#[derive(Debug, Clone, PartialEq, Eq)]
pub enum State {
    Init(InitStage),
    Unseal(UnsealStage),
    Rotate(RotateStage),
}

/// Mathematical content of a [`State`].
pub enum StateView {
    Init(InitStageView),
    Unseal(UnsealStageView),
    Rotate(RotateStageView),
}

impl View for State {
    type V = StateView;

    open spec fn view(&self) -> StateView {
        match self {
            State::Init(stage) => StateView::Init(stage@),
            State::Unseal(stage) => StateView::Unseal(stage@),
            State::Rotate(stage) => StateView::Rotate(stage@),
        }
    }
}

/// The opening of a run: the init status is asked for.
pub open spec fn start_model(request: PostInitRequestView) -> ProgressView<StateView> {
    ProgressView::Next(
        CommandView::ReadInitStatus,
        StateView::Init(InitStageView::Status { request }),
    )
}

/// One step of a run. The phases follow one another in a fixed order: the
/// end of the initialization opens the unseal with a read of the seal
/// status, the end of the unseal opens the rotation with a read of the root
/// generation attempt, and the end of the rotation ends the run. A failure
/// in any phase ends the run with that failure.
pub open spec fn advance_model(state: StateView, reply: ReplyView) -> ProgressView<StateView> {
    match state {
        StateView::Init(stage) => match init_and_save_model(stage, reply) {
            ProgressView::Next(command, next) => ProgressView::Next(command, StateView::Init(next)),
            ProgressView::Done => ProgressView::Next(
                CommandView::GetSealStatus,
                StateView::Unseal(UnsealStageView::Status),
            ),
            ProgressView::Abort(failure) => ProgressView::Abort(failure),
        },
        StateView::Unseal(stage) => match load_and_unseal_model(stage, reply) {
            ProgressView::Next(command, next) => ProgressView::Next(
                command,
                StateView::Unseal(next),
            ),
            ProgressView::Done => ProgressView::Next(
                CommandView::GetGenerateRootAttempt,
                StateView::Rotate(RotateStageView::Check),
            ),
            ProgressView::Abort(failure) => ProgressView::Abort(failure),
        },
        StateView::Rotate(stage) => match rotate_root_model(stage, reply) {
            ProgressView::Next(command, next) => ProgressView::Next(
                command,
                StateView::Rotate(next),
            ),
            ProgressView::Done => ProgressView::Done,
            ProgressView::Abort(failure) => ProgressView::Abort(failure),
        },
    }
}

/// Opens a run that initializes the server, should it need to be, with
/// `request`.
pub fn start(request: PostInitRequest) -> (progress: Progress<State>)
    ensures
        progress@ == start_model(request@),
{
    Progress::Next(Command::ReadInitStatus, State::Init(InitStage::Status { request }))
}

/// Takes a run one step further, with the reply to the command that
/// [`start`] or the last call of this function gave.
pub fn advance(state: State, reply: Reply) -> (progress: Progress<State>)
    ensures
        progress@ == advance_model(state@, reply@),
{
    match state {
        State::Init(stage) => match init_and_save(stage, reply) {
            Progress::Next(command, next) => Progress::Next(command, State::Init(next)),
            Progress::Done => Progress::Next(
                Command::GetSealStatus,
                State::Unseal(UnsealStage::Status),
            ),
            Progress::Abort(failure) => Progress::Abort(failure),
        },
        State::Unseal(stage) => match load_and_unseal(stage, reply) {
            Progress::Next(command, next) => Progress::Next(command, State::Unseal(next)),
            Progress::Done => Progress::Next(
                Command::GetGenerateRootAttempt,
                State::Rotate(RotateStage::Check),
            ),
            Progress::Abort(failure) => Progress::Abort(failure),
        },
        State::Rotate(stage) => match rotate_root(stage, reply) {
            Progress::Next(command, next) => Progress::Next(command, State::Rotate(next)),
            Progress::Done => Progress::Done,
            Progress::Abort(failure) => Progress::Abort(failure),
        },
    }
}

impl Phase {
    /// The name of the phase in messages.
    pub open spec fn name_view(self) -> Seq<char> {
        match self {
            Phase::Init => "init"@,
            Phase::Unseal => "unseal"@,
            Phase::RotateRoot => "rotate_root"@,
        }
    }

    /// The name of the phase in messages.
    pub fn name(self) -> (name: &'static str)
        ensures
            name@ == self.name_view(),
    {
        match self {
            Phase::Init => "init",
            Phase::Unseal => "unseal",
            Phase::RotateRoot => "rotate_root",
        }
    }
}

impl Operation {
    /// What is said of the operation when it fails.
    pub open spec fn failure_view(self) -> Seq<char> {
        match self {
            Operation::ReadInitStatus => "Failed checking status"@,
            Operation::StartInit => "Failed performing initialization"@,
            Operation::SaveInit => "Failed writing init data to save methods"@,
            Operation::GetSealStatus => "Failed checking status"@,
            Operation::LoadInit => "Failed reading init data from save methods"@,
            Operation::SubmitUnsealKey => "Failed submitting key"@,
            Operation::GetGenerateRootAttempt => "Failed checking generate root status"@,
            Operation::PostGenerateRootAttempt => "Failed starting generate root process"@,
            Operation::PostGenerateRootUpdate => "Failed submitting key"@,
            Operation::RevokeSelf => "Failed revoking previous root token"@,
        }
    }

    /// What is said of the operation when it fails.
    pub fn failure(self) -> (text: &'static str)
        ensures
            text@ == self.failure_view(),
    {
        match self {
            Operation::ReadInitStatus => "Failed checking status",
            Operation::StartInit => "Failed performing initialization",
            Operation::SaveInit => "Failed writing init data to save methods",
            Operation::GetSealStatus => "Failed checking status",
            Operation::LoadInit => "Failed reading init data from save methods",
            Operation::SubmitUnsealKey => "Failed submitting key",
            Operation::GetGenerateRootAttempt => "Failed checking generate root status",
            Operation::PostGenerateRootAttempt => "Failed starting generate root process",
            Operation::PostGenerateRootUpdate => "Failed submitting key",
            Operation::RevokeSelf => "Failed revoking previous root token",
        }
    }

    /// What is said when the key shares ran out on the operation.
    pub open spec fn exhausted_view(self) -> Seq<char> {
        match self {
            Operation::SubmitUnsealKey => "Unable to completely unseal Vault"@,
            _ => "Unable to complete generate root process"@,
        }
    }

    /// What is said when the key shares ran out on the operation.
    pub fn exhausted(self) -> (text: &'static str)
        ensures
            text@ == self.exhausted_view(),
    {
        match self {
            Operation::SubmitUnsealKey => "Unable to completely unseal Vault",
            _ => "Unable to complete generate root process",
        }
    }
}

impl FailureView {
    /// The message of the failure: the phase, then what went wrong. Where
    /// an operation failed or was answered out of turn, the operation is
    /// named, and the cause follows.
    pub open spec fn message(self) -> Seq<char> {
        let head = self.phase.name_view() + ": "@;
        match self.reason {
            ReasonView::Failed(cause) => head + self.operation.failure_view() + ": "@ + cause,
            ReasonView::Unexpected => head + self.operation.failure_view()
                + ": unexpected reply"@,
            ReasonView::Exhausted => head + self.operation.exhausted_view(),
            ReasonView::InProgress => head + "Generate root process is already in progress"@,
        }
    }
}

impl Failure {
    /// The message of the failure.
    pub fn message(&self) -> (text: String)
        ensures
            text@ == self@.message(),
    {
        let mut text = self.phase.name().to_owned();
        text.append(": ");
        match &self.reason {
            Reason::Failed(cause) => {
                text.append(self.operation.failure());
                text.append(": ");
                text.append(cause.as_str());
            },
            Reason::Unexpected => {
                text.append(self.operation.failure());
                text.append(": unexpected reply");
            },
            Reason::Exhausted => {
                text.append(self.operation.exhausted());
            },
            Reason::InProgress => {
                text.append("Generate root process is already in progress");
            },
        }
        text
    }
}

impl InitStageView {
    /// The operation whose reply the stage awaits.
    pub open spec fn outstanding(self) -> Operation {
        match self {
            InitStageView::Status { .. } => Operation::ReadInitStatus,
            InitStageView::Init => Operation::StartInit,
            InitStageView::Save => Operation::SaveInit,
        }
    }
}

impl UnsealStageView {
    /// The operation whose reply the stage awaits.
    pub open spec fn outstanding(self) -> Operation {
        match self {
            UnsealStageView::Status => Operation::GetSealStatus,
            UnsealStageView::Load => Operation::LoadInit,
            UnsealStageView::Submit { .. } => Operation::SubmitUnsealKey,
        }
    }
}

impl RotateStageView {
    /// The operation whose reply the stage awaits.
    pub open spec fn outstanding(self) -> Operation {
        match self {
            RotateStageView::Check => Operation::GetGenerateRootAttempt,
            RotateStageView::Load => Operation::LoadInit,
            RotateStageView::Start { .. } => Operation::PostGenerateRootAttempt,
            RotateStageView::Submit { .. } => Operation::PostGenerateRootUpdate,
            RotateStageView::Revoke => Operation::RevokeSelf,
        }
    }
}

impl StateView {
    /// The phase that the run is in.
    pub open spec fn phase(self) -> Phase {
        match self {
            StateView::Init(_) => Phase::Init,
            StateView::Unseal(_) => Phase::Unseal,
            StateView::Rotate(_) => Phase::RotateRoot,
        }
    }

    /// The operation whose reply the run awaits.
    pub open spec fn outstanding(self) -> Operation {
        match self {
            StateView::Init(stage) => stage.outstanding(),
            StateView::Unseal(stage) => stage.outstanding(),
            StateView::Rotate(stage) => stage.outstanding(),
        }
    }

    /// Whether the run awaits the reply to the submission of a key share.
    pub open spec fn submitting(self) -> bool {
        match self {
            StateView::Unseal(UnsealStageView::Submit { .. }) => true,
            StateView::Rotate(RotateStageView::Submit { .. }) => true,
            _ => false,
        }
    }
}

impl State {
    /// The phase that the run is in.
    pub fn phase(&self) -> (phase: Phase)
        ensures
            phase == self@.phase(),
    {
        match self {
            State::Init(_) => Phase::Init,
            State::Unseal(_) => Phase::Unseal,
            State::Rotate(_) => Phase::RotateRoot,
        }
    }
}

} // verus!
