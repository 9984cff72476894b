use vault_init::orchestrator::advance;
use vault_init::orchestrator::init_and_save;
use vault_init::orchestrator::load_and_unseal;
use vault_init::orchestrator::rotate_root;
use vault_init::orchestrator::start;
use vault_init::orchestrator::Command;
use vault_init::orchestrator::Failure;
use vault_init::orchestrator::InitStage;
use vault_init::orchestrator::Operation;
use vault_init::orchestrator::Phase;
use vault_init::orchestrator::Progress;
use vault_init::orchestrator::Reason;
use vault_init::orchestrator::Reply;
use vault_init::orchestrator::RotateStage;
use vault_init::orchestrator::State;
use vault_init::orchestrator::UnsealStage;
use vault_init::vault::models::sys::generate_root::GetGenerateRootAttemptResponse;
use vault_init::vault::models::sys::generate_root::PostGenerateRootAttemptRequest;
use vault_init::vault::models::sys::generate_root::PostGenerateRootAttemptResponse;
use vault_init::vault::models::sys::generate_root::PostGenerateRootUpdateRequest;
use vault_init::vault::models::sys::generate_root::PostGenerateRootUpdateResponse;
use vault_init::vault::models::sys::init::GetInitResponse;
use vault_init::vault::models::sys::init::PostInitRequest;
use vault_init::vault::models::sys::init::PostInitResponse;
use vault_init::vault::models::sys::seal_status::SealStatusResponse;
use vault_init::vault::models::sys::unseal::PostUnsealRequest;
use vault_init::vault::models::sys::unseal::PostUnsealResponse;

fn five_shares() -> PostInitResponse {
    PostInitResponse {
        keys: vec![
            "k0".to_string(),
            "k1".to_string(),
            "k2".to_string(),
            "k3".to_string(),
            "k4".to_string(),
        ],
        keys_base64: vec![
            "azA=".to_string(),
            "azE=".to_string(),
            "azI=".to_string(),
            "azM=".to_string(),
            "azQ=".to_string(),
        ],
        root_token: "root-0".to_string(),
    }
}

fn request_5_of_3() -> PostInitRequest {
    PostInitRequest { secret_shares: 5, secret_threshold: 3, ..PostInitRequest::default() }
}

fn submit(key: &str) -> Command {
    Command::SubmitUnsealKey(PostUnsealRequest {
        key: Some(key.to_string()),
        reset: false,
        migrate: false,
    })
}

fn update(key: &str, nonce: &str) -> Command {
    Command::PostGenerateRootUpdate(PostGenerateRootUpdateRequest {
        key: key.to_string(),
        nonce: nonce.to_string(),
    })
}

fn sealed(sealed: bool, progress: i64) -> Reply {
    Reply::Unseal(PostUnsealResponse { sealed, t: 3, n: 5, progress, ..PostUnsealResponse::default() })
}

fn updated(complete: bool) -> Reply {
    Reply::GenerateRootUpdated(PostGenerateRootUpdateResponse {
        started: true,
        complete,
        nonce: "n-1".to_string(),
        required: 3,
        ..PostGenerateRootUpdateResponse::default()
    })
}

fn failure(phase: Phase, operation: Operation, reason: Reason) -> Failure {
    Failure { phase, operation, reason }
}

/// A server with a threshold, on which the shares named in `valid` count.
struct Server {
    initialized: bool,
    sealed: bool,
    threshold: usize,
    valid: Vec<String>,
    progress: usize,
    attempt_started: bool,
    attempt_progress: usize,
    stored: Option<PostInitResponse>,
    revoked: Vec<String>,
}

impl Server {
    fn new(initialized: bool, sealed: bool) -> Server {
        Server {
            initialized,
            sealed,
            threshold: 3,
            valid: five_shares().keys,
            progress: 0,
            attempt_started: false,
            attempt_progress: 0,
            stored: if initialized { Some(five_shares()) } else { None },
            revoked: Vec::new(),
        }
    }

    fn answer(&mut self, command: &Command) -> Reply {
        match command {
            Command::ReadInitStatus => {
                Reply::InitStatus(GetInitResponse { initialized: self.initialized })
            }
            Command::StartInit(_) => {
                self.initialized = true;
                self.sealed = true;
                Reply::Initialized(five_shares())
            }
            Command::SaveInit(data) => {
                self.stored = Some(data.clone());
                Reply::Saved
            }
            Command::GetSealStatus => Reply::SealStatus(SealStatusResponse {
                sealed: self.sealed,
                t: 3,
                n: 5,
                ..SealStatusResponse::default()
            }),
            Command::LoadInit => match &self.stored {
                Some(data) => Reply::Loaded(data.clone()),
                None => Reply::Failed("Failed loading init data from all save methods".to_string()),
            },
            Command::SubmitUnsealKey(request) => {
                let key = request.key.clone().unwrap_or_default();
                if !self.valid.contains(&key) {
                    return Reply::Failed("400 Bad Request".to_string());
                }
                self.progress += 1;
                if self.progress >= self.threshold {
                    self.sealed = false;
                }
                sealed(self.sealed, self.progress as i64)
            }
            Command::GetGenerateRootAttempt => {
                Reply::GenerateRootStatus(GetGenerateRootAttemptResponse {
                    started: self.attempt_started,
                    ..GetGenerateRootAttemptResponse::default()
                })
            }
            Command::PostGenerateRootAttempt(_) => {
                self.attempt_started = true;
                Reply::GenerateRootStarted(PostGenerateRootAttemptResponse {
                    started: true,
                    nonce: "n-1".to_string(),
                    otp: "pad".to_string(),
                    otp_length: 3,
                    required: 3,
                    ..PostGenerateRootAttemptResponse::default()
                })
            }
            Command::PostGenerateRootUpdate(request) => {
                if !self.valid.contains(&request.key) || request.nonce != "n-1" {
                    return Reply::Failed("400 Bad Request".to_string());
                }
                self.attempt_progress += 1;
                updated(self.attempt_progress >= self.threshold)
            }
            Command::RevokeSelf(token) => {
                self.revoked.push(token.clone());
                Reply::Revoked
            }
        }
    }
}

fn run(server: &mut Server) -> (Vec<Command>, Result<(), Failure>) {
    let mut commands = Vec::new();
    let mut progress = start(request_5_of_3());
    loop {
        match progress {
            Progress::Next(command, state) => {
                let reply = server.answer(&command);
                commands.push(command);
                progress = advance(state, reply);
            }
            Progress::Done => return (commands, Ok(())),
            Progress::Abort(failure) => return (commands, Err(failure)),
        }
    }
}

#[test]
fn start_reads_the_init_status_first() {
    assert_eq!(
        start(request_5_of_3()),
        Progress::Next(
            Command::ReadInitStatus,
            State::Init(InitStage::Status { request: request_5_of_3() }),
        )
    );
}

#[test]
fn fresh_server_is_initialized_unsealed_and_rotated() {
    let mut server = Server::new(false, true);
    let (commands, result) = run(&mut server);
    assert_eq!(result, Ok(()));
    assert_eq!(
        commands,
        vec![
            Command::ReadInitStatus,
            Command::StartInit(request_5_of_3()),
            Command::SaveInit(five_shares()),
            Command::GetSealStatus,
            Command::LoadInit,
            submit("k0"),
            submit("k1"),
            submit("k2"),
            Command::GetGenerateRootAttempt,
            Command::LoadInit,
            Command::PostGenerateRootAttempt(PostGenerateRootAttemptRequest { pgp_key: None }),
            update("k0", "n-1"),
            update("k1", "n-1"),
            update("k2", "n-1"),
            Command::RevokeSelf("root-0".to_string()),
        ]
    );
    assert_eq!(server.revoked, vec!["root-0".to_string()]);
    assert_eq!(server.stored, Some(five_shares()));
}

#[test]
fn initialized_and_unsealed_server_gets_two_status_reads_then_rotation() {
    let mut server = Server::new(true, false);
    let (commands, _) = run(&mut server);
    assert_eq!(commands[0], Command::ReadInitStatus);
    assert_eq!(commands[1], Command::GetSealStatus);
    assert_eq!(commands[2], Command::GetGenerateRootAttempt);
    assert!(!commands[0].operation().is_mutating());
    assert!(!commands[1].operation().is_mutating());
    assert!(!commands[2].operation().is_mutating());
    assert!(!commands.iter().any(|c| matches!(c, Command::StartInit(_) | Command::SaveInit(_))));
    assert!(!commands.iter().any(|c| matches!(c, Command::SubmitUnsealKey(_))));
}

#[test]
fn initialized_server_ends_the_init_phase_on_its_status() {
    let stage = InitStage::Status { request: request_5_of_3() };
    let reply = Reply::InitStatus(GetInitResponse { initialized: true });
    assert_eq!(init_and_save(stage, reply), Progress::Done);
}

#[test]
fn unsealed_server_ends_the_unseal_phase_on_its_status() {
    let reply = Reply::SealStatus(SealStatusResponse { sealed: false, ..Default::default() });
    assert_eq!(load_and_unseal(UnsealStage::Status, reply), Progress::Done);
}

#[test]
fn uninitialized_server_is_initialized_with_the_request() {
    let stage = InitStage::Status { request: request_5_of_3() };
    let reply = Reply::InitStatus(GetInitResponse { initialized: false });
    assert_eq!(
        init_and_save(stage, reply),
        Progress::Next(Command::StartInit(request_5_of_3()), InitStage::Init)
    );
}

#[test]
fn init_result_is_saved_as_it_came() {
    assert_eq!(
        init_and_save(InitStage::Init, Reply::Initialized(five_shares())),
        Progress::Next(Command::SaveInit(five_shares()), InitStage::Save)
    );
    assert_eq!(init_and_save(InitStage::Save, Reply::Saved), Progress::Done);
}

#[test]
fn failed_init_call_is_fatal() {
    assert_eq!(
        init_and_save(InitStage::Init, Reply::Failed("connection refused".to_string())),
        Progress::Abort(failure(
            Phase::Init,
            Operation::StartInit,
            Reason::Failed("connection refused".to_string()),
        ))
    );
}

#[test]
fn failed_save_is_fatal() {
    let cause = "File already exists, but not configured to overwrite".to_string();
    assert_eq!(
        init_and_save(InitStage::Save, Reply::Failed(cause.clone())),
        Progress::Abort(failure(Phase::Init, Operation::SaveInit, Reason::Failed(cause)))
    );
}

#[test]
fn failed_status_reads_are_fatal() {
    let cause = "timeout".to_string();
    assert_eq!(
        init_and_save(
            InitStage::Status { request: request_5_of_3() },
            Reply::Failed(cause.clone()),
        ),
        Progress::Abort(failure(
            Phase::Init,
            Operation::ReadInitStatus,
            Reason::Failed(cause.clone()),
        ))
    );
    assert_eq!(
        load_and_unseal(UnsealStage::Status, Reply::Failed(cause.clone())),
        Progress::Abort(failure(
            Phase::Unseal,
            Operation::GetSealStatus,
            Reason::Failed(cause.clone()),
        ))
    );
    assert_eq!(
        rotate_root(RotateStage::Check, Reply::Failed(cause.clone())),
        Progress::Abort(failure(
            Phase::RotateRoot,
            Operation::GetGenerateRootAttempt,
            Reason::Failed(cause),
        ))
    );
}

#[test]
fn threshold_of_three_submits_three_shares_of_five() {
    let mut server = Server::new(true, true);
    let (commands, result) = run(&mut server);
    assert_eq!(result, Ok(()));
    let submitted: Vec<&Command> =
        commands.iter().filter(|c| matches!(c, Command::SubmitUnsealKey(_))).collect();
    assert_eq!(submitted, vec![&submit("k0"), &submit("k1"), &submit("k2")]);
    assert!(!server.sealed);
}

#[test]
fn unseal_stops_at_the_reply_that_reports_unsealed() {
    let stage = UnsealStage::Submit { init: five_shares(), next: 3 };
    assert_eq!(load_and_unseal(stage, sealed(false, 0)), Progress::Done);
}

#[test]
fn sealed_reply_leads_to_the_next_share() {
    let stage = UnsealStage::Submit { init: five_shares(), next: 2 };
    assert_eq!(
        load_and_unseal(stage, sealed(true, 2)),
        Progress::Next(submit("k2"), UnsealStage::Submit { init: five_shares(), next: 3 })
    );
}

#[test]
fn too_few_valid_shares_exhaust_all_five_and_fail() {
    let mut server = Server::new(true, true);
    server.valid = vec!["k1".to_string(), "k4".to_string()];
    let (commands, result) = run(&mut server);
    assert_eq!(
        commands,
        vec![
            Command::ReadInitStatus,
            Command::GetSealStatus,
            Command::LoadInit,
            submit("k0"),
            submit("k1"),
            submit("k2"),
            submit("k3"),
            submit("k4"),
        ]
    );
    let failure = result.unwrap_err();
    assert_eq!(
        failure,
        Failure {
            phase: Phase::Unseal,
            operation: Operation::SubmitUnsealKey,
            reason: Reason::Exhausted,
        }
    );
    assert_eq!(failure.message(), "unseal: Unable to completely unseal Vault");
}

#[test]
fn failed_submission_is_skipped() {
    let stage = UnsealStage::Submit { init: five_shares(), next: 2 };
    assert_eq!(
        load_and_unseal(stage, Reply::Failed("transient".to_string())),
        Progress::Next(submit("k2"), UnsealStage::Submit { init: five_shares(), next: 3 })
    );
}

#[test]
fn unseal_succeeds_past_a_failed_share() {
    let mut server = Server::new(true, true);
    server.valid = vec!["k0".to_string(), "k2".to_string(), "k3".to_string(), "k4".to_string()];
    let (commands, result) = run(&mut server);
    assert_eq!(result, Ok(()));
    let submitted: Vec<&Command> =
        commands.iter().filter(|c| matches!(c, Command::SubmitUnsealKey(_))).collect();
    assert_eq!(submitted, vec![&submit("k0"), &submit("k1"), &submit("k2"), &submit("k3")]);
}

#[test]
fn unseal_without_shares_fails_at_once() {
    let empty = PostInitResponse::default();
    assert_eq!(
        load_and_unseal(UnsealStage::Load, Reply::Loaded(empty)),
        Progress::Abort(failure(Phase::Unseal, Operation::SubmitUnsealKey, Reason::Exhausted))
    );
}

#[test]
fn unseal_needs_the_persisted_result() {
    let cause = "Failed loading init data from all save methods".to_string();
    assert_eq!(
        load_and_unseal(UnsealStage::Load, Reply::Failed(cause.clone())),
        Progress::Abort(failure(Phase::Unseal, Operation::LoadInit, Reason::Failed(cause)))
    );
}

#[test]
fn sealed_server_loads_the_persisted_result() {
    let reply = Reply::SealStatus(SealStatusResponse { sealed: true, ..Default::default() });
    assert_eq!(
        load_and_unseal(UnsealStage::Status, reply),
        Progress::Next(Command::LoadInit, UnsealStage::Load)
    );
    assert_eq!(
        load_and_unseal(UnsealStage::Load, Reply::Loaded(five_shares())),
        Progress::Next(submit("k0"), UnsealStage::Submit { init: five_shares(), next: 1 })
    );
}

#[test]
fn rotation_guard_fails_without_starting_an_attempt() {
    let status = GetGenerateRootAttemptResponse { started: true, ..Default::default() };
    let progress = rotate_root(RotateStage::Check, Reply::GenerateRootStatus(status));
    assert_eq!(
        progress,
        Progress::Abort(failure(
            Phase::RotateRoot,
            Operation::GetGenerateRootAttempt,
            Reason::InProgress,
        ))
    );
    let mut server = Server::new(true, false);
    server.attempt_started = true;
    let (commands, result) = run(&mut server);
    assert_eq!(
        commands,
        vec![Command::ReadInitStatus, Command::GetSealStatus, Command::GetGenerateRootAttempt]
    );
    assert_eq!(
        result.unwrap_err().message(),
        "rotate_root: Generate root process is already in progress"
    );
}

#[test]
fn rotation_starts_an_attempt_without_pgp_key() {
    let status = GetGenerateRootAttemptResponse::default();
    assert_eq!(
        rotate_root(RotateStage::Check, Reply::GenerateRootStatus(status)),
        Progress::Next(Command::LoadInit, RotateStage::Load)
    );
    assert_eq!(
        rotate_root(RotateStage::Load, Reply::Loaded(five_shares())),
        Progress::Next(
            Command::PostGenerateRootAttempt(PostGenerateRootAttemptRequest { pgp_key: None }),
            RotateStage::Start { init: five_shares() },
        )
    );
}

#[test]
fn rotation_echoes_the_nonce_of_the_attempt() {
    let attempt = PostGenerateRootAttemptResponse {
        started: true,
        nonce: "2dbd10f1".to_string(),
        otp: "pad".to_string(),
        ..Default::default()
    };
    assert_eq!(
        rotate_root(
            RotateStage::Start { init: five_shares() },
            Reply::GenerateRootStarted(attempt),
        ),
        Progress::Next(
            update("k0", "2dbd10f1"),
            RotateStage::Submit {
                init: five_shares(),
                nonce: "2dbd10f1".to_string(),
                otp: "pad".to_string(),
                next: 1,
            },
        )
    );
}

fn submitting(next: usize) -> RotateStage {
    RotateStage::Submit {
        init: five_shares(),
        nonce: "n-1".to_string(),
        otp: "pad".to_string(),
        next,
    }
}

#[test]
fn rotation_skips_a_failed_share() {
    assert_eq!(
        rotate_root(submitting(1), Reply::Failed("transient".to_string())),
        Progress::Next(update("k1", "n-1"), submitting(2))
    );
    assert_eq!(
        rotate_root(submitting(1), updated(false)),
        Progress::Next(update("k1", "n-1"), submitting(2))
    );
}

#[test]
fn completed_rotation_revokes_the_previous_root_token() {
    assert_eq!(
        rotate_root(submitting(3), updated(true)),
        Progress::Next(Command::RevokeSelf("root-0".to_string()), RotateStage::Revoke)
    );
    assert_eq!(rotate_root(RotateStage::Revoke, Reply::Revoked), Progress::Done);
}

#[test]
fn failed_revocation_is_fatal() {
    assert_eq!(
        rotate_root(RotateStage::Revoke, Reply::Failed("403".to_string())),
        Progress::Abort(failure(
            Phase::RotateRoot,
            Operation::RevokeSelf,
            Reason::Failed("403".to_string()),
        ))
    );
}

#[test]
fn rotation_fails_when_the_shares_run_out() {
    let progress = rotate_root(submitting(5), updated(false));
    assert_eq!(
        progress,
        Progress::Abort(failure(
            Phase::RotateRoot,
            Operation::PostGenerateRootUpdate,
            Reason::Exhausted,
        ))
    );
    let mut server = Server::new(true, false);
    server.valid = vec!["k0".to_string()];
    let (commands, result) = run(&mut server);
    assert!(result.is_err());
    assert!(!commands.iter().any(|c| matches!(c, Command::RevokeSelf(_))));
    assert_eq!(
        result.unwrap_err().message(),
        "rotate_root: Unable to complete generate root process"
    );
}

#[test]
fn failed_start_of_the_attempt_is_fatal() {
    assert_eq!(
        rotate_root(
            RotateStage::Start { init: five_shares() },
            Reply::Failed("500".to_string()),
        ),
        Progress::Abort(failure(
            Phase::RotateRoot,
            Operation::PostGenerateRootAttempt,
            Reason::Failed("500".to_string()),
        ))
    );
}

#[test]
fn rotation_needs_the_persisted_result() {
    assert_eq!(
        rotate_root(RotateStage::Load, Reply::Failed("none".to_string())),
        Progress::Abort(failure(
            Phase::RotateRoot,
            Operation::LoadInit,
            Reason::Failed("none".to_string()),
        ))
    );
}

#[test]
fn reply_out_of_turn_is_fatal() {
    assert_eq!(
        init_and_save(InitStage::Init, Reply::Saved),
        Progress::Abort(failure(Phase::Init, Operation::StartInit, Reason::Unexpected))
    );
    assert_eq!(
        load_and_unseal(UnsealStage::Submit { init: five_shares(), next: 1 }, Reply::Revoked),
        Progress::Abort(failure(Phase::Unseal, Operation::SubmitUnsealKey, Reason::Unexpected))
    );
    assert_eq!(
        rotate_root(submitting(1), sealed(false, 3)),
        Progress::Abort(failure(
            Phase::RotateRoot,
            Operation::PostGenerateRootUpdate,
            Reason::Unexpected,
        ))
    );
}

#[test]
fn phases_follow_one_another() {
    let done_init = advance(
        State::Init(InitStage::Status { request: request_5_of_3() }),
        Reply::InitStatus(GetInitResponse { initialized: true }),
    );
    assert_eq!(
        done_init,
        Progress::Next(Command::GetSealStatus, State::Unseal(UnsealStage::Status))
    );
    let done_unseal = advance(
        State::Unseal(UnsealStage::Status),
        Reply::SealStatus(SealStatusResponse::default()),
    );
    assert_eq!(
        done_unseal,
        Progress::Next(Command::GetGenerateRootAttempt, State::Rotate(RotateStage::Check))
    );
    assert_eq!(advance(State::Rotate(RotateStage::Revoke), Reply::Revoked), Progress::Done);
}

#[test]
fn failure_in_a_phase_ends_the_run() {
    let failed = advance(State::Unseal(UnsealStage::Load), Reply::Failed("gone".to_string()));
    assert_eq!(
        failed,
        Progress::Abort(failure(
            Phase::Unseal,
            Operation::LoadInit,
            Reason::Failed("gone".to_string()),
        ))
    );
}

#[test]
fn messages_name_phase_operation_and_cause() {
    let failed = failure(
        Phase::Init,
        Operation::SaveInit,
        Reason::Failed("disk full".to_string()),
    );
    assert_eq!(failed.message(), "init: Failed writing init data to save methods: disk full");
    let unexpected = failure(Phase::Unseal, Operation::GetSealStatus, Reason::Unexpected);
    assert_eq!(unexpected.message(), "unseal: Failed checking status: unexpected reply");
    assert_eq!(Phase::RotateRoot.name(), "rotate_root");
    assert_eq!(Operation::RevokeSelf.failure(), "Failed revoking previous root token");
}

#[test]
fn reads_do_not_mutate_and_writes_do() {
    assert!(!Operation::ReadInitStatus.is_mutating());
    assert!(!Operation::GetSealStatus.is_mutating());
    assert!(!Operation::GetGenerateRootAttempt.is_mutating());
    assert!(!Operation::LoadInit.is_mutating());
    assert!(Operation::StartInit.is_mutating());
    assert!(Operation::SaveInit.is_mutating());
    assert!(Operation::SubmitUnsealKey.is_mutating());
    assert!(Operation::PostGenerateRootAttempt.is_mutating());
    assert!(Operation::PostGenerateRootUpdate.is_mutating());
    assert!(Operation::RevokeSelf.is_mutating());
    assert_eq!(submit("k0").operation(), Operation::SubmitUnsealKey);
}

#[test]
fn finished_save_and_load_make_replies() {
    assert_eq!(Reply::saved(Ok(())), Reply::Saved);
    assert_eq!(
        Reply::saved(Err(vault_init::save::SaveError::AlreadyExists(
            vault_init::save::Backend::File
        ))),
        Reply::Failed("File already exists, but not configured to overwrite".to_string())
    );
    assert_eq!(Reply::loaded(Ok(five_shares())), Reply::Loaded(five_shares()));
    assert_eq!(
        Reply::loaded(Err(vault_init::save::LoadError::Unavailable)),
        Reply::Failed("Failed loading init data from all save methods".to_string())
    );
}
