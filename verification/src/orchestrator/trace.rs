//! What a run does over a whole sequence of replies, and what follows from
//! the single steps for the phases as wholes.
use vstd::prelude::*;

use crate::orchestrator::advance_model;
use crate::orchestrator::failed_view;
use crate::orchestrator::start_model;
use crate::orchestrator::init_and_save_model;
use crate::orchestrator::load_and_unseal_model;
use crate::orchestrator::rotate_root_model;
use crate::orchestrator::attempt_in_progress;
use crate::orchestrator::rotate_request_view;
use crate::orchestrator::start_attempt_view;
use crate::orchestrator::unable_to_rotate;
use crate::orchestrator::unable_to_unseal;
use crate::orchestrator::unseal_request_view;
use crate::orchestrator::CommandView;
use crate::orchestrator::FailureView;
use crate::orchestrator::InitStageView;
use crate::orchestrator::Operation;
use crate::orchestrator::Phase;
use crate::orchestrator::ProgressView;
use crate::orchestrator::ReasonView;
use crate::orchestrator::ReplyView;
use crate::orchestrator::RotateStageView;
use crate::orchestrator::StateView;
use crate::orchestrator::UnsealStageView;
use crate::vault::models::sys::generate_root::GetGenerateRootAttemptResponseView;
use crate::vault::models::sys::generate_root::PostGenerateRootAttemptResponseView;
use crate::vault::models::sys::init::GetInitResponse;
use crate::vault::models::sys::init::PostInitRequestView;
use crate::vault::models::sys::init::PostInitResponseView;
use crate::vault::models::sys::seal_status::SealStatusResponseView;

verus! {

/// How a sequence of replies leaves a phase or a run.
pub enum End<S> {
    /// The replies ran out: a command is outstanding in the given stage.
    Waiting(S),
    /// Nothing was left to do.
    Done,
    /// A fatal error.
    Abort(FailureView),
}

/// The commands that a sequence of replies brought about, in order, and how
/// it ended.
pub struct Trace<S> {
    pub commands: Seq<CommandView>,
    pub end: End<S>,
}

/// The trace of `replies`, handed one by one to the step function `step`,
/// from `stage` on. Replies that arrive after the end are not looked at.
pub open spec fn trace<S>(
    step: spec_fn(S, ReplyView) -> ProgressView<S>,
    stage: S,
    replies: Seq<ReplyView>,
) -> Trace<S>
    decreases replies.len(),
{
    if replies.len() == 0 {
        Trace { commands: Seq::empty(), end: End::Waiting(stage) }
    } else {
        match step(stage, replies.first()) {
            ProgressView::Next(command, next) => {
                let rest = trace(step, next, replies.drop_first());
                Trace { commands: seq![command] + rest.commands, end: rest.end }
            },
            ProgressView::Done => Trace { commands: Seq::empty(), end: End::Done },
            ProgressView::Abort(failure) => Trace {
                commands: Seq::empty(),
                end: End::Abort(failure),
            },
        }
    }
}

/// The step function of the initialization.
pub open spec fn init_phase() -> spec_fn(InitStageView, ReplyView) -> ProgressView<InitStageView> {
    |stage: InitStageView, reply: ReplyView| init_and_save_model(stage, reply)
}

/// The step function of the unseal.
pub open spec fn unseal_phase() -> spec_fn(UnsealStageView, ReplyView) -> ProgressView<
    UnsealStageView,
> {
    |stage: UnsealStageView, reply: ReplyView| load_and_unseal_model(stage, reply)
}

/// The step function of the rotation.
pub open spec fn rotate_phase() -> spec_fn(RotateStageView, ReplyView) -> ProgressView<
    RotateStageView,
> {
    |stage: RotateStageView, reply: ReplyView| rotate_root_model(stage, reply)
}

/// The step function of a run.
pub open spec fn whole_run() -> spec_fn(StateView, ReplyView) -> ProgressView<StateView> {
    |state: StateView, reply: ReplyView| advance_model(state, reply)
}

/// The trace of a run that was opened with `request`: the opening read of
/// the init status, and what the replies brought about after it.
pub open spec fn run(request: PostInitRequestView, replies: Seq<ReplyView>) -> Trace<StateView> {
    let rest = trace(whole_run(), StateView::Init(InitStageView::Status { request }), replies);
    Trace { commands: seq![CommandView::ReadInitStatus] + rest.commands, end: rest.end }
}

/// A reply to the submission of a key share after which the server is still
/// sealed: the submission failed, or the server says so.
pub open spec fn keeps_sealed(reply: ReplyView) -> bool {
    match reply {
        ReplyView::Unseal(status) => status.sealed,
        ReplyView::Failed(_) => true,
        _ => false,
    }
}

/// A reply to the submission of a key share that reports the server
/// unsealed.
pub open spec fn unseals(reply: ReplyView) -> bool {
    match reply {
        ReplyView::Unseal(status) => !status.sealed,
        _ => false,
    }
}

/// The submissions of the shares `from .. to` of `keys` to the unseal, in
/// order.
pub open spec fn unseal_submissions(keys: Seq<Seq<char>>, from: int, to: int) -> Seq<CommandView> {
    Seq::new((to - from) as nat, |i: int| unseal_request_view(keys[from + i]))
}

proof fn unseal_loop_until_unsealed(
    init: PostInitResponseView,
    next: nat,
    answers: Seq<ReplyView>,
)
    requires
        answers.len() >= 1,
        next + answers.len() - 1 <= init.keys.len(),
        forall|i: int| 0 <= i < answers.len() - 1 ==> keeps_sealed(#[trigger] answers[i]),
        unseals(answers.last()),
    ensures
        trace(unseal_phase(), UnsealStageView::Submit { init, next }, answers) == (Trace {
            commands: unseal_submissions(
                init.keys,
                next as int,
                next as int + answers.len() - 1,
            ),
            end: End::<UnsealStageView>::Done,
        }),
    decreases answers.len(),
{
    let stage = UnsealStageView::Submit { init, next };
    let got = trace(unseal_phase(), stage, answers);
    let expected = unseal_submissions(init.keys, next as int, next as int + answers.len() - 1);
    if answers.len() == 1 {
        assert(answers.first() == answers.last());
        assert(got.commands =~= expected);
    } else {
        let rest = answers.drop_first();
        assert(keeps_sealed(answers[0]));
        assert(rest.last() == answers.last());
        assert forall|i: int| 0 <= i < rest.len() - 1 implies keeps_sealed(
            #[trigger] rest[i],
        ) by {
            assert(rest[i] == answers[i + 1]);
        }
        unseal_loop_until_unsealed(init, next + 1, rest);
        assert(got.commands =~= expected);
    }
}

proof fn unseal_loop_until_exhausted(
    init: PostInitResponseView,
    next: nat,
    answers: Seq<ReplyView>,
)
    requires
        answers.len() >= 1,
        next + answers.len() - 1 == init.keys.len(),
        forall|i: int| 0 <= i < answers.len() ==> keeps_sealed(#[trigger] answers[i]),
    ensures
        trace(unseal_phase(), UnsealStageView::Submit { init, next }, answers) == (Trace {
            commands: unseal_submissions(init.keys, next as int, init.keys.len() as int),
            end: End::<UnsealStageView>::Abort(unable_to_unseal()),
        }),
    decreases answers.len(),
{
    let stage = UnsealStageView::Submit { init, next };
    let got = trace(unseal_phase(), stage, answers);
    let expected = unseal_submissions(init.keys, next as int, init.keys.len() as int);
    assert(keeps_sealed(answers[0]));
    if answers.len() == 1 {
        assert(got.commands =~= expected);
    } else {
        let rest = answers.drop_first();
        assert forall|i: int| 0 <= i < rest.len() implies keeps_sealed(#[trigger] rest[i]) by {
            assert(rest[i] == answers[i + 1]);
        }
        unseal_loop_until_exhausted(init, next + 1, rest);
        assert(got.commands =~= expected);
    }
}

/// The unseal ends with the first reply that reports the server unsealed.
///
/// On a sealed server, let `answers` be the replies to the submissions, in
/// order: each but the last leaves the server sealed, by a failure or by a
/// status that says so, and the last reports it unsealed. Then the phase
/// loads the persisted result, submits as many shares as there are answers,
/// from the first on and in the order in which they were returned, submits
/// none of the others, and ends in success.
pub proof fn unseal_ends_with_the_first_unsealed_reply(
    status: SealStatusResponseView,
    init: PostInitResponseView,
    answers: Seq<ReplyView>,
)
    requires
        status.sealed,
        1 <= answers.len() <= init.keys.len(),
        forall|i: int| 0 <= i < answers.len() - 1 ==> keeps_sealed(#[trigger] answers[i]),
        unseals(answers.last()),
    ensures
        trace(
            unseal_phase(),
            UnsealStageView::Status,
            seq![ReplyView::SealStatus(status), ReplyView::Loaded(init)] + answers,
        ) == (Trace {
            commands: seq![CommandView::LoadInit] + unseal_submissions(
                init.keys,
                0,
                answers.len() as int,
            ),
            end: End::<UnsealStageView>::Done,
        }),
{
    let replies = seq![ReplyView::SealStatus(status), ReplyView::Loaded(init)] + answers;
    let after_status = replies.drop_first();
    assert(after_status =~= seq![ReplyView::Loaded(init)] + answers);
    assert(after_status.drop_first() =~= answers);
    unseal_loop_until_unsealed(init, 1, answers);
    let got = trace(unseal_phase(), UnsealStageView::Status, replies);
    let tail = trace(unseal_phase(), UnsealStageView::Load, after_status);
    assert(tail.commands =~= unseal_submissions(init.keys, 0, answers.len() as int));
    assert(got.commands =~= seq![CommandView::LoadInit] + unseal_submissions(
        init.keys,
        0,
        answers.len() as int,
    ));
}

/// The unseal fails when the shares run out.
///
/// On a sealed server, let the reply to the submission of every share leave
/// the server sealed. Then the phase loads the persisted result, submits
/// every share once, in the order in which they were returned, and fails as
/// unable to unseal.
pub proof fn unseal_fails_when_the_shares_run_out(
    status: SealStatusResponseView,
    init: PostInitResponseView,
    answers: Seq<ReplyView>,
)
    requires
        status.sealed,
        answers.len() == init.keys.len(),
        forall|i: int| 0 <= i < answers.len() ==> keeps_sealed(#[trigger] answers[i]),
    ensures
        trace(
            unseal_phase(),
            UnsealStageView::Status,
            seq![ReplyView::SealStatus(status), ReplyView::Loaded(init)] + answers,
        ) == (Trace {
            commands: seq![CommandView::LoadInit] + unseal_submissions(
                init.keys,
                0,
                init.keys.len() as int,
            ),
            end: End::<UnsealStageView>::Abort(unable_to_unseal()),
        }),
{
    let replies = seq![ReplyView::SealStatus(status), ReplyView::Loaded(init)] + answers;
    let after_status = replies.drop_first();
    assert(after_status =~= seq![ReplyView::Loaded(init)] + answers);
    assert(after_status.drop_first() =~= answers);
    let got = trace(unseal_phase(), UnsealStageView::Status, replies);
    let tail = trace(unseal_phase(), UnsealStageView::Load, after_status);
    let all = unseal_submissions(init.keys, 0, init.keys.len() as int);
    if answers.len() == 0 {
        assert(tail.commands =~= all);
    } else {
        unseal_loop_until_exhausted(init, 1, answers);
        assert(tail.commands =~= all);
    }
    assert(got.commands =~= seq![CommandView::LoadInit] + all);
}

/// A failed submission does not end the unseal: while a share is left, the
/// next one is submitted, whatever the cause of the failure.
pub proof fn a_failed_submission_leads_to_the_next_share(
    init: PostInitResponseView,
    next: nat,
    cause: Seq<char>,
)
    requires
        next < init.keys.len(),
    ensures
        load_and_unseal_model(UnsealStageView::Submit { init, next }, ReplyView::Failed(cause))
            == ProgressView::Next(
            unseal_request_view(init.keys[next as int]),
            UnsealStageView::Submit { init, next: next + 1 },
        ),
{
}

/// A reply to the submission of a key share after which the root generation
/// attempt is not complete: the submission failed, or the server says so.
pub open spec fn keeps_incomplete(reply: ReplyView) -> bool {
    match reply {
        ReplyView::GenerateRootUpdated(attempt) => !attempt.complete,
        ReplyView::Failed(_) => true,
        _ => false,
    }
}

/// A reply to the submission of a key share that reports the root generation
/// attempt complete.
pub open spec fn completes(reply: ReplyView) -> bool {
    match reply {
        ReplyView::GenerateRootUpdated(attempt) => attempt.complete,
        _ => false,
    }
}

/// The submissions of the shares `from .. to` of `keys` to the attempt
/// `nonce`, in order.
pub open spec fn rotate_submissions(keys: Seq<Seq<char>>, nonce: Seq<char>, from: int, to: int)
    -> Seq<CommandView> {
    Seq::new((to - from) as nat, |i: int| rotate_request_view(keys[from + i], nonce))
}

proof fn rotate_loop_until_complete(
    init: PostInitResponseView,
    nonce: Seq<char>,
    otp: Seq<char>,
    next: nat,
    answers: Seq<ReplyView>,
)
    requires
        answers.len() >= 1,
        next + answers.len() - 1 <= init.keys.len(),
        forall|i: int| 0 <= i < answers.len() - 1 ==> keeps_incomplete(#[trigger] answers[i]),
        completes(answers.last()),
    ensures
        trace(
            rotate_phase(),
            RotateStageView::Submit { init, nonce, otp, next },
            answers + seq![ReplyView::Revoked],
        ) == (Trace {
            commands: rotate_submissions(
                init.keys,
                nonce,
                next as int,
                next as int + answers.len() - 1,
            ) + seq![CommandView::RevokeSelf(init.root_token)],
            end: End::<RotateStageView>::Done,
        }),
    decreases answers.len(),
{
    let stage = RotateStageView::Submit { init, nonce, otp, next };
    let replies = answers + seq![ReplyView::Revoked];
    let got = trace(rotate_phase(), stage, replies);
    let expected = rotate_submissions(
        init.keys,
        nonce,
        next as int,
        next as int + answers.len() - 1,
    ) + seq![CommandView::RevokeSelf(init.root_token)];
    assert(replies.first() == answers[0]);
    if answers.len() == 1 {
        assert(answers.first() == answers.last());
        assert(replies.drop_first() =~= seq![ReplyView::Revoked]);
        let tail = trace(rotate_phase(), RotateStageView::Revoke, replies.drop_first());
        assert(tail.commands =~= Seq::<CommandView>::empty());
        assert(got.commands =~= expected);
    } else {
        let rest = answers.drop_first();
        assert(keeps_incomplete(answers[0]));
        assert(rest.last() == answers.last());
        assert forall|i: int| 0 <= i < rest.len() - 1 implies keeps_incomplete(
            #[trigger] rest[i],
        ) by {
            assert(rest[i] == answers[i + 1]);
        }
        assert(replies.drop_first() =~= rest + seq![ReplyView::Revoked]);
        rotate_loop_until_complete(init, nonce, otp, next + 1, rest);
        assert(got.commands =~= expected);
    }
}

proof fn rotate_loop_until_exhausted(
    init: PostInitResponseView,
    nonce: Seq<char>,
    otp: Seq<char>,
    next: nat,
    answers: Seq<ReplyView>,
)
    requires
        answers.len() >= 1,
        next + answers.len() - 1 == init.keys.len(),
        forall|i: int| 0 <= i < answers.len() ==> keeps_incomplete(#[trigger] answers[i]),
    ensures
        trace(rotate_phase(), RotateStageView::Submit { init, nonce, otp, next }, answers) == (
        Trace {
            commands: rotate_submissions(init.keys, nonce, next as int, init.keys.len() as int),
            end: End::<RotateStageView>::Abort(unable_to_rotate()),
        }),
    decreases answers.len(),
{
    let stage = RotateStageView::Submit { init, nonce, otp, next };
    let got = trace(rotate_phase(), stage, answers);
    let expected = rotate_submissions(init.keys, nonce, next as int, init.keys.len() as int);
    assert(keeps_incomplete(answers[0]));
    if answers.len() == 1 {
        assert(got.commands =~= expected);
    } else {
        let rest = answers.drop_first();
        assert forall|i: int| 0 <= i < rest.len() implies keeps_incomplete(
            #[trigger] rest[i],
        ) by {
            assert(rest[i] == answers[i + 1]);
        }
        rotate_loop_until_exhausted(init, nonce, otp, next + 1, rest);
        assert(got.commands =~= expected);
    }
}

/// The rotation ends with the revocation of the previous root token, after
/// the first reply that reports the attempt complete.
///
/// Let no attempt be in progress, and let `answers` be the replies to the
/// submissions, in order: each but the last leaves the new attempt
/// incomplete, by a failure or by a status that says so, and the last
/// reports it complete. Then the phase loads the persisted result, starts an
/// attempt without a PGP key, submits as many shares as there are answers,
/// from the first on and in the order in which they were returned, each with
/// the nonce that the start returned, submits none of the others, and
/// revokes the root token of the persisted result. Once that is revoked the
/// phase ends in success.
pub proof fn rotation_revokes_after_the_first_complete_reply(
    status: GetGenerateRootAttemptResponseView,
    init: PostInitResponseView,
    attempt: PostGenerateRootAttemptResponseView,
    answers: Seq<ReplyView>,
)
    requires
        !status.started,
        1 <= answers.len() <= init.keys.len(),
        forall|i: int| 0 <= i < answers.len() - 1 ==> keeps_incomplete(#[trigger] answers[i]),
        completes(answers.last()),
    ensures
        trace(
            rotate_phase(),
            RotateStageView::Check,
            seq![
                ReplyView::GenerateRootStatus(status),
                ReplyView::Loaded(init),
                ReplyView::GenerateRootStarted(attempt),
            ] + answers + seq![ReplyView::Revoked],
        ) == (Trace {
            commands: seq![CommandView::LoadInit, start_attempt_view()] + rotate_submissions(
                init.keys,
                attempt.nonce,
                0,
                answers.len() as int,
            ) + seq![CommandView::RevokeSelf(init.root_token)],
            end: End::<RotateStageView>::Done,
        }),
{
    let replies = seq![
        ReplyView::GenerateRootStatus(status),
        ReplyView::Loaded(init),
        ReplyView::GenerateRootStarted(attempt),
    ] + answers + seq![ReplyView::Revoked];
    let after_check = replies.drop_first();
    let after_load = after_check.drop_first();
    let after_start = after_load.drop_first();
    assert(after_check =~= seq![ReplyView::Loaded(init), ReplyView::GenerateRootStarted(attempt)]
        + answers + seq![ReplyView::Revoked]);
    assert(after_load =~= seq![ReplyView::GenerateRootStarted(attempt)] + answers
        + seq![ReplyView::Revoked]);
    assert(after_start =~= answers + seq![ReplyView::Revoked]);
    rotate_loop_until_complete(init, attempt.nonce, attempt.otp, 1, answers);
    let revoke = seq![CommandView::RevokeSelf(init.root_token)];
    let shares = rotate_submissions(init.keys, attempt.nonce, 0, answers.len() as int);
    let from_start = trace(rotate_phase(), RotateStageView::Start { init }, after_load);
    assert(from_start.commands =~= shares + revoke);
    let from_load = trace(rotate_phase(), RotateStageView::Load, after_check);
    assert(from_load.commands =~= seq![start_attempt_view()] + shares + revoke);
    let got = trace(rotate_phase(), RotateStageView::Check, replies);
    assert(got.commands =~= seq![CommandView::LoadInit, start_attempt_view()] + shares + revoke);
}

/// The rotation fails when the shares run out.
///
/// Let no attempt be in progress, and let the reply to the submission of
/// every share leave the new attempt incomplete. Then the phase loads the
/// persisted result, starts an attempt, submits every share once, in the
/// order in which they were returned, revokes nothing, and fails.
pub proof fn rotation_fails_when_the_shares_run_out(
    status: GetGenerateRootAttemptResponseView,
    init: PostInitResponseView,
    attempt: PostGenerateRootAttemptResponseView,
    answers: Seq<ReplyView>,
)
    requires
        !status.started,
        answers.len() == init.keys.len(),
        forall|i: int| 0 <= i < answers.len() ==> keeps_incomplete(#[trigger] answers[i]),
    ensures
        trace(
            rotate_phase(),
            RotateStageView::Check,
            seq![
                ReplyView::GenerateRootStatus(status),
                ReplyView::Loaded(init),
                ReplyView::GenerateRootStarted(attempt),
            ] + answers,
        ) == (Trace {
            commands: seq![CommandView::LoadInit, start_attempt_view()] + rotate_submissions(
                init.keys,
                attempt.nonce,
                0,
                init.keys.len() as int,
            ),
            end: End::<RotateStageView>::Abort(unable_to_rotate()),
        }),
{
    let replies = seq![
        ReplyView::GenerateRootStatus(status),
        ReplyView::Loaded(init),
        ReplyView::GenerateRootStarted(attempt),
    ] + answers;
    let after_check = replies.drop_first();
    let after_load = after_check.drop_first();
    let after_start = after_load.drop_first();
    assert(after_check =~= seq![ReplyView::Loaded(init), ReplyView::GenerateRootStarted(attempt)]
        + answers);
    assert(after_load =~= seq![ReplyView::GenerateRootStarted(attempt)] + answers);
    assert(after_start =~= answers);
    let shares = rotate_submissions(init.keys, attempt.nonce, 0, init.keys.len() as int);
    let from_start = trace(rotate_phase(), RotateStageView::Start { init }, after_load);
    if answers.len() == 0 {
        assert(from_start.commands =~= shares);
    } else {
        rotate_loop_until_exhausted(init, attempt.nonce, attempt.otp, 1, answers);
        assert(from_start.commands =~= shares);
    }
    let from_load = trace(rotate_phase(), RotateStageView::Load, after_check);
    assert(from_load.commands =~= seq![start_attempt_view()] + shares);
    let got = trace(rotate_phase(), RotateStageView::Check, replies);
    assert(got.commands =~= seq![CommandView::LoadInit, start_attempt_view()] + shares);
}

/// An attempt that is already in progress is left alone.
///
/// Where the read of the root generation attempt reports one as started, the
/// rotation fails at once: whatever replies follow, it issues no command, and
/// so neither loads the persisted result nor starts an attempt.
pub proof fn rotation_leaves_an_attempt_in_progress_alone(
    status: GetGenerateRootAttemptResponseView,
    later: Seq<ReplyView>,
)
    requires
        status.started,
    ensures
        rotate_root_model(RotateStageView::Check, ReplyView::GenerateRootStatus(status))
            == ProgressView::<RotateStageView>::Abort(attempt_in_progress()),
        trace(
            rotate_phase(),
            RotateStageView::Check,
            seq![ReplyView::GenerateRootStatus(status)] + later,
        ) == (Trace {
            commands: Seq::<CommandView>::empty(),
            end: End::<RotateStageView>::Abort(attempt_in_progress()),
        }),
{
    let replies = seq![ReplyView::GenerateRootStatus(status)] + later;
    assert(replies.first() == ReplyView::GenerateRootStatus(status));
}

/// The first two phases only read a server that is initialized and
/// unsealed.
///
/// Where the init status reports the server initialized and the seal status
/// reports it unsealed, the initialization ends on the first reply and the
/// unseal on the second. Up to there the run has issued the two status
/// reads and nothing else. It then stands at the opening of the rotation,
/// whose first command, the read of the root generation attempt, changes
/// nothing either.
pub proof fn an_initialized_and_unsealed_server_is_only_read(
    request: PostInitRequestView,
    init_status: GetInitResponse,
    seal_status: SealStatusResponseView,
)
    requires
        init_status.initialized,
        !seal_status.sealed,
    ensures
        init_and_save_model(
            InitStageView::Status { request },
            ReplyView::InitStatus(init_status),
        ) == ProgressView::<InitStageView>::Done,
        load_and_unseal_model(UnsealStageView::Status, ReplyView::SealStatus(seal_status))
            == ProgressView::<UnsealStageView>::Done,
        run(request, seq![ReplyView::InitStatus(init_status), ReplyView::SealStatus(seal_status)])
            == (Trace {
            commands: seq![
                CommandView::ReadInitStatus,
                CommandView::GetSealStatus,
                CommandView::GetGenerateRootAttempt,
            ],
            end: End::Waiting(StateView::Rotate(RotateStageView::Check)),
        }),
        !Operation::ReadInitStatus.mutating(),
        !Operation::GetSealStatus.mutating(),
        !Operation::GetGenerateRootAttempt.mutating(),
{
    let replies = seq![ReplyView::InitStatus(init_status), ReplyView::SealStatus(seal_status)];
    let first = StateView::Init(InitStageView::Status { request });
    let second = StateView::Unseal(UnsealStageView::Status);
    let third = StateView::Rotate(RotateStageView::Check);
    let after_first = replies.drop_first();
    assert(after_first =~= seq![ReplyView::SealStatus(seal_status)]);
    assert(after_first.drop_first() =~= Seq::<ReplyView>::empty());
    let last = trace(whole_run(), third, after_first.drop_first());
    assert(last.commands =~= Seq::<CommandView>::empty());
    let middle = trace(whole_run(), second, after_first);
    assert(middle.commands =~= seq![CommandView::GetGenerateRootAttempt]);
    let whole = trace(whole_run(), first, replies);
    assert(whole.commands =~= seq![
        CommandView::GetSealStatus,
        CommandView::GetGenerateRootAttempt,
    ]);
    assert(run(request, replies).commands =~= seq![
        CommandView::ReadInitStatus,
        CommandView::GetSealStatus,
        CommandView::GetGenerateRootAttempt,
    ]);
}

/// Every command is awaited in the stage that it is issued with: the stage
/// awaits the reply to an operation of the command's kind. This holds of the
/// opening of a run and of every step.
pub proof fn every_command_is_awaited(
    request: PostInitRequestView,
    state: StateView,
    reply: ReplyView,
)
    ensures
        start_model(request) matches ProgressView::Next(command, next)
            && next.outstanding() == command.operation(),
        advance_model(state, reply) matches ProgressView::Next(command, next)
            ==> next.outstanding() == command.operation(),
{
}

/// A run moves through the phases in order and never back.
pub proof fn phases_are_not_revisited(state: StateView, reply: ReplyView)
    ensures
        advance_model(state, reply) matches ProgressView::Next(_, next) ==> match state.phase() {
            Phase::Init => next.phase() == Phase::Init || next.phase() == Phase::Unseal,
            Phase::Unseal => next.phase() == Phase::Unseal || next.phase() == Phase::RotateRoot,
            Phase::RotateRoot => next.phase() == Phase::RotateRoot,
        },
{
}

/// A failed operation is fatal, unless it is the submission of a key share.
///
/// Where the reply reports the failure of the outstanding operation, and
/// that operation is not the submission of a share, the run ends with a
/// failure that names the phase, the operation and the cause.
pub proof fn a_failed_operation_is_fatal(state: StateView, cause: Seq<char>)
    requires
        !state.submitting(),
    ensures
        advance_model(state, ReplyView::Failed(cause)) == ProgressView::<StateView>::Abort(
            failed_view(state.phase(), state.outstanding(), cause),
        ),
{
}

/// Every failure names the phase in which it arose; where it is the failure
/// of an operation or a reply out of turn, it names the operation that was
/// outstanding.
pub proof fn a_failure_names_phase_and_operation(state: StateView, reply: ReplyView)
    ensures
        advance_model(state, reply) matches ProgressView::Abort(failure) ==> {
            &&& failure.phase == state.phase()
            &&& failure.reason is Failed || failure.reason is Unexpected ==> failure.operation
                == state.outstanding()
            &&& failure.reason matches ReasonView::Failed(cause) ==> reply == ReplyView::Failed(
                cause,
            )
        },
{
}

/// A server that is not initialized is initialized, and the result is
/// persisted at once and as it came.
///
/// Where the init status reports the server uninitialized, the phase
/// initializes it with the request of the run, hands the result of the
/// initialization to the persistence backends unchanged, and ends once they
/// have saved.
pub proof fn initialization_persists_its_result(
    request: PostInitRequestView,
    status: GetInitResponse,
    data: PostInitResponseView,
)
    requires
        !status.initialized,
    ensures
        trace(
            init_phase(),
            InitStageView::Status { request },
            seq![ReplyView::InitStatus(status), ReplyView::Initialized(data), ReplyView::Saved],
        ) == (Trace {
            commands: seq![CommandView::StartInit(request), CommandView::SaveInit(data)],
            end: End::<InitStageView>::Done,
        }),
{
    reveal_with_fuel(trace, 4);
    let replies = seq![
        ReplyView::InitStatus(status),
        ReplyView::Initialized(data),
        ReplyView::Saved,
    ];
    let after_status = replies.drop_first();
    assert(after_status =~= seq![ReplyView::Initialized(data), ReplyView::Saved]);
    assert(after_status.drop_first() =~= seq![ReplyView::Saved]);
    assert(after_status.drop_first().drop_first() =~= Seq::<ReplyView>::empty());
    let got = trace(init_phase(), InitStageView::Status { request }, replies);
    assert(got.commands =~= seq![CommandView::StartInit(request), CommandView::SaveInit(data)]);
}

/// The number of replies that a phase or a run looks at before it ends: all
/// of them where it does not end.
pub open spec fn consumed<S>(
    step: spec_fn(S, ReplyView) -> ProgressView<S>,
    stage: S,
    replies: Seq<ReplyView>,
) -> nat
    decreases replies.len(),
{
    if replies.len() == 0 {
        0
    } else {
        match step(stage, replies.first()) {
            ProgressView::Next(_, next) => 1 + consumed(step, next, replies.drop_first()),
            _ => 1,
        }
    }
}

proof fn consumed_is_bounded<S>(
    step: spec_fn(S, ReplyView) -> ProgressView<S>,
    stage: S,
    replies: Seq<ReplyView>,
)
    ensures
        consumed(step, stage, replies) <= replies.len(),
    decreases replies.len(),
{
    if replies.len() > 0 {
        if let ProgressView::Next(_, next) = step(stage, replies.first()) {
            consumed_is_bounded(step, next, replies.drop_first());
        }
    }
}

/// A run goes through the initialization, and on to the unseal.
///
/// While the initialization lasts, a run issues the commands of the
/// initialization. Where the initialization fails, the run fails with it.
/// Where it ends, the run reads the seal status and goes on as the unseal
/// does, with the replies that the initialization has not looked at.
pub proof fn a_run_goes_through_the_initialization(
    stage: InitStageView,
    replies: Seq<ReplyView>,
)
    ensures
        ({
            let phase = trace(init_phase(), stage, replies);
            let whole = trace(whole_run(), StateView::Init(stage), replies);
            match phase.end {
                End::Waiting(next) => whole == (Trace {
                    commands: phase.commands,
                    end: End::Waiting(StateView::Init(next)),
                }),
                End::Abort(failure) => whole == (Trace {
                    commands: phase.commands,
                    end: End::<StateView>::Abort(failure),
                }),
                End::Done => {
                    let rest = trace(
                        whole_run(),
                        StateView::Unseal(UnsealStageView::Status),
                        replies.skip(consumed(init_phase(), stage, replies) as int),
                    );
                    whole == (Trace {
                        commands: phase.commands + seq![CommandView::GetSealStatus]
                            + rest.commands,
                        end: rest.end,
                    })
                },
            }
        }),
    decreases replies.len(),
{
    let phase = trace(init_phase(), stage, replies);
    let whole = trace(whole_run(), StateView::Init(stage), replies);
    if replies.len() > 0 {
        let tail = replies.drop_first();
        match init_and_save_model(stage, replies.first()) {
            ProgressView::Next(command, next) => {
                a_run_goes_through_the_initialization(next, tail);
                consumed_is_bounded(init_phase(), next, tail);
                let used = consumed(init_phase(), next, tail);
                assert(tail.skip(used as int) =~= replies.skip(used as int + 1));
                let inner = trace(init_phase(), next, tail);
                if inner.end is Done {
                    let rest = trace(
                        whole_run(),
                        StateView::Unseal(UnsealStageView::Status),
                        replies.skip(used as int + 1),
                    );
                    assert(whole.commands =~= phase.commands + seq![CommandView::GetSealStatus]
                        + rest.commands);
                }
            },
            ProgressView::Done => {
                assert(replies.skip(1) =~= tail);
                let rest = trace(whole_run(), StateView::Unseal(UnsealStageView::Status), tail);
                assert(whole.commands =~= phase.commands + seq![CommandView::GetSealStatus]
                    + rest.commands);
            },
            ProgressView::Abort(_) => {},
        }
    }
}

/// A run goes through the unseal, and on to the rotation.
///
/// While the unseal lasts, a run issues the commands of the unseal. Where
/// the unseal fails, the run fails with it. Where it ends, the run reads the
/// root generation attempt and goes on as the rotation does, with the
/// replies that the unseal has not looked at.
pub proof fn a_run_goes_through_the_unseal(stage: UnsealStageView, replies: Seq<ReplyView>)
    ensures
        ({
            let phase = trace(unseal_phase(), stage, replies);
            let whole = trace(whole_run(), StateView::Unseal(stage), replies);
            match phase.end {
                End::Waiting(next) => whole == (Trace {
                    commands: phase.commands,
                    end: End::Waiting(StateView::Unseal(next)),
                }),
                End::Abort(failure) => whole == (Trace {
                    commands: phase.commands,
                    end: End::<StateView>::Abort(failure),
                }),
                End::Done => {
                    let rest = trace(
                        whole_run(),
                        StateView::Rotate(RotateStageView::Check),
                        replies.skip(consumed(unseal_phase(), stage, replies) as int),
                    );
                    whole == (Trace {
                        commands: phase.commands + seq![CommandView::GetGenerateRootAttempt]
                            + rest.commands,
                        end: rest.end,
                    })
                },
            }
        }),
    decreases replies.len(),
{
    let phase = trace(unseal_phase(), stage, replies);
    let whole = trace(whole_run(), StateView::Unseal(stage), replies);
    if replies.len() > 0 {
        let tail = replies.drop_first();
        match load_and_unseal_model(stage, replies.first()) {
            ProgressView::Next(command, next) => {
                a_run_goes_through_the_unseal(next, tail);
                consumed_is_bounded(unseal_phase(), next, tail);
                let used = consumed(unseal_phase(), next, tail);
                assert(tail.skip(used as int) =~= replies.skip(used as int + 1));
                let inner = trace(unseal_phase(), next, tail);
                if inner.end is Done {
                    let rest = trace(
                        whole_run(),
                        StateView::Rotate(RotateStageView::Check),
                        replies.skip(used as int + 1),
                    );
                    assert(whole.commands =~= phase.commands
                        + seq![CommandView::GetGenerateRootAttempt] + rest.commands);
                }
            },
            ProgressView::Done => {
                assert(replies.skip(1) =~= tail);
                let rest = trace(whole_run(), StateView::Rotate(RotateStageView::Check), tail);
                assert(whole.commands =~= phase.commands
                    + seq![CommandView::GetGenerateRootAttempt] + rest.commands);
            },
            ProgressView::Abort(_) => {},
        }
    }
}

/// A run ends with the rotation: from the opening of the rotation on, a run
/// issues the commands of the rotation and ends as the rotation does.
pub proof fn a_run_ends_with_the_rotation(stage: RotateStageView, replies: Seq<ReplyView>)
    ensures
        ({
            let phase = trace(rotate_phase(), stage, replies);
            let whole = trace(whole_run(), StateView::Rotate(stage), replies);
            &&& whole.commands == phase.commands
            &&& whole.end == match phase.end {
                End::Waiting(next) => End::Waiting(StateView::Rotate(next)),
                End::Done => End::Done,
                End::Abort(failure) => End::Abort(failure),
            }
        }),
    decreases replies.len(),
{
    if replies.len() > 0 {
        if let ProgressView::Next(_, next) = rotate_root_model(stage, replies.first()) {
            a_run_ends_with_the_rotation(next, replies.drop_first());
        }
    }
}

} // verus!
