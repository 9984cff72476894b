//! What an aggregate save or load does over a whole sequence of replies.
use vstd::prelude::*;

use crate::config::LoadStage;
use crate::config::LoadStepView;
use crate::config::SaveMethod;
use crate::config::SaveStage;
use crate::config::SaveStepView;
use crate::save::Backend;
use crate::save::File;
use crate::save::KubeSecret;
use crate::save::Load;
use crate::save::LoadErrorView;
use crate::save::Save;
use crate::save::SaveErrorView;
use crate::save::StoreCommandView;
use crate::save::StoreReplyView;
use crate::vault::models::sys::init::PostInitResponseView;

verus! {

/// How a sequence of replies leaves a save.
pub enum SaveEnd {
    /// The replies ran out: a command is outstanding in the given stage.
    Waiting(SaveStage),
    /// Every configured backend has saved.
    Done,
    /// A backend failed.
    Abort(SaveErrorView),
}

/// The commands of a save, in order, and how it ended.
pub struct SaveTrace {
    pub commands: Seq<StoreCommandView>,
    pub end: SaveEnd,
}

/// The trace of a save of `data` that stands at `step` and is handed
/// `replies` one by one. Replies that arrive after the end are not looked
/// at.
pub open spec fn save_trace_from(
    method: SaveMethod,
    data: PostInitResponseView,
    step: SaveStepView,
    replies: Seq<StoreReplyView>,
) -> SaveTrace
    decreases replies.len(),
{
    match step {
        SaveStepView::Next(command, stage) => if replies.len() == 0 {
            SaveTrace { commands: seq![command], end: SaveEnd::Waiting(stage) }
        } else {
            let rest = save_trace_from(
                method,
                data,
                method.resume_save_model(data, stage, replies.first()),
                replies.drop_first(),
            );
            SaveTrace { commands: seq![command] + rest.commands, end: rest.end }
        },
        SaveStepView::Done => SaveTrace { commands: Seq::empty(), end: SaveEnd::Done },
        SaveStepView::Abort(error) => SaveTrace {
            commands: Seq::empty(),
            end: SaveEnd::Abort(error),
        },
    }
}

/// The trace of a whole save of `data`.
pub open spec fn save_trace(
    method: SaveMethod,
    data: PostInitResponseView,
    replies: Seq<StoreReplyView>,
) -> SaveTrace {
    save_trace_from(method, data, method.save_init_all_model(), replies)
}

/// How a sequence of replies leaves a load.
pub enum LoadEnd {
    /// The replies ran out: a command is outstanding in the given stage.
    Waiting(LoadStage),
    /// A backend supplied the result.
    Done(PostInitResponseView),
    /// No backend could supply the result.
    Abort(LoadErrorView),
}

/// The commands of a load, in order, and how it ended.
pub struct LoadTrace {
    pub commands: Seq<StoreCommandView>,
    pub end: LoadEnd,
}

/// The trace of a load that stands at `step` and is handed `replies` one by
/// one. Replies that arrive after the end are not looked at.
pub open spec fn load_trace_from(
    method: SaveMethod,
    step: LoadStepView,
    replies: Seq<StoreReplyView>,
) -> LoadTrace
    decreases replies.len(),
{
    match step {
        LoadStepView::Next(command, stage) => if replies.len() == 0 {
            LoadTrace { commands: seq![command], end: LoadEnd::Waiting(stage) }
        } else {
            let rest = load_trace_from(
                method,
                method.resume_load_model(stage, replies.first()),
                replies.drop_first(),
            );
            LoadTrace { commands: seq![command] + rest.commands, end: rest.end }
        },
        LoadStepView::Done(data) => LoadTrace { commands: Seq::empty(), end: LoadEnd::Done(data) },
        LoadStepView::Abort(error) => LoadTrace {
            commands: Seq::empty(),
            end: LoadEnd::Abort(error),
        },
    }
}

/// The trace of a whole load.
pub open spec fn load_trace(method: SaveMethod, replies: Seq<StoreReplyView>) -> LoadTrace {
    load_trace_from(method, method.load_init_all_model(), replies)
}

/// A file backend that refuses ends the save, and the cluster secret is
/// never attempted.
///
/// Let the file backend be configured, and let it refuse the save on what
/// its lookup found: a regular file without leave to overwrite, or a lookup
/// that failed. Then the save issues the lookup of the file and nothing
/// else, whatever replies follow and whether or not the cluster secret is
/// configured, and ends with the error of the file backend.
pub proof fn a_refused_file_save_ends_the_save(
    method: SaveMethod,
    data: PostInitResponseView,
    found: StoreReplyView,
    later: Seq<StoreReplyView>,
)
    requires
        method.file is Some,
        method.file->0.save_init_model(data, found) is Err,
    ensures
        save_trace(method, data, seq![found] + later) == (SaveTrace {
            commands: seq![StoreCommandView::ProbeFile { path: method.file->0@.target() }],
            end: SaveEnd::Abort(method.file->0.save_init_model(data, found)->Err_0),
        }),
{
    reveal_with_fuel(save_trace_from, 5);
    let replies = seq![found] + later;
    assert(replies.first() == found);
    let got = save_trace(method, data, replies);
    assert(got.commands =~= seq![
        StoreCommandView::ProbeFile { path: method.file->0@.target() },
    ]);
}

/// A file backend whose write fails ends the save, and the cluster secret is
/// never attempted.
///
/// Let the file backend be configured, let it decide to write, and let the
/// write not be reported as done. Then the save issues the lookup and the
/// write of the file and nothing else, whatever replies follow and whether
/// or not the cluster secret is configured, and ends in failure.
pub proof fn a_failed_file_write_ends_the_save(
    method: SaveMethod,
    data: PostInitResponseView,
    found: StoreReplyView,
    written: StoreReplyView,
    later: Seq<StoreReplyView>,
)
    requires
        method.file is Some,
        method.file->0.save_init_model(data, found) is Ok,
        written != StoreReplyView::Written,
    ensures
        save_trace(method, data, seq![found, written] + later).commands == seq![
            StoreCommandView::ProbeFile { path: method.file->0@.target() },
            StoreCommandView::WriteFile { path: method.file->0@.target(), data },
        ],
        save_trace(method, data, seq![found, written] + later).end == SaveEnd::Abort(
            match written {
                StoreReplyView::Failed(cause) => SaveErrorView::Failed(cause),
                _ => SaveErrorView::Unexpected,
            },
        ),
{
    reveal_with_fuel(save_trace_from, 5);
    let replies = seq![found, written] + later;
    assert(replies.first() == found);
    let after = replies.drop_first();
    assert(after.first() == written);
    let got = save_trace(method, data, replies);
    assert(got.commands =~= seq![
        StoreCommandView::ProbeFile { path: method.file->0@.target() },
        StoreCommandView::WriteFile { path: method.file->0@.target(), data },
    ]);
}

/// A save goes through both backends in order.
///
/// Let both backends be configured, and let each decide to write and report
/// its write as done. Then the save issues the lookup and the write of the
/// file, then the lookup and the write of the cluster secret, and is done.
pub proof fn a_save_goes_through_both_backends(
    method: SaveMethod,
    data: PostInitResponseView,
    file_found: StoreReplyView,
    secret_found: StoreReplyView,
)
    requires
        method.file is Some,
        method.kube_secret is Some,
        method.file->0.save_init_model(data, file_found) is Ok,
        method.kube_secret->0.save_init_model(data, secret_found) is Ok,
    ensures
        save_trace(
            method,
            data,
            seq![file_found, StoreReplyView::Written, secret_found, StoreReplyView::Written],
        ) == (SaveTrace {
            commands: seq![
                method.file->0.save_lookup_model(),
                method.file->0.save_init_model(data, file_found)->Ok_0,
                method.kube_secret->0.save_lookup_model(),
                method.kube_secret->0.save_init_model(data, secret_found)->Ok_0,
            ],
            end: SaveEnd::Done,
        }),
{
    reveal_with_fuel(save_trace_from, 5);
    let replies = seq![
        file_found,
        StoreReplyView::Written,
        secret_found,
        StoreReplyView::Written,
    ];
    let r1 = replies.drop_first();
    let r2 = r1.drop_first();
    let r3 = r2.drop_first();
    assert(r1 =~= seq![StoreReplyView::Written, secret_found, StoreReplyView::Written]);
    assert(r2 =~= seq![secret_found, StoreReplyView::Written]);
    assert(r3 =~= seq![StoreReplyView::Written]);
    assert(r3.drop_first() =~= Seq::<StoreReplyView>::empty());
    let file = method.file->0;
    let secret = method.kube_secret->0;
    let s1 = method.resume_save_model(data, SaveStage::Lookup(Backend::File), file_found);
    let s2 = method.resume_save_model(data, SaveStage::Write(Backend::File), r1.first());
    let s3 = method.resume_save_model(data, SaveStage::Lookup(Backend::KubeSecret), r2.first());
    let s4 = method.resume_save_model(data, SaveStage::Write(Backend::KubeSecret), r3.first());
    let t4 = save_trace_from(method, data, s4, r3.drop_first());
    assert(t4.commands =~= Seq::<StoreCommandView>::empty());
    let t3 = save_trace_from(method, data, s3, r3);
    assert(t3.commands =~= seq![secret.save_init_model(data, secret_found)->Ok_0]);
    let t2 = save_trace_from(method, data, s2, r2);
    assert(t2.commands =~= seq![
        secret.save_lookup_model(),
        secret.save_init_model(data, secret_found)->Ok_0,
    ]);
    let t1 = save_trace_from(method, data, s1, r1);
    assert(t1.commands =~= seq![
        file.save_init_model(data, file_found)->Ok_0,
        secret.save_lookup_model(),
        secret.save_init_model(data, secret_found)->Ok_0,
    ]);
    let got = save_trace(method, data, replies);
    assert(got.commands =~= seq![
        file.save_lookup_model(),
        file.save_init_model(data, file_found)->Ok_0,
        secret.save_lookup_model(),
        secret.save_init_model(data, secret_found)->Ok_0,
    ]);
}

/// A load passes over a file that cannot be fetched.
///
/// Let the file backend be configured, and let it have no document to
/// decode from what its fetch found. Then the load goes on as a load from
/// the cluster secret alone would.
pub proof fn a_load_passes_over_a_file_that_cannot_be_fetched(
    method: SaveMethod,
    found: StoreReplyView,
    later: Seq<StoreReplyView>,
)
    requires
        method.file is Some,
        method.file->0.load_init_model(found) is Err,
    ensures
        load_trace(method, seq![found] + later).commands == seq![
            method.file->0.load_lookup_model(),
        ] + load_trace_from(method, method.load_kube_secret_model(), later).commands,
        load_trace(method, seq![found] + later).end == load_trace_from(
            method,
            method.load_kube_secret_model(),
            later,
        ).end,
{
    reveal_with_fuel(load_trace_from, 5);
    let replies = seq![found] + later;
    assert(replies.first() == found);
    assert(replies.drop_first() =~= later);
}

/// A load passes over a file that does not decode.
///
/// Let the file backend be configured, let its fetch yield a document, and
/// let the decoding of that document not yield a result. Then the load goes
/// on as a load from the cluster secret alone would.
pub proof fn a_load_passes_over_a_file_that_does_not_decode(
    method: SaveMethod,
    found: StoreReplyView,
    decoded: StoreReplyView,
    later: Seq<StoreReplyView>,
)
    requires
        method.file is Some,
        method.file->0.load_init_model(found) is Ok,
        !(decoded is Decoded),
    ensures
        load_trace(method, seq![found, decoded] + later).commands == seq![
            method.file->0.load_lookup_model(),
            method.file->0.load_init_model(found)->Ok_0,
        ] + load_trace_from(method, method.load_kube_secret_model(), later).commands,
        load_trace(method, seq![found, decoded] + later).end == load_trace_from(
            method,
            method.load_kube_secret_model(),
            later,
        ).end,
{
    reveal_with_fuel(load_trace_from, 5);
    let replies = seq![found, decoded] + later;
    assert(replies.first() == found);
    let after = replies.drop_first();
    assert(after.first() == decoded);
    assert(after.drop_first() =~= later);
    let tail = load_trace_from(method, method.load_kube_secret_model(), later);
    let got = load_trace(method, replies);
    assert(got.commands =~= seq![
        method.file->0.load_lookup_model(),
        method.file->0.load_init_model(found)->Ok_0,
    ] + tail.commands);
}

/// The first backend that succeeds supplies the result.
///
/// Let the file backend be configured, let its fetch yield a document, and
/// let the decoding yield `data`. Then the load issues the fetch and the
/// decoding of the file and nothing else, and returns `data`: the cluster
/// secret is not attempted.
pub proof fn a_load_returns_what_the_file_supplies(
    method: SaveMethod,
    found: StoreReplyView,
    data: PostInitResponseView,
    later: Seq<StoreReplyView>,
)
    requires
        method.file is Some,
        method.file->0.load_init_model(found) is Ok,
    ensures
        load_trace(method, seq![found, StoreReplyView::Decoded(data)] + later) == (LoadTrace {
            commands: seq![
                method.file->0.load_lookup_model(),
                method.file->0.load_init_model(found)->Ok_0,
            ],
            end: LoadEnd::Done(data),
        }),
{
    reveal_with_fuel(load_trace_from, 5);
    let replies = seq![found, StoreReplyView::Decoded(data)] + later;
    assert(replies.first() == found);
    let after = replies.drop_first();
    assert(after.first() == StoreReplyView::Decoded(data));
    let got = load_trace(method, replies);
    assert(got.commands =~= seq![
        method.file->0.load_lookup_model(),
        method.file->0.load_init_model(found)->Ok_0,
    ]);
}

/// A load from the cluster secret alone returns what the secret supplies.
pub proof fn a_load_returns_what_the_secret_supplies(
    method: SaveMethod,
    found: StoreReplyView,
    data: PostInitResponseView,
)
    requires
        method.kube_secret is Some,
        method.kube_secret->0.load_init_model(found) is Ok,
    ensures
        load_trace_from(
            method,
            method.load_kube_secret_model(),
            seq![found, StoreReplyView::Decoded(data)],
        ) == (LoadTrace {
            commands: seq![
                method.kube_secret->0.load_lookup_model(),
                method.kube_secret->0.load_init_model(found)->Ok_0,
            ],
            end: LoadEnd::Done(data),
        }),
{
    reveal_with_fuel(load_trace_from, 5);
    let replies = seq![found, StoreReplyView::Decoded(data)];
    assert(replies.first() == found);
    let after = replies.drop_first();
    assert(after.first() == StoreReplyView::Decoded(data));
    assert(after.drop_first() =~= Seq::<StoreReplyView>::empty());
    let got = load_trace_from(method, method.load_kube_secret_model(), replies);
    assert(got.commands =~= seq![
        method.kube_secret->0.load_lookup_model(),
        method.kube_secret->0.load_init_model(found)->Ok_0,
    ]);
}

/// A load falls back from the file to the cluster secret.
///
/// Let both backends be configured, let the file not be fetched, as when it
/// is missing, and let the cluster secret yield a document that decodes to
/// `data`. Then the load issues the fetch of the file, the fetch of the
/// secret and the decoding of the secret's document, and returns `data`.
pub proof fn a_load_falls_back_to_the_secret(
    method: SaveMethod,
    file_found: StoreReplyView,
    secret_found: StoreReplyView,
    data: PostInitResponseView,
)
    requires
        method.file is Some,
        method.kube_secret is Some,
        method.file->0.load_init_model(file_found) is Err,
        method.kube_secret->0.load_init_model(secret_found) is Ok,
    ensures
        load_trace(method, seq![file_found, secret_found, StoreReplyView::Decoded(data)]) == (
        LoadTrace {
            commands: seq![
                method.file->0.load_lookup_model(),
                method.kube_secret->0.load_lookup_model(),
                method.kube_secret->0.load_init_model(secret_found)->Ok_0,
            ],
            end: LoadEnd::Done(data),
        }),
{
    reveal_with_fuel(load_trace_from, 5);
    let later = seq![secret_found, StoreReplyView::Decoded(data)];
    a_load_passes_over_a_file_that_cannot_be_fetched(method, file_found, later);
    a_load_returns_what_the_secret_supplies(method, secret_found, data);
    assert(seq![file_found] + later =~= seq![
        file_found,
        secret_found,
        StoreReplyView::Decoded(data),
    ]);
    let got = load_trace(method, seq![file_found, secret_found, StoreReplyView::Decoded(data)]);
    assert(got.commands =~= seq![
        method.file->0.load_lookup_model(),
        method.kube_secret->0.load_lookup_model(),
        method.kube_secret->0.load_init_model(secret_found)->Ok_0,
    ]);
}

/// A load fails as unavailable where every configured backend has failed.
///
/// Let both backends be configured, and let neither have a document to
/// decode from what its fetch found. Then the load issues the two fetches
/// and fails with the one error that says that no backend could supply the
/// result.
pub proof fn a_load_fails_where_every_backend_fails(
    method: SaveMethod,
    file_found: StoreReplyView,
    secret_found: StoreReplyView,
)
    requires
        method.file is Some,
        method.kube_secret is Some,
        method.file->0.load_init_model(file_found) is Err,
        method.kube_secret->0.load_init_model(secret_found) is Err,
    ensures
        load_trace(method, seq![file_found, secret_found]) == (LoadTrace {
            commands: seq![
                method.file->0.load_lookup_model(),
                method.kube_secret->0.load_lookup_model(),
            ],
            end: LoadEnd::Abort(LoadErrorView::Unavailable),
        }),
{
    reveal_with_fuel(load_trace_from, 5);
    let later = seq![secret_found];
    a_load_passes_over_a_file_that_cannot_be_fetched(method, file_found, later);
    assert(seq![file_found] + later =~= seq![file_found, secret_found]);
    assert(later.first() == secret_found);
    assert(later.drop_first() =~= Seq::<StoreReplyView>::empty());
    let tail = load_trace_from(method, method.load_kube_secret_model(), later);
    assert(tail.commands =~= seq![method.kube_secret->0.load_lookup_model()]);
    let got = load_trace(method, seq![file_found, secret_found]);
    assert(got.commands =~= seq![
        method.file->0.load_lookup_model(),
        method.kube_secret->0.load_lookup_model(),
    ]);
}

/// Whether a save that stands at `step` has nothing to do with `backend`:
/// neither the command that is outstanding nor the stage belongs to it.
pub open spec fn save_keeps_off(step: SaveStepView, backend: Backend) -> bool {
    match step {
        SaveStepView::Next(command, stage) => command.backend() != Some(backend)
            && stage.backend() != backend,
        _ => true,
    }
}

/// Whether a load that stands at `step` has nothing to do with `backend`.
pub open spec fn load_keeps_off(step: LoadStepView, backend: Backend) -> bool {
    match step {
        LoadStepView::Next(command, stage) => command.backend() != Some(backend)
            && stage.backend() != backend,
        _ => true,
    }
}

proof fn a_save_stays_off_an_absent_backend(
    method: SaveMethod,
    data: PostInitResponseView,
    step: SaveStepView,
    replies: Seq<StoreReplyView>,
    backend: Backend,
)
    requires
        !method.configured(backend),
        save_keeps_off(step, backend),
    ensures
        forall|i: int|
            0 <= i < save_trace_from(method, data, step, replies).commands.len()
                ==> (#[trigger] save_trace_from(method, data, step, replies).commands[i]).backend()
                != Some(backend),
    decreases replies.len(),
{
    if let SaveStepView::Next(command, stage) = step {
        if replies.len() > 0 {
            let next = method.resume_save_model(data, stage, replies.first());
            assert(save_keeps_off(next, backend));
            a_save_stays_off_an_absent_backend(method, data, next, replies.drop_first(), backend);
        }
    }
}

proof fn a_load_stays_off_an_absent_backend(
    method: SaveMethod,
    step: LoadStepView,
    replies: Seq<StoreReplyView>,
    backend: Backend,
)
    requires
        !method.configured(backend),
        load_keeps_off(step, backend),
    ensures
        forall|i: int|
            0 <= i < load_trace_from(method, step, replies).commands.len() ==> (
            #[trigger] load_trace_from(method, step, replies).commands[i]).backend() != Some(
                backend,
            ),
    decreases replies.len(),
{
    if let LoadStepView::Next(command, stage) = step {
        if replies.len() > 0 {
            let next = method.resume_load_model(stage, replies.first());
            assert(load_keeps_off(next, backend));
            a_load_stays_off_an_absent_backend(method, next, replies.drop_first(), backend);
        }
    }
}

/// A backend that is not configured is never attempted: whatever the
/// replies, no command of a save and no command of a load touches its
/// target.
pub proof fn an_absent_backend_is_never_attempted(
    method: SaveMethod,
    data: PostInitResponseView,
    replies: Seq<StoreReplyView>,
    backend: Backend,
)
    requires
        !method.configured(backend),
    ensures
        forall|i: int|
            0 <= i < save_trace(method, data, replies).commands.len() ==> (#[trigger] save_trace(
                method,
                data,
                replies,
            ).commands[i]).backend() != Some(backend),
        forall|i: int|
            0 <= i < load_trace(method, replies).commands.len() ==> (#[trigger] load_trace(
                method,
                replies,
            ).commands[i]).backend() != Some(backend),
{
    a_save_stays_off_an_absent_backend(
        method,
        data,
        method.save_init_all_model(),
        replies,
        backend,
    );
    a_load_stays_off_an_absent_backend(method, method.load_init_all_model(), replies, backend);
}

proof fn a_load_from_a_read_writes_nothing(
    method: SaveMethod,
    step: LoadStepView,
    replies: Seq<StoreReplyView>,
)
    requires
        step matches LoadStepView::Next(command, _) ==> !command.writes(),
    ensures
        forall|i: int|
            0 <= i < load_trace_from(method, step, replies).commands.len() ==> !(
            #[trigger] load_trace_from(method, step, replies).commands[i]).writes(),
    decreases replies.len(),
{
    if let LoadStepView::Next(command, stage) = step {
        if replies.len() > 0 {
            let next = method.resume_load_model(stage, replies.first());
            a_load_from_a_read_writes_nothing(method, next, replies.drop_first());
        }
    }
}

/// A load writes nothing: whatever the replies, none of its commands changes
/// a persistence target.
pub proof fn a_load_writes_nothing(method: SaveMethod, replies: Seq<StoreReplyView>)
    ensures
        forall|i: int|
            0 <= i < load_trace(method, replies).commands.len() ==> !(#[trigger] load_trace(
                method,
                replies,
            ).commands[i]).writes(),
{
    a_load_from_a_read_writes_nothing(method, method.load_init_all_model(), replies);
}

} // verus!
