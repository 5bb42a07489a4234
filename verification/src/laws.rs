//! Run-level guarantees of the swap engine.
//!
//! A *run* is the event sequence an obedient driver feeds a fresh engine:
//! each event answers the action that was pending when it arrived
//! ([`valid_events`]). Beside the engine, [`FsV`] gives an abstract
//! picture of the three directory slots the swap touches — the install
//! root and the two staging directories, each holding some opaque
//! directory-tree content — and [`performs`] states what each performed
//! action does to that picture, leaving open exactly what the real
//! filesystem leaves open (where a failed rename pair stopped, what a
//! failed privileged command left behind). The removals of the cleanup
//! step are modeled as taking effect; their errors are swallowed by the
//! driver and, as [`law_cleanup_preserves_outcome`] states, can never
//! displace the recorded outcome.
//!
//! The public proof functions at the bottom are the library's laws:
//! every completed run leaves both staging slots empty; a successful run
//! leaves exactly the extracted payload at the root; elevation is never
//! attempted after a non-permission failure; a permission failure prompts
//! for consent exactly once, with the package's own title and version; a
//! failed privileged command fails the run with its exact exit code and
//! nothing repairs the root afterwards; and cleanup never changes the
//! outcome, however little there was left to remove.

use vstd::prelude::*;

use crate::engine::ActionV;
use crate::engine::EngineV;
use crate::engine::EventV;
use crate::engine::Phase;
use crate::engine::expects;
use crate::engine::pending_action_v;
use crate::engine::step_v;
use crate::errors::ApplyErrorV;
use crate::errors::RenameErrorKind;

verus! {

/// The engine state after feeding a whole sequence of events, first one
/// first.
pub open spec fn run_v(v0: EngineV, es: Seq<EventV>) -> EngineV
    decreases es.len(),
{
    if es.len() == 0 {
        v0
    } else {
        step_v(run_v(v0, es.drop_last()), es.last())
    }
}

/// The engine state just before event `i` of the run is fed.
pub open spec fn state_at(v0: EngineV, es: Seq<EventV>, i: int) -> EngineV {
    run_v(v0, es.take(i))
}

/// Every event of the run answers the action that was pending when it
/// arrived: the runs an obedient driver can produce.
pub open spec fn valid_events(v0: EngineV, es: Seq<EventV>) -> bool {
    forall|i: int| 0 <= i < es.len() ==> expects(state_at(v0, es, i), #[trigger] es[i])
}

/// A fresh engine: extraction pending, no outcome recorded.
pub open spec fn is_init(v: EngineV) -> bool {
    v.phase == Phase::Extracting && v.outcome is None
}

/// The event reports a successful extraction.
pub open spec fn extract_ok(e: EventV) -> bool {
    e matches EventV::Extracted { outcome: Ok(_) }
}

/// The event reports a rename pair denied for lack of permission.
pub open spec fn swap_perm_failed(e: EventV) -> bool {
    e matches EventV::Swapped { outcome: Err(re) } && re.kind
        == RenameErrorKind::PermissionDenied
}

/// How a decided outcome relates to the events that led to it: each
/// disjunct is one of the five ways a run can reach its decision.
pub open spec fn decided_hist(v: EngineV, past: Seq<EventV>) -> bool {
    ||| (past.len() == 1 && (past[0] matches EventV::Extracted { outcome: Err(m) } && v.outcome
        == Some(Err::<(), ApplyErrorV>(ApplyErrorV::Extraction { message: m }))))
    ||| (past.len() == 2 && extract_ok(past[0]) && (past[1] matches EventV::Swapped {
        outcome: Ok(_),
    } && v.outcome == Some(Ok::<(), ApplyErrorV>(()))))
    ||| (past.len() == 2 && extract_ok(past[0]) && (past[1] matches EventV::Swapped {
        outcome: Err(re),
    } && re.kind != RenameErrorKind::PermissionDenied && v.outcome == Some(
        Err::<(), ApplyErrorV>(ApplyErrorV::SwapFailed { message: re.message }),
    )))
    ||| (past.len() == 3 && extract_ok(past[0]) && swap_perm_failed(past[1]) && past[2] == (
    EventV::ConsentAnswered { granted: false }) && v.outcome == Some(
        Err::<(), ApplyErrorV>(ApplyErrorV::ElevationDeclined),
    ))
    ||| (past.len() == 4 && extract_ok(past[0]) && swap_perm_failed(past[1]) && past[2] == (
    EventV::ConsentAnswered { granted: true }) && (past[3] matches EventV::ElevatedDone {
        exit_ok,
        exit_code,
    } && (exit_ok ==> v.outcome == Some(Ok::<(), ApplyErrorV>(()))) && (!exit_ok ==> v.outcome
        == Some(Err::<(), ApplyErrorV>(ApplyErrorV::ElevationFailed { exit_code })))))
}

/// What the events behind each phase must have been: the phases of the
/// engine determine the history of an obedient run almost exactly.
pub open spec fn hist(v: EngineV, past: Seq<EventV>) -> bool {
    match v.phase {
        Phase::Extracting => past.len() == 0 && v.outcome is None,
        Phase::Swapping => past.len() == 1 && extract_ok(past[0]) && v.outcome is None,
        Phase::AwaitingConsent => past.len() == 2 && extract_ok(past[0]) && swap_perm_failed(
            past[1],
        ) && v.outcome is None,
        Phase::RunningElevated => past.len() == 3 && extract_ok(past[0]) && swap_perm_failed(
            past[1],
        ) && past[2] == (EventV::ConsentAnswered { granted: true }) && v.outcome is None,
        Phase::CleaningUp => decided_hist(v, past),
        Phase::Finished => past.len() >= 1 && past.last() is CleanupDone && decided_hist(
            v,
            past.drop_last(),
        ),
    }
}

/// The paths, display strings and derived location never change over a
/// run; only the phase and the outcome do.
pub open spec fn same_setup(a: EngineV, b: EngineV) -> bool {
    &&& b.root == a.root
    &&& b.staging_new == a.staging_new
    &&& b.staging_old == a.staging_old
    &&& b.title == a.title
    &&& b.version == a.version
    &&& b.next_location == a.next_location
}

/// A prefix of a valid run is itself a valid run.
proof fn lemma_prefix_valid(v0: EngineV, es: Seq<EventV>, n: int)
    requires
        valid_events(v0, es),
        0 <= n <= es.len(),
    ensures
        valid_events(v0, es.take(n)),
{
    assert forall|i: int| 0 <= i < es.take(n).len() implies expects(
        state_at(v0, es.take(n), i),
        #[trigger] es.take(n)[i],
    ) by {
        assert(es.take(n).take(i) =~= es.take(i));
        assert(es.take(n)[i] == es[i]);
        assert(expects(state_at(v0, es, i), es[i]));
    }
}

/// Every valid run satisfies [`hist`]: its phases pin its events down,
/// and its setup never changes.
pub proof fn lemma_run_hist(v0: EngineV, es: Seq<EventV>)
    requires
        is_init(v0),
        valid_events(v0, es),
    ensures
        hist(run_v(v0, es), es),
        same_setup(v0, run_v(v0, es)),
    decreases es.len(),
{
    if es.len() > 0 {
        let es1 = es.drop_last();
        let e = es.last();
        lemma_prefix_valid(v0, es, es.len() - 1);
        assert(es.take(es.len() - 1) =~= es1);
        lemma_run_hist(v0, es1);
        let vp = run_v(v0, es1);
        assert(expects(state_at(v0, es, es.len() - 1), es[es.len() - 1]));
        assert(expects(vp, e));
        assert(forall|k: int| 0 <= k < es1.len() ==> es1[k] == #[trigger] es[k]);
        assert(run_v(v0, es) == step_v(vp, e));
    }
}

/// Abstract picture of the three directory slots the swap touches. Each
/// slot either is absent or holds some directory tree, stood for by an
/// opaque content value; equal values mean equal trees.
#[verifier::ext_equal]
pub ghost struct FsV {
    pub root: Option<int>,
    pub staging_new: Option<int>,
    pub staging_old: Option<int>,
}

/// What performing the pending action of `v` did to the directory slots,
/// given the event it reported back. `payload` is the content a
/// successful extraction writes. Failures constrain the picture only as
/// far as the real operations do: a failed rename pair stopped either
/// before or between its two renames, and a failed privileged command
/// may have left anything.
pub open spec fn performs(v: EngineV, e: EventV, payload: int, pre: FsV, post: FsV) -> bool {
    match v.phase {
        Phase::Extracting => e matches EventV::Extracted { outcome } && match outcome {
            Ok(_) => post == (FsV { staging_new: Some(payload), ..pre }),
            Err(_) => post.root == pre.root && post.staging_old == pre.staging_old,
        },
        Phase::Swapping => e matches EventV::Swapped { outcome } && match outcome {
            Ok(_) => post == (FsV {
                root: pre.staging_new,
                staging_new: None,
                staging_old: pre.root,
            }),
            Err(_) => post == pre || post == (FsV {
                root: None,
                staging_new: pre.staging_new,
                staging_old: pre.root,
            }),
        },
        Phase::AwaitingConsent => e is ConsentAnswered && post == pre,
        Phase::RunningElevated => e matches EventV::ElevatedDone { exit_ok, .. } && (exit_ok
            ==> post == (FsV { root: pre.staging_new, staging_new: None, staging_old: None })),
        Phase::CleaningUp => e is CleanupDone && post == (FsV {
            root: pre.root,
            staging_new: None,
            staging_old: None,
        }),
        Phase::Finished => false,
    }
}

/// `fss` records the directory picture before and after each event of
/// the run: `fss[i]` is the picture when event `i` arrives.
pub open spec fn valid_fs_trace(v0: EngineV, es: Seq<EventV>, fss: Seq<FsV>, payload: int) -> bool {
    &&& fss.len() == es.len() + 1
    &&& forall|i: int|
        0 <= i < es.len() ==> performs(
            state_at(v0, es, i),
            #[trigger] es[i],
            payload,
            fss[i],
            fss[i + 1],
        )
}

/// The inductive invariant tying the engine's phase to the directory
/// picture: the staged payload survives until it is moved into place, a
/// recorded success means the root holds the payload, and a finished run
/// has both staging slots empty.
pub open spec fn inv(v: EngineV, fs: FsV, payload: int) -> bool {
    match v.phase {
        Phase::Extracting => true,
        Phase::Swapping => fs.staging_new == Some(payload),
        Phase::AwaitingConsent => fs.staging_new == Some(payload),
        Phase::RunningElevated => fs.staging_new == Some(payload),
        Phase::CleaningUp => v.outcome is Some && (v.outcome == Some(Ok::<(), ApplyErrorV>(()))
            ==> fs.root == Some(payload)),
        Phase::Finished => v.outcome is Some && (v.outcome == Some(Ok::<(), ApplyErrorV>(()))
            ==> fs.root == Some(payload)) && fs.staging_new is None && fs.staging_old is None,
    }
}

/// One obedient step preserves the invariant.
proof fn lemma_step_preserves_inv(v: EngineV, e: EventV, payload: int, pre: FsV, post: FsV)
    requires
        inv(v, pre, payload),
        expects(v, e),
        performs(v, e, payload, pre, post),
    ensures
        inv(step_v(v, e), post, payload),
{
}

/// The invariant holds at the end of every valid run.
pub proof fn lemma_run_inv(v0: EngineV, es: Seq<EventV>, fss: Seq<FsV>, payload: int)
    requires
        is_init(v0),
        valid_events(v0, es),
        valid_fs_trace(v0, es, fss, payload),
    ensures
        inv(run_v(v0, es), fss.last(), payload),
    decreases es.len(),
{
    if es.len() == 0 {
        assert(fss.last() == fss[0]);
    } else {
        let es1 = es.drop_last();
        let fss1 = fss.drop_last();
        let n = es.len() - 1;
        lemma_prefix_valid(v0, es, n);
        assert(es.take(n) =~= es1);
        assert forall|i: int|
            0 <= i < es1.len() implies performs(
            state_at(v0, es1, i),
            #[trigger] es1[i],
            payload,
            fss1[i],
            fss1[i + 1],
        ) by {
            assert(es1.take(i) =~= es.take(i));
            assert(es1[i] == es[i]);
            assert(performs(state_at(v0, es, i), es[i], payload, fss[i], fss[i + 1]));
        }
        lemma_run_inv(v0, es1, fss1, payload);
        assert(fss1.last() == fss[n]);
        assert(expects(state_at(v0, es, n), es[n]));
        assert(performs(state_at(v0, es, n), es[n], payload, fss[n], fss[n + 1]));
        lemma_step_preserves_inv(run_v(v0, es1), es.last(), payload, fss[n], fss[n + 1]);
        assert(run_v(v0, es) == step_v(run_v(v0, es1), es.last()));
        assert(fss.last() == fss[n + 1]);
    }
}

/// After every completed run — success or failure — neither staging
/// directory exists.
pub proof fn law_staging_always_removed(v0: EngineV, es: Seq<EventV>, fss: Seq<FsV>, payload: int)
    requires
        is_init(v0),
        valid_events(v0, es),
        valid_fs_trace(v0, es, fss, payload),
        run_v(v0, es).phase == Phase::Finished,
    ensures
        fss.last().staging_new is None,
        fss.last().staging_old is None,
{
    lemma_run_inv(v0, es, fss, payload);
}

/// After every successful run the install root holds exactly the
/// extracted payload of the package, and neither staging directory
/// exists.
pub proof fn law_success_installs_payload(v0: EngineV, es: Seq<EventV>, fss: Seq<FsV>, payload: int)
    requires
        is_init(v0),
        valid_events(v0, es),
        valid_fs_trace(v0, es, fss, payload),
        run_v(v0, es).phase == Phase::Finished,
        run_v(v0, es).outcome == Some(Ok::<(), ApplyErrorV>(())),
    ensures
        fss.last().root == Some(payload),
        fss.last().staging_new is None,
        fss.last().staging_old is None,
{
    lemma_run_inv(v0, es, fss, payload);
}

/// If the rename pair fails for any reason other than permissions, the
/// run never reaches the consent prompt nor the privileged command.
pub proof fn law_no_elevation_without_permission_failure(v0: EngineV, es: Seq<EventV>, i: int)
    requires
        is_init(v0),
        valid_events(v0, es),
        0 <= i < es.len(),
        es[i] matches EventV::Swapped { outcome: Err(re) } && re.kind
            != RenameErrorKind::PermissionDenied,
    ensures
        forall|j: int|
            0 <= j <= es.len() ==> #[trigger] state_at(v0, es, j).phase != Phase::AwaitingConsent
                && state_at(v0, es, j).phase != Phase::RunningElevated,
{
    lemma_prefix_valid(v0, es, i);
    lemma_run_hist(v0, es.take(i));
    assert(expects(state_at(v0, es, i), es[i]));
    assert(state_at(v0, es, i).phase == Phase::Swapping);
    assert(i == 1);
    assert forall|j: int|
        0 <= j <= es.len() implies #[trigger] state_at(v0, es, j).phase
        != Phase::AwaitingConsent && state_at(v0, es, j).phase != Phase::RunningElevated by {
        lemma_prefix_valid(v0, es, j);
        lemma_run_hist(v0, es.take(j));
        if state_at(v0, es, j).phase == Phase::AwaitingConsent {
            assert(swap_perm_failed(es.take(j)[1]));
            assert(es.take(j)[1] == es[1]);
            assert(false);
        }
        if state_at(v0, es, j).phase == Phase::RunningElevated {
            assert(swap_perm_failed(es.take(j)[1]));
            assert(es.take(j)[1] == es[1]);
            assert(false);
        }
    }
}

/// If the rename pair is denied for lack of permission, the consent
/// prompt is shown exactly once, with the package's own title and
/// version; and the privileged command runs only after — and only ever
/// once, immediately after — the user grants consent.
pub proof fn law_permission_failure_prompts_once(v0: EngineV, es: Seq<EventV>, i: int)
    requires
        is_init(v0),
        valid_events(v0, es),
        0 <= i < es.len(),
        swap_perm_failed(es[i]),
    ensures
        state_at(v0, es, i + 1).phase == Phase::AwaitingConsent,
        pending_action_v(state_at(v0, es, i + 1)) == (ActionV::AskConsent {
            title: v0.title,
            version: v0.version,
        }),
        forall|j: int|
            0 <= j <= es.len() && #[trigger] state_at(v0, es, j).phase == Phase::AwaitingConsent
                ==> j == i + 1,
        forall|j: int|
            0 <= j <= es.len() && #[trigger] state_at(v0, es, j).phase == Phase::RunningElevated
                ==> j == i + 2 && es[i + 1] == (EventV::ConsentAnswered { granted: true }),
        i + 2 <= es.len() && es[i + 1] == (EventV::ConsentAnswered { granted: true })
            ==> state_at(v0, es, i + 2).phase == Phase::RunningElevated,
{
    lemma_prefix_valid(v0, es, i);
    lemma_run_hist(v0, es.take(i));
    assert(expects(state_at(v0, es, i), es[i]));
    assert(state_at(v0, es, i).phase == Phase::Swapping);
    assert(i == 1);
    lemma_prefix_valid(v0, es, i + 1);
    lemma_run_hist(v0, es.take(i + 1));
    assert(es.take(i + 1).drop_last() =~= es.take(i));
    assert(es.take(i + 1).last() == es[i]);
    assert(state_at(v0, es, i + 1) == step_v(state_at(v0, es, i), es[i]));
    assert(state_at(v0, es, i + 1).phase == Phase::AwaitingConsent);
    assert forall|j: int|
        0 <= j <= es.len() && #[trigger] state_at(v0, es, j).phase
        == Phase::AwaitingConsent implies j == i + 1 by {
        lemma_prefix_valid(v0, es, j);
        lemma_run_hist(v0, es.take(j));
    }
    assert forall|j: int|
        0 <= j <= es.len() && #[trigger] state_at(v0, es, j).phase
        == Phase::RunningElevated implies j == i + 2 && es[i + 1] == (EventV::ConsentAnswered {
        granted: true,
    }) by {
        lemma_prefix_valid(v0, es, j);
        lemma_run_hist(v0, es.take(j));
        assert(es.take(j)[2] == es[2]);
    }
    if i + 2 <= es.len() && es[i + 1] == (EventV::ConsentAnswered { granted: true }) {
        assert(es.take(i + 2).drop_last() =~= es.take(i + 1));
        assert(es.take(i + 2).last() == es[i + 1]);
        assert(state_at(v0, es, i + 2) == step_v(state_at(v0, es, i + 1), es[i + 1]));
    }
}

/// If the privileged command exits unsuccessfully, the run fails with
/// `ElevationFailed` carrying that exact exit code, and nothing after it
/// touches the install root: cleanup only removes the staging
/// directories, so the root stays exactly as the privileged command left
/// it.
pub proof fn law_elevated_failure_reports_exit_code(
    v0: EngineV,
    es: Seq<EventV>,
    fss: Seq<FsV>,
    payload: int,
    i: int,
)
    requires
        is_init(v0),
        valid_events(v0, es),
        valid_fs_trace(v0, es, fss, payload),
        0 <= i < es.len(),
        es[i] matches EventV::ElevatedDone { exit_ok, .. } && !exit_ok,
        run_v(v0, es).phase == Phase::Finished,
    ensures
        run_v(v0, es).outcome == Some(
            Err::<(), ApplyErrorV>(ApplyErrorV::ElevationFailed { exit_code: es[i]->exit_code }),
        ),
        fss.last().root == fss[i + 1].root,
{
    lemma_prefix_valid(v0, es, i);
    lemma_run_hist(v0, es.take(i));
    assert(expects(state_at(v0, es, i), es[i]));
    assert(state_at(v0, es, i).phase == Phase::RunningElevated);
    assert(i == 3);
    lemma_run_hist(v0, es);
    let vf = run_v(v0, es);
    let es1 = es.drop_last();
    assert(es.last() is CleanupDone);
    assert(es[es.len() - 1] == es.last());
    assert(es.len() != 4);
    assert(decided_hist(vf, es1));
    assert(es1.len() != 1 && es1.len() != 2 && es1.len() != 3 ==> es1.len() == 4);
    assert(es1.len() == 4 ==> es1[3] == es[3]);
    assert(es.len() == 5);
    assert(vf.outcome == Some(
        Err::<(), ApplyErrorV>(ApplyErrorV::ElevationFailed { exit_code: es[i]->exit_code }),
    ));
    lemma_prefix_valid(v0, es, 4);
    lemma_run_hist(v0, es.take(4));
    assert(es.take(4).drop_last() =~= es.take(3));
    assert(es.take(4).last() == es[3]);
    assert(state_at(v0, es, 4) == step_v(state_at(v0, es, 3), es[3]));
    assert(state_at(v0, es, 4).phase == Phase::CleaningUp);
    assert(performs(state_at(v0, es, 4), es[4], payload, fss[4], fss[5]));
    assert(fss[5].root == fss[4].root);
    assert(fss.last() == fss[5]);
}

/// Cleanup can never mask the result: whatever the staging slots held —
/// both may already be absent — reporting cleanup done is always
/// accepted, leaves the recorded outcome untouched, and leaves both
/// staging slots empty.
pub proof fn law_cleanup_preserves_outcome(v: EngineV, payload: int, pre: FsV, post: FsV)
    requires
        v.phase == Phase::CleaningUp,
        performs(v, EventV::CleanupDone, payload, pre, post),
    ensures
        expects(v, EventV::CleanupDone),
        step_v(v, EventV::CleanupDone).outcome == v.outcome,
        post.staging_new is None,
        post.staging_old is None,
{
}

} // verus!
