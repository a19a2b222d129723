//! The mathematical model of the manager's transition protocol.
//!
//! A [`ManagerView`] abstracts a manager to its shared context, its active
//! state, its liveness flag, and a ghost history of the state-lifecycle
//! operations it has performed.  The relation [`pass_transition`] says exactly
//! which views a single pass may connect, and the lemmas below state the
//! protocol's global laws: a deactivated manager is absorbing, a run of
//! continues never touches the active state's lifecycle, and every transition
//! terminates the outgoing state before the next constructor runs.

use vstd::prelude::*;

verus! {

/// One entry in a manager's ghost history: a state-lifecycle operation the
/// manager performed, in program order.
pub enum StateLifecycleEvent {
    /// The active state's `update_and_draw` method was invoked.
    Advanced,
    /// The active state's `terminate` hook was invoked.
    Terminated,
    /// A state constructor was invoked.
    ConstructorInvoked,
}

/// The model of a manager: its fields as mathematical values, together with
/// the history of lifecycle operations performed so far.
pub struct ManagerView<C, S> {
    /// The shared context owned by the manager.
    pub context: C,
    /// The currently active state.
    pub active_state: S,
    /// Whether the manager still accepts passes.
    pub is_active: bool,
    /// The lifecycle operations performed so far, oldest first.
    pub history: Seq<StateLifecycleEvent>,
}

/// The message reported when the initial state constructor fails.
pub open spec fn initial_failure_message(msg: Seq<char>) -> Seq<char> {
    "Failed to create initial state: "@ + msg
}

/// The message reported when a transition's state constructor fails.
pub open spec fn transition_failure_message(msg: Seq<char>) -> Seq<char> {
    "Failed to create next state: "@ + msg
}

/// The transition relation of a single pass: exactly one of the five branches
/// of the protocol connects the view before the pass, the view after it, and
/// the pass's returned value.
pub open spec fn pass_transition<C, S>(
    pre: ManagerView<C, S>,
    post: ManagerView<C, S>,
    r: Result<bool, String>,
) -> bool {
    if !pre.is_active {
        // A deactivated manager performs nothing and reports the
        // deactivated signal.
        &&& post == pre
        &&& r == Ok::<bool, String>(false)
    } else {
        // The active state chose to continue: it was only advanced.
        ||| {
            &&& r == Ok::<bool, String>(true)
            &&& post.is_active
            &&& post.history == pre.history + seq![StateLifecycleEvent::Advanced]
        }
        // The active state requested a transition and the next state was
        // constructed: the outgoing state was terminated first.
        ||| {
            &&& r == Ok::<bool, String>(true)
            &&& post.is_active
            &&& post.history == pre.history + seq![
                StateLifecycleEvent::Advanced,
                StateLifecycleEvent::Terminated,
                StateLifecycleEvent::ConstructorInvoked,
            ]
        }
        // The active state requested to quit: it was terminated and the
        // manager deactivated.
        ||| {
            &&& r == Ok::<bool, String>(false)
            &&& !post.is_active
            &&& post.history == pre.history + seq![
                StateLifecycleEvent::Advanced,
                StateLifecycleEvent::Terminated,
            ]
        }
        // The active state requested a transition but the next state's
        // constructor failed: the outgoing state had already been terminated,
        // and the manager deactivated permanently.
        ||| {
            &&& r matches Err(e) && (exists|msg: Seq<char>| e@ == transition_failure_message(msg))
            &&& !post.is_active
            &&& post.history == pre.history + seq![
                StateLifecycleEvent::Advanced,
                StateLifecycleEvent::Terminated,
                StateLifecycleEvent::ConstructorInvoked,
            ]
        }
    }
}

/// A pass in which the active state chose to continue: the history grew by
/// exactly one advance, so no state was terminated or constructed and the
/// active state instance was kept.
pub open spec fn continued_step<C, S>(pre: ManagerView<C, S>, post: ManagerView<C, S>) -> bool {
    post.history == pre.history + seq![StateLifecycleEvent::Advanced]
}

/// Cleanup-before-construct: every constructor invocation, other than the one
/// that produced the initial state, is immediately preceded by the outgoing
/// state's termination.
pub open spec fn cleanup_precedes_construction(h: Seq<StateLifecycleEvent>) -> bool {
    forall|i: int|
        0 < i < h.len() && (#[trigger] h[i]) is ConstructorInvoked ==> h[
            i - 1
        ] is Terminated
}

/// Law: the returned signal is an accurate liveness report.  A pass returns
/// `Ok(true)` exactly when the manager is still active afterwards, and a pass
/// on a deactivated manager changes nothing and returns `Ok(false)`.
pub proof fn lemma_report_matches_liveness<C, S>(
    pre: ManagerView<C, S>,
    post: ManagerView<C, S>,
    r: Result<bool, String>,
)
    requires
        pass_transition(pre, post, r),
    ensures
        r == Ok::<bool, String>(true) <==> post.is_active,
        !pre.is_active ==> post == pre && r == Ok::<bool, String>(false),
{
}

/// Law: a pass reports an error only while deactivating the manager, and the
/// error always indicates a transition-construction failure.
pub proof fn lemma_error_deactivates<C, S>(
    pre: ManagerView<C, S>,
    post: ManagerView<C, S>,
    r: Result<bool, String>,
)
    requires
        pass_transition(pre, post, r),
        r is Err,
    ensures
        pre.is_active,
        !post.is_active,
        r matches Err(e) ==> exists|msg: Seq<char>| e@ == transition_failure_message(msg),
{
}

proof fn lemma_inactive_absorbing_at<C, S>(
    mgrs: Seq<ManagerView<C, S>>,
    rs: Seq<Result<bool, String>>,
    i: int,
)
    requires
        mgrs.len() == rs.len() + 1,
        !mgrs[0].is_active,
        forall|j: int|
            0 <= j < rs.len() ==> #[trigger] pass_transition(mgrs[j], mgrs[j + 1], rs[j]),
        0 <= i < rs.len(),
    ensures
        rs[i] == Ok::<bool, String>(false),
        mgrs[i + 1] == mgrs[0],
    decreases i,
{
    if i > 0 {
        lemma_inactive_absorbing_at(mgrs, rs, i - 1);
    }
    assert(pass_transition(mgrs[i], mgrs[i + 1], rs[i]));
}

/// Law: deactivation is permanent and idempotent.  Along any run of passes
/// that starts from a deactivated manager, every pass returns `Ok(false)` and
/// leaves the manager exactly as it was — in particular its history never
/// grows, so no state method is ever invoked again.
pub proof fn lemma_inactive_is_absorbing<C, S>(
    mgrs: Seq<ManagerView<C, S>>,
    rs: Seq<Result<bool, String>>,
)
    requires
        mgrs.len() == rs.len() + 1,
        !mgrs[0].is_active,
        forall|j: int|
            0 <= j < rs.len() ==> #[trigger] pass_transition(mgrs[j], mgrs[j + 1], rs[j]),
    ensures
        forall|i: int|
            0 <= i < rs.len() ==> rs[i] == Ok::<bool, String>(false) && mgrs[i + 1] == mgrs[0],
{
    assert forall|i: int|
        0 <= i < rs.len() implies rs[i] == Ok::<bool, String>(false) && mgrs[i + 1]
        == mgrs[0] by {
        lemma_inactive_absorbing_at(mgrs, rs, i);
    }
}

/// Law: one pass maintains cleanup-before-construct.  Whatever the active
/// state decides, a constructor is only ever invoked immediately after the
/// outgoing state's termination.
pub proof fn lemma_pass_preserves_cleanup_order<C, S>(
    pre: ManagerView<C, S>,
    post: ManagerView<C, S>,
    r: Result<bool, String>,
)
    requires
        pass_transition(pre, post, r),
        cleanup_precedes_construction(pre.history),
    ensures
        cleanup_precedes_construction(post.history),
{
    if pre.is_active {
        let n = pre.history.len() as int;
        assert forall|i: int|
            0 < i < post.history.len() && (#[trigger] post.history[i]) is ConstructorInvoked
            implies post.history[i - 1] is Terminated by {
            if i < n {
                assert(post.history[i] == pre.history[i]);
                assert(post.history[i - 1] == pre.history[i - 1]);
            } else {
                assert(post.history[n] is Advanced);
                assert(i > n);
                assert(post.history[i - 1] is Terminated);
            }
        }
    }
}

proof fn lemma_cleanup_order_at<C, S>(
    mgrs: Seq<ManagerView<C, S>>,
    rs: Seq<Result<bool, String>>,
    i: int,
)
    requires
        mgrs.len() == rs.len() + 1,
        cleanup_precedes_construction(mgrs[0].history),
        forall|j: int|
            0 <= j < rs.len() ==> #[trigger] pass_transition(mgrs[j], mgrs[j + 1], rs[j]),
        0 <= i < mgrs.len(),
    ensures
        cleanup_precedes_construction(mgrs[i].history),
    decreases i,
{
    if i > 0 {
        let j: int = i - 1;
        lemma_cleanup_order_at(mgrs, rs, j);
        assert(pass_transition(mgrs[j], mgrs[j + 1], rs[j]));
        lemma_pass_preserves_cleanup_order(mgrs[j], mgrs[j + 1], rs[j]);
    }
}

/// Law: along any run of passes that starts from a manager whose history
/// respects cleanup-before-construct — as a freshly created manager's does —
/// every reached manager's history respects it too: the outgoing state's
/// `terminate` always completes before the next state's constructor is
/// invoked.
pub proof fn lemma_run_preserves_cleanup_order<C, S>(
    mgrs: Seq<ManagerView<C, S>>,
    rs: Seq<Result<bool, String>>,
)
    requires
        mgrs.len() == rs.len() + 1,
        cleanup_precedes_construction(mgrs[0].history),
        forall|j: int|
            0 <= j < rs.len() ==> #[trigger] pass_transition(mgrs[j], mgrs[j + 1], rs[j]),
    ensures
        forall|i: int| 0 <= i < mgrs.len() ==> cleanup_precedes_construction(mgrs[i].history),
{
    assert forall|i: int|
        0 <= i < mgrs.len() implies cleanup_precedes_construction(mgrs[i].history) by {
        lemma_cleanup_order_at(mgrs, rs, i);
    }
}

proof fn lemma_continue_run_at<C, S>(
    mgrs: Seq<ManagerView<C, S>>,
    rs: Seq<Result<bool, String>>,
    i: int,
)
    requires
        mgrs.len() == rs.len() + 1,
        forall|j: int|
            0 <= j < rs.len() ==> #[trigger] pass_transition(mgrs[j], mgrs[j + 1], rs[j]),
        forall|j: int| 0 <= j < rs.len() ==> #[trigger] continued_step(mgrs[j], mgrs[j + 1]),
        0 <= i < rs.len(),
    ensures
        rs[i] == Ok::<bool, String>(true),
        mgrs[i + 1].is_active,
        mgrs[i + 1].history == mgrs[0].history + Seq::new(
            (i + 1) as nat,
            |j: int| StateLifecycleEvent::Advanced,
        ),
    decreases i,
{
    assert(pass_transition(mgrs[i], mgrs[i + 1], rs[i]));
    assert(continued_step(mgrs[i], mgrs[i + 1]));
    assert(mgrs[i + 1].history.len() == mgrs[i].history.len() + 1);
    if i == 0 {
        assert(mgrs[1].history =~= mgrs[0].history + Seq::new(
            1nat,
            |j: int| StateLifecycleEvent::Advanced,
        ));
    } else {
        lemma_continue_run_at(mgrs, rs, i - 1);
        assert(mgrs[i + 1].history =~= mgrs[0].history + Seq::new(
            (i + 1) as nat,
            |j: int| StateLifecycleEvent::Advanced,
        ));
    }
}

/// Law: along a run in which every pass only advanced the active state — the
/// history grew by exactly one advance each time — every pass returned
/// `Ok(true)`, the manager stayed active, and no state was ever terminated or
/// constructed: the state produced by the initial constructor is still the
/// active one.
pub proof fn lemma_continue_run_keeps_state<C, S>(
    mgrs: Seq<ManagerView<C, S>>,
    rs: Seq<Result<bool, String>>,
)
    requires
        mgrs.len() == rs.len() + 1,
        forall|j: int|
            0 <= j < rs.len() ==> #[trigger] pass_transition(mgrs[j], mgrs[j + 1], rs[j]),
        forall|j: int| 0 <= j < rs.len() ==> #[trigger] continued_step(mgrs[j], mgrs[j + 1]),
    ensures
        forall|i: int|
            0 <= i < rs.len() ==> rs[i] == Ok::<bool, String>(true) && mgrs[i + 1].is_active,
        mgrs[mgrs.len() - 1].history == mgrs[0].history + Seq::new(
            rs.len(),
            |j: int| StateLifecycleEvent::Advanced,
        ),
{
    assert forall|i: int|
        0 <= i < rs.len() implies rs[i] == Ok::<bool, String>(true) && mgrs[i
        + 1].is_active by {
        lemma_continue_run_at(mgrs, rs, i);
    }
    if rs.len() == 0 {
        assert(mgrs[0].history =~= mgrs[0].history + Seq::new(
            0nat,
            |j: int| StateLifecycleEvent::Advanced,
        ));
    } else {
        let last: int = rs.len() - 1;
        lemma_continue_run_at(mgrs, rs, last);
        assert((last + 1) as nat == rs.len());
    }
}

} // verus!
