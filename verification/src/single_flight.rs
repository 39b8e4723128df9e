//! The single-flight shared-future state machine.
//!
//! One expensive one-shot computation is shared by arbitrarily many
//! concurrent observers: the computation runs at most once, and every
//! observer that polls to completion sees the same result.  The shared
//! completion state ([`SharedState`]) lives behind the embedder's mutex; each
//! handle additionally tracks its own local view ([`LocalState`]).  The four
//! step functions below are the whole poll protocol: the embedder's `poll`
//! locks the shared state (except on the two lock-free paths), calls the
//! step for its handle's local view, wakes the wakers handed back, and
//! drives the inner computation only when its handle holds the runner role.
//!
//! The protocol's guarantees are stated as the invariant [`sys_inv`] over
//! all live handles and proved of every step.
//!
//! The runner role never migrates: abandoning the handle that holds it while
//! the computation is still pending stalls every waiter permanently.  An
//! embedder must keep polling the runner until completion; dropping it is
//! disallowed rather than recovered from.

use vstd::prelude::*;
use std::rc::Rc;

verus! {

/// The shared completion state of one single-flight computation: not started
/// yet, running with the wake callbacks of the waiting handles, or finished
/// with the shared result.
pub enum SharedState<W, T> {
    NotStarted,
    Running(Vec<W>),
    Finished(Rc<T>),
}

/// One handle's local view of the computation: never polled; the handle
/// driving the computation; a waiter registered at a slot of the shared wake
/// list; or finished with the shared result.
pub enum LocalState<T> {
    UnPolled,
    Runner,
    Waiter(usize),
    Finished(Rc<T>),
}

/// What one poll step reports to its caller.
pub enum PollOutcome<T> {
    /// The computation is complete; this is the shared result.
    Ready(Rc<T>),
    /// Not ready yet.
    Pending,
}

/// What driving the inner computation one step produced.  Only the runner
/// ever drives it.
pub enum InnerProgress<T> {
    /// The computation completed with this value.
    Done(T),
    /// The computation suspended again.
    StillPending,
}

/// Relies on alloc::rc::Rc::clone: the clone is a handle to the same
/// allocation, so it carries the same value.
#[verifier::external_body]
fn rc_clone<T>(rc: &Rc<T>) -> (r: Rc<T>)
    ensures
        r == *rc,
{
    Rc::clone(rc)
}

/// A fresh shared state: the computation has not started.
pub fn new_shared<W, T>() -> (s: SharedState<W, T>)
    ensures
        s is NotStarted,
{
    SharedState::NotStarted
}

/// A fresh handle's local view: never polled.
pub fn new_local<T>() -> (l: LocalState<T>)
    ensures
        l is UnPolled,
{
    LocalState::UnPolled
}

impl<T> Clone for LocalState<T> {
    /// A copy of this handle's local view, sharing the result when finished.
    /// A handle is cloned before it is first polled; copying the runner or a
    /// waiter view duplicates that role and leaves the poll protocol.
    fn clone(&self) -> (res: Self)
        ensures
            res == *self,
    {
        match self {
            LocalState::UnPolled => LocalState::UnPolled,
            LocalState::Runner => LocalState::Runner,
            LocalState::Waiter(slot) => LocalState::Waiter(*slot),
            LocalState::Finished(v) => LocalState::Finished(rc_clone(v)),
        }
    }
}

/// Well-formedness of one handle's local view against the shared state: the
/// runner exists only while the computation runs, a waiter's slot indexes
/// the wake list, and a locally finished handle carries the shared result.
pub open spec fn pair_wf<W, T>(local: LocalState<T>, shared: SharedState<W, T>) -> bool {
    match local {
        LocalState::UnPolled => true,
        LocalState::Runner => shared is Running,
        LocalState::Waiter(slot) => match shared {
            SharedState::NotStarted => false,
            SharedState::Running(ws) => slot < ws@.len(),
            SharedState::Finished(_) => true,
        },
        LocalState::Finished(v) => shared matches SharedState::Finished(w) && v == w,
    }
}

/// What a first poll does, as a relation between the states before and
/// after: start running and become the runner; or join the wake list as a
/// waiter; or adopt the finished result.
pub open spec fn unpolled_step<W, T>(
    s0: SharedState<W, T>,
    l1: LocalState<T>,
    s1: SharedState<W, T>,
    r: PollOutcome<T>,
    waker: W,
) -> bool {
    match s0 {
        SharedState::NotStarted => {
            &&& s1 matches SharedState::Running(ws) && ws@ =~= Seq::<W>::empty()
            &&& l1 is Runner
            &&& r is Pending
        },
        SharedState::Running(ws0) => {
            &&& s1 matches SharedState::Running(ws) && ws@ == ws0@.push(waker)
            &&& l1 matches LocalState::Waiter(slot) && slot == ws0@.len()
            &&& r is Pending
        },
        SharedState::Finished(v) => {
            &&& s1 == s0
            &&& l1 matches LocalState::Finished(w) && w == v
            &&& r matches PollOutcome::Ready(u) && u == v
        },
    }
}

/// What a waiter's re-poll does: refresh the wake callback at its own slot,
/// or adopt the finished result.
pub open spec fn waiter_step<W, T>(
    l0: LocalState<T>,
    s0: SharedState<W, T>,
    l1: LocalState<T>,
    s1: SharedState<W, T>,
    r: PollOutcome<T>,
    waker: W,
) -> bool {
    match s0 {
        SharedState::NotStarted => false,
        SharedState::Running(ws0) => {
            &&& l0 matches LocalState::Waiter(slot)
            &&& s1 matches SharedState::Running(ws) && ws@ == ws0@.update(slot as int, waker)
            &&& l1 == l0
            &&& r is Pending
        },
        SharedState::Finished(v) => {
            &&& s1 == s0
            &&& l1 matches LocalState::Finished(w) && w == v
            &&& r matches PollOutcome::Ready(u) && u == v
        },
    }
}

/// What the runner's poll does, given what driving the inner computation
/// produced: on completion, publish the result, leave the runner role, and
/// hand back every registered waker to be woken; otherwise change nothing.
pub open spec fn runner_step<W, T>(
    s0: SharedState<W, T>,
    l1: LocalState<T>,
    s1: SharedState<W, T>,
    r: PollOutcome<T>,
    woken: Seq<W>,
    progress: InnerProgress<T>,
) -> bool {
    match progress {
        InnerProgress::StillPending => {
            &&& l1 is Runner
            &&& s1 == s0
            &&& r is Pending
            &&& woken =~= Seq::<W>::empty()
        },
        InnerProgress::Done(t) => {
            &&& s1 matches SharedState::Finished(v) && v == t
            &&& l1 matches LocalState::Finished(w) && w == t
            &&& r matches PollOutcome::Ready(u) && u == t
            &&& s0 matches SharedState::Running(ws0) && woken == ws0@
        },
    }
}

/// The fast path: a locally finished handle returns the cached result with
/// no lock taken and no state changed.
pub fn poll_finished<T>(local: &LocalState<T>) -> (r: Rc<T>)
    requires
        local is Finished,
    ensures
        local matches LocalState::Finished(v) && r == v,
{
    match local {
        LocalState::Finished(v) => rc_clone(v),
        _ => {
            proof {
                assert(false);
            }
            unreached()
        },
    }
}

/// A handle's first poll, under the shared-state lock.
pub fn poll_unpolled<W, T>(
    local: &mut LocalState<T>,
    shared: &mut SharedState<W, T>,
    waker: W,
) -> (r: PollOutcome<T>)
    requires
        *old(local) is UnPolled,
    ensures
        unpolled_step(*old(shared), *final(local), *final(shared), r, waker),
{
    match shared {
        SharedState::NotStarted => {
            *shared = SharedState::Running(Vec::new());
            *local = LocalState::Runner;
            PollOutcome::Pending
        },
        SharedState::Running(ws) => {
            let slot = ws.len();
            ws.push(waker);
            *local = LocalState::Waiter(slot);
            PollOutcome::Pending
        },
        SharedState::Finished(v) => {
            let out = rc_clone(v);
            *local = LocalState::Finished(rc_clone(&out));
            PollOutcome::Ready(out)
        },
    }
}

/// A waiter's re-poll, under the shared-state lock.  While the computation
/// still runs, the wake callback at this handle's own slot is replaced by
/// the latest one, so a handle re-polled from a different task is woken at
/// the right place.
pub fn poll_waiter<W, T>(
    local: &mut LocalState<T>,
    shared: &mut SharedState<W, T>,
    waker: W,
) -> (r: PollOutcome<T>)
    requires
        *old(local) is Waiter,
        pair_wf(*old(local), *old(shared)),
    ensures
        waiter_step(*old(local), *old(shared), *final(local), *final(shared), r, waker),
{
    let slot = match local {
        LocalState::Waiter(s) => *s,
        _ => {
            proof {
                assert(false);
            }
            unreached()
        },
    };
    match shared {
        SharedState::NotStarted => {
            proof {
                assert(false);
            }
            unreached()
        },
        SharedState::Running(ws) => {
            ws.set(slot, waker);
            PollOutcome::Pending
        },
        SharedState::Finished(v) => {
            let out = rc_clone(v);
            *local = LocalState::Finished(rc_clone(&out));
            PollOutcome::Ready(out)
        },
    }
}

/// The runner's poll, entered after driving the inner computation one step
/// with no lock held; this function is then called under the shared-state
/// lock.  On completion it publishes the result and hands back the whole
/// wake list: the caller wakes every waiter exactly once, after releasing
/// the lock.
pub fn poll_runner<W, T>(
    local: &mut LocalState<T>,
    shared: &mut SharedState<W, T>,
    progress: InnerProgress<T>,
) -> (r: (PollOutcome<T>, Vec<W>))
    requires
        *old(local) is Runner,
        pair_wf(*old(local), *old(shared)),
    ensures
        runner_step(*old(shared), *final(local), *final(shared), r.0, r.1@, progress),
{
    match progress {
        InnerProgress::StillPending => (PollOutcome::Pending, Vec::new()),
        InnerProgress::Done(t) => {
            let rc = Rc::new(t);
            let mut taken: SharedState<W, T> = SharedState::Finished(rc_clone(&rc));
            core::mem::swap(shared, &mut taken);
            let wakers = match taken {
                SharedState::Running(ws) => ws,
                _ => {
                    proof {
                        assert(false);
                    }
                    unreached()
                },
            };
            *local = LocalState::Finished(rc_clone(&rc));
            (PollOutcome::Ready(rc), wakers)
        },
    }
}

/// How many of the handles hold the runner role.
pub open spec fn runners_count<T>(locals: Seq<LocalState<T>>) -> int
    decreases locals.len(),
{
    if locals.len() == 0 {
        0
    } else {
        runners_count(locals.drop_last()) + if locals.last() is Runner {
            1int
        } else {
            0int
        }
    }
}

/// The single-flight system invariant over every live handle: each handle's
/// view is well-formed against the shared state, at most one handle at a
/// time ever holds the runner role, and before the first poll no handle
/// claims any role.
pub open spec fn sys_inv<W, T>(locals: Seq<LocalState<T>>, shared: SharedState<W, T>) -> bool {
    &&& forall|i: int| 0 <= i < locals.len() ==> pair_wf(#[trigger] locals[i], shared)
    &&& runners_count(locals) <= 1
    &&& shared is NotStarted ==> forall|i: int|
        0 <= i < locals.len() ==> (#[trigger] locals[i]) is UnPolled
}

/// A fresh system satisfies the invariant.
pub proof fn lemma_new_system_inv<W, T>(locals: Seq<LocalState<T>>, shared: SharedState<W, T>)
    requires
        shared is NotStarted,
        forall|i: int| 0 <= i < locals.len() ==> (#[trigger] locals[i]) is UnPolled,
    ensures
        sys_inv(locals, shared),
{
    lemma_runners_count_no_runner(locals);
}

/// A handle set without a runner counts zero runners.
proof fn lemma_runners_count_no_runner<T>(locals: Seq<LocalState<T>>)
    requires
        forall|i: int| 0 <= i < locals.len() ==> !((#[trigger] locals[i]) is Runner),
    ensures
        runners_count(locals) == 0,
    decreases locals.len(),
{
    if locals.len() > 0 {
        lemma_runners_count_no_runner(locals.drop_last());
    }
}

/// Changing one handle's view changes the runner count by exactly the
/// difference that handle contributes.
proof fn lemma_runners_count_update<T>(locals: Seq<LocalState<T>>, i: int, v: LocalState<T>)
    requires
        0 <= i < locals.len(),
    ensures
        runners_count(locals.update(i, v)) == runners_count(locals) - (
        if locals[i] is Runner {
            1int
        } else {
            0int
        }) + (
        if v is Runner {
            1int
        } else {
            0int
        }),
    decreases locals.len(),
{
    let n = locals.len() as int;
    if i == n - 1 {
        assert(locals.update(i, v).drop_last() =~= locals.drop_last());
    } else {
        assert(locals.update(i, v).drop_last() =~= locals.drop_last().update(i, v));
        lemma_runners_count_update(locals.drop_last(), i, v);
    }
}

/// Each handle's runner-role contribution is bounded by the whole count.
proof fn lemma_runners_count_at_least<T>(locals: Seq<LocalState<T>>, i: int)
    requires
        0 <= i < locals.len(),
        locals[i] is Runner,
    ensures
        runners_count(locals) >= 1,
    decreases locals.len(),
{
    if i == locals.len() - 1 {
        lemma_runners_count_nonneg(locals.drop_last());
    } else {
        lemma_runners_count_at_least(locals.drop_last(), i);
    }
}

/// The runner count is never negative.
proof fn lemma_runners_count_nonneg<T>(locals: Seq<LocalState<T>>)
    ensures
        runners_count(locals) >= 0,
    decreases locals.len(),
{
    if locals.len() > 0 {
        lemma_runners_count_nonneg(locals.drop_last());
    }
}

/// Law: a handle's first poll preserves the system invariant, whichever of
/// its three transitions it takes.
pub proof fn lemma_unpolled_step_preserves_inv<W, T>(
    pre: Seq<LocalState<T>>,
    pre_s: SharedState<W, T>,
    post: Seq<LocalState<T>>,
    post_s: SharedState<W, T>,
    outcome: PollOutcome<T>,
    i: int,
    waker: W,
)
    requires
        sys_inv(pre, pre_s),
        0 <= i < pre.len(),
        pre[i] is UnPolled,
        post.len() == pre.len(),
        forall|j: int| 0 <= j < pre.len() && j != i ==> post[j] == #[trigger] pre[j],
        unpolled_step(pre_s, post[i], post_s, outcome, waker),
    ensures
        sys_inv(post, post_s),
{
    assert(post =~= pre.update(i, post[i]));
    lemma_runners_count_update(pre, i, post[i]);
    match pre_s {
        SharedState::NotStarted => {
            lemma_runners_count_no_runner(pre);
            assert forall|j: int| 0 <= j < post.len() implies pair_wf(
                #[trigger] post[j],
                post_s,
            ) by {
                if j != i {
                    assert(pre[j] is UnPolled);
                }
            }
        },
        SharedState::Running(ws0) => {
            assert forall|j: int| 0 <= j < post.len() implies pair_wf(
                #[trigger] post[j],
                post_s,
            ) by {
                assert(pair_wf(pre[j], pre_s));
            }
        },
        SharedState::Finished(v) => {
            assert(post_s == pre_s);
            assert forall|j: int| 0 <= j < post.len() implies pair_wf(
                #[trigger] post[j],
                post_s,
            ) by {
                assert(pair_wf(pre[j], pre_s));
            }
        },
    }
}

/// Law: a waiter's re-poll preserves the system invariant; it never takes
/// the runner role and never changes the result.
pub proof fn lemma_waiter_step_preserves_inv<W, T>(
    pre: Seq<LocalState<T>>,
    pre_s: SharedState<W, T>,
    post: Seq<LocalState<T>>,
    post_s: SharedState<W, T>,
    outcome: PollOutcome<T>,
    i: int,
    waker: W,
)
    requires
        sys_inv(pre, pre_s),
        0 <= i < pre.len(),
        pre[i] is Waiter,
        post.len() == pre.len(),
        forall|j: int| 0 <= j < pre.len() && j != i ==> post[j] == #[trigger] pre[j],
        waiter_step(pre[i], pre_s, post[i], post_s, outcome, waker),
    ensures
        sys_inv(post, post_s),
{
    assert(post =~= pre.update(i, post[i]));
    lemma_runners_count_update(pre, i, post[i]);
    assert forall|j: int| 0 <= j < post.len() implies pair_wf(#[trigger] post[j], post_s) by {
        assert(pair_wf(pre[j], pre_s));
    }
}

/// Law: the runner's poll preserves the system invariant; on completion the
/// runner role disappears, the result is published once, and every waiter's
/// wake callback is handed back exactly as registered.
pub proof fn lemma_runner_step_preserves_inv<W, T>(
    pre: Seq<LocalState<T>>,
    pre_s: SharedState<W, T>,
    post: Seq<LocalState<T>>,
    post_s: SharedState<W, T>,
    outcome: PollOutcome<T>,
    woken: Seq<W>,
    i: int,
    progress: InnerProgress<T>,
)
    requires
        sys_inv(pre, pre_s),
        0 <= i < pre.len(),
        pre[i] is Runner,
        post.len() == pre.len(),
        forall|j: int| 0 <= j < pre.len() && j != i ==> post[j] == #[trigger] pre[j],
        runner_step(pre_s, post[i], post_s, outcome, woken, progress),
    ensures
        sys_inv(post, post_s),
{
    assert(post =~= pre.update(i, post[i]));
    lemma_runners_count_update(pre, i, post[i]);
    match progress {
        InnerProgress::StillPending => {
            assert(post =~= pre);
        },
        InnerProgress::Done(t) => {
            assert forall|j: int| 0 <= j < post.len() implies pair_wf(
                #[trigger] post[j],
                post_s,
            ) by {
                if j != i {
                    assert(pair_wf(pre[j], pre_s));
                    if pre[j] is Runner {
                        lemma_runner_unique(pre, i, j);
                    }
                }
            }
        },
    }
}

/// Law: the runner role is exclusive.  Under the invariant's runner bound,
/// any two handles holding it are one and the same.
pub proof fn lemma_runner_unique<T>(locals: Seq<LocalState<T>>, i: int, j: int)
    requires
        0 <= i < locals.len(),
        0 <= j < locals.len(),
        locals[i] is Runner,
        locals[j] is Runner,
        runners_count(locals) <= 1,
    ensures
        i == j,
{
    if i != j {
        lemma_runners_count_update(locals, i, LocalState::UnPolled);
        lemma_runners_count_at_least(locals.update(i, LocalState::UnPolled), j);
    }
}

/// Law: the result is computed at most once and shared.  Under the
/// invariant, any two handles that reached their local finished view hold
/// the same value, and it is the published shared result.
pub proof fn lemma_agreement<W, T>(
    locals: Seq<LocalState<T>>,
    shared: SharedState<W, T>,
    i: int,
    j: int,
)
    requires
        sys_inv(locals, shared),
        0 <= i < locals.len(),
        0 <= j < locals.len(),
        locals[i] is Finished,
        locals[j] is Finished,
    ensures
        locals[i] == locals[j],
        shared matches SharedState::Finished(v) && locals[i] == LocalState::Finished(v),
{
    assert(pair_wf(locals[i], shared));
    assert(pair_wf(locals[j], shared));
}

/// Law: once the computation has finished, no step changes the shared state
/// again: the result is never recomputed and every later poll observes it.
pub proof fn lemma_finished_is_stable<W, T>(
    l0: LocalState<T>,
    s0: SharedState<W, T>,
    l1: LocalState<T>,
    s1: SharedState<W, T>,
    outcome: PollOutcome<T>,
    woken: Seq<W>,
    waker: W,
    progress: InnerProgress<T>,
)
    requires
        s0 is Finished,
        unpolled_step(s0, l1, s1, outcome, waker) || waiter_step(l0, s0, l1, s1, outcome, waker)
            || (l0 is Runner && runner_step(s0, l1, s1, outcome, woken, progress)),
    ensures
        s1 == s0,
        outcome matches PollOutcome::Ready(u) ==> (s0 matches SharedState::Finished(v) && u == v),
{
    if l0 is Runner && runner_step(s0, l1, s1, outcome, woken, progress) {
        match progress {
            InnerProgress::StillPending => {},
            InnerProgress::Done(t) => {
                assert(s0 is Running);
            },
        }
    }
}

} // verus!
