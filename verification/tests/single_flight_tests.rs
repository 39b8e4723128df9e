use std::rc::Rc;
use message_dispatch::single_flight::{
    new_local, new_shared, poll_finished, poll_runner, poll_unpolled, poll_waiter, InnerProgress,
    LocalState, PollOutcome, SharedState,
};

/// Drives `n` handles of one single-flight computation through a cooperative
/// interleaving: every handle polls once, the runner is re-polled while the
/// computation is still pending, waiters are re-polled with fresh wakers,
/// and finally the runner completes the computation.  Counts how often the
/// computation completes and collects what every handle observed.
fn simulate(n: usize) {
    let mut shared: SharedState<u32, i32> = new_shared();
    let mut locals: Vec<LocalState<i32>> = Vec::new();
    for _ in 0..n {
        locals.push(new_local());
    }
    let mut executions: u32 = 0;

    // Round one: every handle polls for the first time.  The first becomes
    // the runner; every other joins the wake list.
    for (i, local) in locals.iter_mut().enumerate() {
        match poll_unpolled(local, &mut shared, i as u32) {
            PollOutcome::Pending => {},
            PollOutcome::Ready(_) => panic!("nothing can be ready yet"),
        }
    }
    assert!(matches!(locals[0], LocalState::Runner));
    for (i, local) in locals.iter().enumerate().skip(1) {
        match local {
            LocalState::Waiter(slot) => assert_eq!(*slot, i - 1),
            _ => panic!("handle {} should be a waiter", i),
        }
    }

    // The runner drives the computation; it suspends once before finishing.
    match poll_runner(&mut locals[0], &mut shared, InnerProgress::StillPending) {
        (PollOutcome::Pending, woken) => assert!(woken.is_empty()),
        _ => panic!("a suspended computation reports pending"),
    }

    // A waiter re-polled while the computation still runs refreshes its own
    // wake callback and stays pending.
    if n > 1 {
        match poll_waiter(&mut locals[1], &mut shared, 100) {
            PollOutcome::Pending => {},
            PollOutcome::Ready(_) => panic!("still running"),
        }
        match &shared {
            SharedState::Running(wakers) => assert_eq!(wakers[0], 100),
            _ => panic!("still running"),
        }
    }

    // The computation completes: exactly one execution, and every
    // registered waker comes back to be woken.
    executions += 1;
    let woken = match poll_runner(&mut locals[0], &mut shared, InnerProgress::Done(7)) {
        (PollOutcome::Ready(v), woken) => {
            assert_eq!(*v, 7);
            woken
        },
        _ => panic!("a completed computation reports ready"),
    };
    assert_eq!(woken.len(), n - 1);

    // Every woken waiter re-polls and adopts the shared result; a second
    // look at any handle takes the lock-free cached path.
    let mut results: Vec<Rc<i32>> = Vec::new();
    results.push(poll_finished(&locals[0]));
    for local in locals.iter_mut().skip(1) {
        match poll_waiter(local, &mut shared, 0) {
            PollOutcome::Ready(v) => results.push(v),
            PollOutcome::Pending => panic!("the result is available"),
        }
    }
    for local in locals.iter() {
        results.push(poll_finished(local));
    }

    assert_eq!(executions, 1);
    assert_eq!(results.len(), 2 * n);
    for r in results {
        assert_eq!(*r, 7);
    }
}

#[test]
fn one_poller_runs_the_computation_once() {
    simulate(1);
}

#[test]
fn two_pollers_share_one_execution() {
    simulate(2);
}

#[test]
fn fifty_pollers_share_one_execution() {
    simulate(50);
}

#[test]
fn late_poller_adopts_a_finished_result_on_first_poll() {
    let mut shared: SharedState<u32, i32> = new_shared();
    let mut first: LocalState<i32> = new_local();
    assert!(matches!(poll_unpolled(&mut first, &mut shared, 0), PollOutcome::Pending));
    match poll_runner(&mut first, &mut shared, InnerProgress::Done(5)) {
        (PollOutcome::Ready(v), woken) => {
            assert_eq!(*v, 5);
            assert!(woken.is_empty());
        },
        _ => panic!("completion reports ready"),
    }
    // A handle that first polls after completion sees the cached result at
    // once and never touches the computation.
    let mut late: LocalState<i32> = new_local();
    match poll_unpolled(&mut late, &mut shared, 9) {
        PollOutcome::Ready(v) => assert_eq!(*v, 5),
        PollOutcome::Pending => panic!("the result is available"),
    }
    assert_eq!(*poll_finished(&late), 5);
}

#[test]
fn cloning_a_handle_copies_its_view() {
    let shared: SharedState<u32, i32> = new_shared();
    let unpolled: LocalState<i32> = new_local();
    assert!(matches!(unpolled.clone(), LocalState::UnPolled));
    let mut shared = shared;
    let mut handle: LocalState<i32> = new_local();
    let _ = poll_unpolled(&mut handle, &mut shared, 0);
    let _ = poll_runner(&mut handle, &mut shared, InnerProgress::Done(3));
    match handle.clone() {
        LocalState::Finished(v) => assert_eq!(*v, 3),
        _ => panic!("a finished view clones finished"),
    }
}
