use message_dispatch::context::{AnyMessage, Context, ContextConfig, LoopAction, MAILBOX_CAPACITY};
use message_dispatch::dispatch::{CtxHandle, MailboxControl};
use message_dispatch::example_handlers::Config;
use message_dispatch::handlers::Handler;
use message_dispatch::mailbox::{Deferred, DispatchError, TryRecvOutcome};
use message_dispatch::messages::{
    messages, Add1, Add2, ExitProgram, GetExampleInitValue, NoResponse, Times3,
};
use message_dispatch::example_handlers::ArithmeticHandler;

fn fresh_context() -> Context {
    Context::new(ContextConfig { arithmetic: Config { hello: false } }).unwrap()
}

#[test]
fn direct_add1_yields_two() {
    let context = fresh_context();
    assert_eq!(context.handle(Add1 { x: 1 }), Ok(2));
}

#[test]
fn mailbox_add1_yields_two() {
    let context = fresh_context();
    let proxy = context.proxy();
    let reply = proxy.request_add1(Add1 { x: 1 }).unwrap();
    proxy.quit();
    let processed = context.run_until_closed(u64::MAX);
    assert_eq!(processed, 1);
    assert_eq!(reply.wait(), Ok(2));
}

#[test]
fn direct_add2_composes_two_add1() {
    let context = fresh_context();
    assert_eq!(context.handle(Add2 { x: 1 }), Ok(3));
}

#[test]
fn mailbox_add2_yields_three() {
    let context = fresh_context();
    let proxy = context.proxy();
    let reply = proxy.request_add2(Add2 { x: 1 }).unwrap();
    proxy.quit();
    assert_eq!(context.run_until_closed(u64::MAX), 1);
    assert_eq!(reply.wait(), Ok(3));
}

#[test]
fn direct_times3_is_immediate() {
    let context = fresh_context();
    match context.handle(Times3 { x: 3 }) {
        Ok(Deferred::Ready(v)) => assert_eq!(v, 9),
        _ => panic!("expected an immediate response"),
    }
}

#[test]
fn mailbox_times3_is_deferred() {
    let context = fresh_context();
    let proxy = context.proxy();
    let deferred = match proxy.handle(Times3 { x: -4 }) {
        Ok(Deferred::Pending(reply)) => reply,
        _ => panic!("expected a deferred response"),
    };
    proxy.quit();
    assert_eq!(context.run_until_closed(u64::MAX), 1);
    assert_eq!(deferred.wait(), Ok(-12));
}

#[test]
fn direct_get_example_init_value_is_42() {
    let context = fresh_context();
    assert_eq!(context.handle(GetExampleInitValue {}), Ok(42));
}

#[test]
fn fire_and_forget_returns_before_the_loop_runs() {
    let context = fresh_context();
    let proxy = context.proxy();
    // The loop has not run at all, yet the send already returned.
    assert_eq!(proxy.post_no_response(NoResponse { x: 102 }), Ok(()));
    proxy.quit();
    // The effect is observed once the loop processes the mailbox.
    assert_eq!(context.run_until_closed(u64::MAX), 1);
}

#[test]
fn closing_lets_queued_work_finish_and_rejects_later_sends() {
    let context = fresh_context();
    let proxy = context.proxy();
    let deferred = proxy.request_times3(Times3 { x: 5 }).unwrap();
    assert_eq!(proxy.post_no_response(NoResponse { x: 7 }), Ok(()));
    proxy.quit();
    // A send after shutdown is rejected with the shutdown signal, not
    // silently dropped.
    assert_eq!(
        proxy.post_no_response(NoResponse { x: 8 }),
        Err(DispatchError::MailboxClosed)
    );
    match proxy.request_add1(Add1 { x: 1 }) {
        Err(DispatchError::MailboxClosed) => {},
        _ => panic!("expected MailboxClosed"),
    }
    // Both messages queued before the close still run to completion.
    assert_eq!(context.run_until_closed(u64::MAX), 2);
    assert_eq!(deferred.wait(), Ok(15));
}

#[test]
fn exit_request_closes_the_mailbox() {
    let context = fresh_context();
    let proxy = context.proxy();
    match context.handle(ExitProgram { code: 0 }) {
        Ok(Deferred::Ready(())) => {},
        _ => panic!("expected an immediate confirmation"),
    }
    assert_eq!(
        proxy.post_no_response(NoResponse { x: 1 }),
        Err(DispatchError::MailboxClosed)
    );
}

#[test]
fn exit_request_through_the_mailbox() {
    let context = fresh_context();
    let proxy = context.proxy();
    let confirmation = proxy.request_exit_program(ExitProgram { code: 3 }).unwrap();
    // The exit request itself is processed, closes the mailbox, and later
    // messages are not accepted.
    assert_eq!(context.run_until_closed(u64::MAX), 1);
    assert_eq!(confirmation.wait(), Ok(()));
    assert_eq!(
        proxy.post_no_response(NoResponse { x: 1 }),
        Err(DispatchError::MailboxClosed)
    );
}

#[test]
fn full_mailbox_fails_fast_for_synchronous_sends() {
    let context = fresh_context();
    let proxy = context.proxy();
    let mut replies = Vec::new();
    for i in 0..MAILBOX_CAPACITY {
        replies.push(proxy.request_add1(Add1 { x: i as i32 }).unwrap());
    }
    match proxy.request_add1(Add1 { x: 0 }) {
        Err(DispatchError::MailboxFull) => {},
        _ => panic!("expected MailboxFull"),
    }
    // Draining the mailbox answers every queued request in send order.
    proxy.quit();
    assert_eq!(context.run_until_closed(u64::MAX), MAILBOX_CAPACITY as u64);
    for (i, reply) in replies.into_iter().enumerate() {
        assert_eq!(reply.wait(), Ok(i as i32 + 1));
    }
}

#[test]
fn dropped_runtime_is_a_fault_for_the_waiting_call_only() {
    let context = fresh_context();
    let proxy = context.proxy();
    let reply = proxy.request_add1(Add1 { x: 1 }).unwrap();
    // Both ends gone: the queued message, and with it the reply channel, is
    // discarded unanswered.
    drop(context);
    drop(proxy);
    assert_eq!(reply.wait(), Err(DispatchError::ReplyDropped));
}

#[test]
fn proxy_of_proxy_reaches_the_same_mailbox() {
    let context = fresh_context();
    let proxy = context.proxy().proxy();
    let second = proxy.clone();
    let reply = second.request_add1(Add1 { x: 41 }).unwrap();
    proxy.quit();
    assert_eq!(context.run_until_closed(u64::MAX), 1);
    assert_eq!(reply.wait(), Ok(42));
}

#[test]
fn loop_decision_follows_the_cooperative_rules() {
    match Context::next_action(false, TryRecvOutcome::Message(AnyMessage::NoResponse(NoResponse { x: 1 }))) {
        LoopAction::Dispatch(AnyMessage::NoResponse(m)) => assert_eq!(m.x, 1),
        _ => panic!("a delivered message is dispatched"),
    }
    assert!(matches!(Context::next_action(true, TryRecvOutcome::Empty), LoopAction::RunTask));
    assert!(matches!(Context::next_action(false, TryRecvOutcome::Empty), LoopAction::Wait));
    assert!(matches!(Context::next_action(true, TryRecvOutcome::Closed), LoopAction::RunTask));
    assert!(matches!(Context::next_action(false, TryRecvOutcome::Closed), LoopAction::Stop));
}

#[test]
fn handler_spec_restricts_declared_messages_to_the_context() {
    let universe = messages();
    let spec = ArithmeticHandler::get_handler_spec(&universe);
    assert_eq!(spec.name, "ArithmeticHandler");
    assert!(spec.has_init_config);
    let handled: Vec<&str> = spec.handled_messages.iter().map(|m| m.name.as_str()).collect();
    assert_eq!(handled, vec!["Add1", "Times3", "Add2", "NoResponse"]);
    let init: Vec<&str> = spec.init_requests.iter().map(|m| m.name.as_str()).collect();
    assert_eq!(init, vec!["GetExampleInitValue"]);
    // Against an empty declared universe nothing is kept.
    let nothing = ArithmeticHandler::get_handler_spec(&Vec::new());
    assert!(nothing.handled_messages.is_empty());
    assert!(nothing.init_requests.is_empty());
}

#[test]
fn blocking_proxy_call_across_threads() {
    let context = fresh_context();
    let proxy = context.proxy();
    // The caller blocks on another thread until the run loop answers.
    let call = smol::unblock(move || {
        let answer = proxy.handle(Add1 { x: 1 });
        proxy.quit();
        answer
    });
    assert_eq!(context.run_until_closed(u64::MAX), 1);
    assert_eq!(smol::block_on(call), Ok(2));
}
