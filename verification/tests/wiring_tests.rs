use message_dispatch::context::{Context, ContextConfig};
use message_dispatch::example_handlers::Config;
use message_dispatch::messages::{messages, MessageSpec};
use message_dispatch::wiring::{validate_wiring, HandlerSpec, WiringError};

fn msg(name: &str, has_response: bool) -> MessageSpec {
    MessageSpec { name: name.to_owned(), has_response, is_async: false }
}

fn handler(name: &str, handled: Vec<MessageSpec>, init: Vec<MessageSpec>) -> HandlerSpec {
    HandlerSpec {
        name: name.to_owned(),
        handled_messages: handled,
        init_requests: init,
        has_init_config: false,
    }
}

#[test]
fn registered_universe_constructs() {
    let context = Context::new(ContextConfig { arithmetic: Config { hello: true } });
    assert!(context.is_ok());
    let context = context.unwrap();
    assert_eq!(context.arithmetic().init_value, 42);
    assert!(context.arithmetic().hello);
}

#[test]
fn valid_declaration_order_validates() {
    let ms = vec![msg("Ping", true), msg("Pong", true), msg("Tick", false)];
    let hs = vec![
        handler("Pinger", vec![msg("Ping", true)], vec![]),
        handler("Ponger", vec![msg("Pong", true), msg("Tick", false)], vec![msg("Ping", true)]),
    ];
    assert!(validate_wiring(&ms, &hs).is_ok());
}

#[test]
fn each_handler_sees_only_earlier_providers() {
    // The same two handlers in the other order: the dependency now points
    // at a later handler and the wiring is rejected.
    let ms = vec![msg("Ping", true), msg("Pong", true)];
    let hs = vec![
        handler("Ponger", vec![msg("Pong", true)], vec![msg("Ping", true)]),
        handler("Pinger", vec![msg("Ping", true)], vec![]),
    ];
    match validate_wiring(&ms, &hs) {
        Err(WiringError::UnsatisfiedDependency { handler, message }) => {
            assert_eq!(handler, "Ponger");
            assert_eq!(message, "Ping");
        },
        other => panic!("expected UnsatisfiedDependency, got {:?}", other),
    }
}

#[test]
fn a_handler_does_not_satisfy_its_own_init_request() {
    let ms = vec![msg("Ping", true)];
    let hs = vec![handler("Selfish", vec![msg("Ping", true)], vec![msg("Ping", true)])];
    match validate_wiring(&ms, &hs) {
        Err(WiringError::UnsatisfiedDependency { handler, message }) => {
            assert_eq!(handler, "Selfish");
            assert_eq!(message, "Ping");
        },
        other => panic!("expected UnsatisfiedDependency, got {:?}", other),
    }
}

#[test]
fn zero_handlers_for_request_is_no_handler() {
    let ms = vec![msg("Ping", true)];
    let hs: Vec<HandlerSpec> = vec![];
    match validate_wiring(&ms, &hs) {
        Err(WiringError::NoHandler { message }) => assert_eq!(message, "Ping"),
        other => panic!("expected NoHandler, got {:?}", other),
    }
}

#[test]
fn two_handlers_for_request_is_multiple_handlers_naming_both() {
    let ms = vec![msg("Ping", true)];
    let hs = vec![
        handler("First", vec![msg("Ping", true)], vec![]),
        handler("Second", vec![msg("Ping", true)], vec![]),
    ];
    match validate_wiring(&ms, &hs) {
        Err(WiringError::MultipleHandlers { message, handlers }) => {
            assert_eq!(message, "Ping");
            assert_eq!(handlers, vec!["First".to_owned(), "Second".to_owned()]);
        },
        other => panic!("expected MultipleHandlers, got {:?}", other),
    }
}

#[test]
fn event_may_fan_out_to_many_handlers() {
    // A message without a response may be bound to zero or many handlers.
    let ms = vec![msg("Ping", true), msg("Tick", false)];
    let hs = vec![
        handler("Pinger", vec![msg("Ping", true), msg("Tick", false)], vec![]),
        handler("Watcher", vec![msg("Tick", false)], vec![]),
    ];
    assert!(validate_wiring(&ms, &hs).is_ok());
}

#[test]
fn init_request_must_be_a_request() {
    let ms = vec![msg("Ping", true), msg("Tick", false)];
    let hs = vec![
        handler("Pinger", vec![msg("Ping", true)], vec![]),
        handler("Late", vec![], vec![msg("Tick", false)]),
    ];
    match validate_wiring(&ms, &hs) {
        Err(WiringError::NotARequest { handler, message }) => {
            assert_eq!(handler, "Late");
            assert_eq!(message, "Tick");
        },
        other => panic!("expected NotARequest, got {:?}", other),
    }
}

#[test]
fn binding_faults_come_before_ordering_faults() {
    // One wiring with both kinds of fault: the binding fault, in message
    // order, wins.
    let ms = vec![msg("Ping", true), msg("Pong", true)];
    let hs = vec![handler("Ponger", vec![msg("Pong", true)], vec![msg("Pong", true)])];
    match validate_wiring(&ms, &hs) {
        Err(WiringError::NoHandler { message }) => assert_eq!(message, "Ping"),
        other => panic!("expected NoHandler, got {:?}", other),
    }
}

#[test]
fn registered_universe_lists_six_messages() {
    let ms = messages();
    let names: Vec<&str> = ms.iter().map(|m| m.name.as_str()).collect();
    assert_eq!(
        names,
        vec!["Add1", "Add2", "Times3", "GetExampleInitValue", "NoResponse", "ExitProgram"]
    );
    assert!(ms[0].has_response && !ms[0].is_async);
    assert!(ms[2].has_response && ms[2].is_async);
    assert!(!ms[4].has_response && ms[4].is_async);
}
