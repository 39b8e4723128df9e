//! The example handlers: arithmetic over the wired messages.
//!
//! [`SomeInitHandler`] answers the request other handlers use during their
//! own initialization; [`ArithmeticHandler`] answers the arithmetic requests
//! and shows composition (one request implemented in terms of two others)
//! and an initialization dependency; [`ExitHandler`] turns the shutdown
//! request into the defined shutdown signal, closing the mailbox.

use vstd::prelude::*;
use crate::dispatch::{CtxHandle, MailboxControl};
use crate::handlers::{DeclaredHandle, Handle, Handler, HandlerInit, filter_known, spec_filter_known};
use crate::mailbox::{Deferred, DispatchError};
use crate::messages::{
    Add1, Add2, ExitProgram, GetExampleInitValue, Message, MessageSpec, NoResponse, Times3,
    spec_msg_names, spec_msg_views,
};
use crate::wiring::{HandlerSpec, HandlerSpecV};

verus! {

/// Answers [`GetExampleInitValue`] with a fixed value; exists so that a later
/// handler has a request to depend on during its own initialization.
pub struct SomeInitHandler {}

impl Handler for SomeInitHandler {
    type InitConfig = ();

    open spec fn spec_handler(known: Seq<Seq<char>>) -> HandlerSpecV {
        HandlerSpecV {
            name: "SomeInitHandler"@,
            handled_messages: spec_filter_known(seq![GetExampleInitValue::spec_message()], known),
            init_requests: seq![],
            has_init_config: false,
        }
    }

    fn get_handler_spec(messages_in_context: &Vec<MessageSpec>) -> (s: HandlerSpec) {
        let mut declared: Vec<MessageSpec> = Vec::new();
        declared.push(GetExampleInitValue::get_message_spec());
        proof {
            assert(spec_msg_views(declared@) =~= seq![GetExampleInitValue::spec_message()]);
        }
        let s = HandlerSpec {
            name: "SomeInitHandler".to_owned(),
            handled_messages: filter_known(declared, messages_in_context),
            init_requests: Vec::new(),
            has_init_config: false,
        };
        proof {
            assert(spec_msg_views(s.init_requests@) =~= Seq::<
                crate::messages::MessageSpecV,
            >::empty());
            assert(s@ == Self::spec_handler(spec_msg_names(messages_in_context@)));
        }
        s
    }
}

impl<Ctx> HandlerInit<Ctx> for SomeInitHandler {
    open spec fn init_deps_ok(ctx: &Ctx) -> bool {
        true
    }

    fn init(_ctx: &Ctx, _config: ()) -> Self {
        SomeInitHandler {  }
    }
}

impl DeclaredHandle<GetExampleInitValue> for SomeInitHandler {

}

impl<Ctx> Handle<GetExampleInitValue, Ctx> for SomeInitHandler {
    open spec fn handle_deps_ok(ctx: &Ctx) -> bool {
        true
    }

    fn handle(&self, _ctx: &Ctx, message: GetExampleInitValue) -> (r: Result<
        i32,
        DispatchError,
    >)
        ensures
            r == Ok::<i32, DispatchError>(message.canonical_response()),
    {
        Ok(42)
    }
}

/// The configuration value the arithmetic handler is initialized with.
pub struct Config {
    pub hello: bool,
}

/// Answers the arithmetic requests.  Its initializer depends on
/// [`GetExampleInitValue`] being answerable by an earlier handler, and keeps
/// the answer; the embedder may report it together with the configuration.
pub struct ArithmeticHandler {
    /// The answer the handler received during its own initialization.
    pub init_value: i32,
    /// The configuration value the handler was initialized with.
    pub hello: bool,
}

impl Handler for ArithmeticHandler {
    type InitConfig = Config;

    open spec fn spec_handler(known: Seq<Seq<char>>) -> HandlerSpecV {
        HandlerSpecV {
            name: "ArithmeticHandler"@,
            handled_messages: spec_filter_known(
                seq![
                    Add1::spec_message(),
                    Times3::spec_message(),
                    Add2::spec_message(),
                    NoResponse::spec_message(),
                ],
                known,
            ),
            init_requests: spec_filter_known(seq![GetExampleInitValue::spec_message()], known),
            has_init_config: true,
        }
    }

    fn get_handler_spec(messages_in_context: &Vec<MessageSpec>) -> (s: HandlerSpec) {
        let mut declared: Vec<MessageSpec> = Vec::new();
        declared.push(Add1::get_message_spec());
        declared.push(Times3::get_message_spec());
        declared.push(Add2::get_message_spec());
        declared.push(NoResponse::get_message_spec());
        proof {
            assert(spec_msg_views(declared@) =~= seq![
                Add1::spec_message(),
                Times3::spec_message(),
                Add2::spec_message(),
                NoResponse::spec_message(),
            ]);
        }
        let mut init_declared: Vec<MessageSpec> = Vec::new();
        init_declared.push(GetExampleInitValue::get_message_spec());
        proof {
            assert(spec_msg_views(init_declared@) =~= seq![GetExampleInitValue::spec_message()]);
        }
        let s = HandlerSpec {
            name: "ArithmeticHandler".to_owned(),
            handled_messages: filter_known(declared, messages_in_context),
            init_requests: filter_known(init_declared, messages_in_context),
            has_init_config: true,
        };
        proof {
            assert(s@ == Self::spec_handler(spec_msg_names(messages_in_context@)));
        }
        s
    }
}

impl<Ctx: CtxHandle<GetExampleInitValue>> HandlerInit<Ctx> for ArithmeticHandler {
    open spec fn init_deps_ok(ctx: &Ctx) -> bool {
        <Ctx as CtxHandle<GetExampleInitValue>>::answers(ctx)
    }

    fn init(ctx: &Ctx, config: Config) -> (r: Self)
        ensures
            r.init_value == 42,
            r.hello == config.hello,
    {
        let init_value = match <Ctx as CtxHandle<GetExampleInitValue>>::handle(
            ctx,
            GetExampleInitValue {  },
        ) {
            Ok(v) => v,
            Err(_) => {
                proof {
                    assert(false);
                }
                unreached()
            },
        };
        ArithmeticHandler { init_value, hello: config.hello }
    }
}

impl DeclaredHandle<Add1> for ArithmeticHandler {

}

impl<Ctx> Handle<Add1, Ctx> for ArithmeticHandler {
    open spec fn handle_deps_ok(ctx: &Ctx) -> bool {
        true
    }

    fn handle(&self, _ctx: &Ctx, message: Add1) -> (r: Result<i32, DispatchError>)
        ensures
            r == Ok::<i32, DispatchError>(message.canonical_response()),
    {
        Ok(message.x + 1)
    }
}

impl DeclaredHandle<Times3> for ArithmeticHandler {

}

impl<Ctx> Handle<Times3, Ctx> for ArithmeticHandler {
    open spec fn handle_deps_ok(ctx: &Ctx) -> bool {
        true
    }

    fn handle(&self, _ctx: &Ctx, message: Times3) -> (r: Result<
        Deferred<i32>,
        DispatchError,
    >)
        ensures
            r matches Ok(d) && d == message.canonical_response(),
    {
        Ok(Deferred::Ready(message.x * 3))
    }
}

impl DeclaredHandle<Add2> for ArithmeticHandler {

}

impl<Ctx: CtxHandle<Add1>> Handle<Add2, Ctx> for ArithmeticHandler {
    open spec fn handle_deps_ok(ctx: &Ctx) -> bool {
        <Ctx as CtxHandle<Add1>>::answers(ctx)
    }

    fn handle(&self, ctx: &Ctx, message: Add2) -> (r: Result<i32, DispatchError>)
        ensures
            r == Ok::<i32, DispatchError>(message.canonical_response()),
    {
        let first = match <Ctx as CtxHandle<Add1>>::handle(ctx, Add1 { x: message.x }) {
            Ok(v) => v,
            Err(_) => {
                proof {
                    assert(false);
                }
                unreached()
            },
        };
        let second = match <Ctx as CtxHandle<Add1>>::handle(ctx, Add1 { x: first }) {
            Ok(v) => v,
            Err(_) => {
                proof {
                    assert(false);
                }
                unreached()
            },
        };
        Ok(second)
    }
}

impl DeclaredHandle<NoResponse> for ArithmeticHandler {

}

impl<Ctx> Handle<NoResponse, Ctx> for ArithmeticHandler {
    open spec fn handle_deps_ok(ctx: &Ctx) -> bool {
        true
    }

    /// The event carries no response; any delayed side effect, such as
    /// reporting the payload after a pause, is the embedder's, at the edge.
    fn handle(&self, _ctx: &Ctx, message: NoResponse) -> (r: Result<(), DispatchError>)
        ensures
            r == Ok::<(), DispatchError>(message.canonical_response()),
    {
        Ok(())
    }
}

/// Turns the [`ExitProgram`] request into the defined shutdown signal:
/// closing the mailbox.  Ending the surrounding process with the requested
/// code is the embedder's business, once the run loop has drained.
pub struct ExitHandler {}

impl Handler for ExitHandler {
    type InitConfig = ();

    open spec fn spec_handler(known: Seq<Seq<char>>) -> HandlerSpecV {
        HandlerSpecV {
            name: "ExitHandler"@,
            handled_messages: spec_filter_known(seq![ExitProgram::spec_message()], known),
            init_requests: seq![],
            has_init_config: false,
        }
    }

    fn get_handler_spec(messages_in_context: &Vec<MessageSpec>) -> (s: HandlerSpec) {
        let mut declared: Vec<MessageSpec> = Vec::new();
        declared.push(ExitProgram::get_message_spec());
        proof {
            assert(spec_msg_views(declared@) =~= seq![ExitProgram::spec_message()]);
        }
        let s = HandlerSpec {
            name: "ExitHandler".to_owned(),
            handled_messages: filter_known(declared, messages_in_context),
            init_requests: Vec::new(),
            has_init_config: false,
        };
        proof {
            assert(spec_msg_views(s.init_requests@) =~= Seq::<
                crate::messages::MessageSpecV,
            >::empty());
            assert(s@ == Self::spec_handler(spec_msg_names(messages_in_context@)));
        }
        s
    }
}

impl<Ctx> HandlerInit<Ctx> for ExitHandler {
    open spec fn init_deps_ok(ctx: &Ctx) -> bool {
        true
    }

    fn init(_ctx: &Ctx, _config: ()) -> Self {
        ExitHandler {  }
    }
}

impl DeclaredHandle<ExitProgram> for ExitHandler {

}

impl<Ctx: MailboxControl> Handle<ExitProgram, Ctx> for ExitHandler {
    open spec fn handle_deps_ok(ctx: &Ctx) -> bool {
        true
    }

    fn handle(&self, ctx: &Ctx, message: ExitProgram) -> (r: Result<
        Deferred<()>,
        DispatchError,
    >)
        ensures
            r matches Ok(d) && d == message.canonical_response(),
    {
        ctx.quit();
        Ok(Deferred::Ready(()))
    }
}

} // verus!
