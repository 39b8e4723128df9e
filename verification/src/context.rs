//! The wired runtime.
//!
//! [`Context`] owns exactly one instance of every declared handler, in a
//! fixed declaration order, and the receive end of the bounded mailbox.  It
//! is built once: construction first validates the wiring of the registered
//! universe, then initializes the handlers strictly in declaration order,
//! each against a restricted view ([`PartialContext`]) that answers only
//! requests already satisfiable by earlier handlers.  [`ContextProxy`] is
//! the cloneable, thread-safe handle that reaches the context from another
//! thread of control through the mailbox; [`AnyMessage`] is the tagged
//! union it enqueues.  The run loop's decision rule and a synchronous drain
//! of the mailbox live here as well.

use vstd::prelude::*;
use crate::dispatch::{C, CtxHandle, MailboxControl};
use crate::example_handlers::{ArithmeticHandler, Config, ExitHandler, SomeInitHandler};
use crate::handlers::{Handle, Handler, HandlerInit};
use crate::mailbox::{
    channel_bounded, channel_close, channel_recv_blocking, channel_send_blocking,
    channel_sender_clone, channel_try_send, reply_channel, reply_send, Deferred, DispatchError,
    PendingReply, RecvOutcome, SendOutcome, TryRecvOutcome,
};
use crate::messages::{
    messages, spec_msg_names, Add1, Add2, ExitProgram, GetExampleInitValue, Message, MessageSpec,
    MessageSpecV, NoResponse, Times3, spec_universe_messages,
};
use crate::wiring::{
    spec_available_before, spec_claimants, spec_first_binding_fault, spec_first_order_fault,
    spec_handler_views, spec_validate, validate_wiring, HandlerSpec, HandlerSpecV, WiringError,
};

verus! {

/// How many in-flight messages the mailbox holds before senders feel
/// backpressure: large enough to avoid spurious pressure under normal load.
/// A synchronous send against a full mailbox fails fast with
/// [`DispatchError::MailboxFull`]; an asynchronous one blocks on the enqueue
/// step until there is room.
pub const MAILBOX_CAPACITY: usize = 1024;

/// One in-flight message: every concrete message type of the universe, each
/// response-bearing one paired with the sending end of its one-shot reply
/// channel.  Constructed by the proxy on send, consumed exactly once by the
/// run loop.
pub enum AnyMessage {
    Add1(Add1, oneshot::Sender<i32>),
    Add2(Add2, oneshot::Sender<i32>),
    Times3(Times3, oneshot::Sender<i32>),
    GetExampleInitValue(GetExampleInitValue, oneshot::Sender<i32>),
    NoResponse(NoResponse),
    ExitProgram(ExitProgram, oneshot::Sender<()>),
}

/// A cloneable, thread-safe handle that enqueues messages into the context's
/// bounded mailbox.  It holds only a sending end: it may outlive the context
/// or cross threads freely, and carries no handler state.
pub struct ContextProxy {
    pub(crate) sender: smol::channel::Sender<AnyMessage>,
}

/// The configuration values context construction needs: one field per
/// declared handler whose initializer takes one.
pub struct ContextConfig {
    pub arithmetic: Config,
}

/// The transient restricted dispatch view that exists only during context
/// construction: it answers a message only once the handler bound to it has
/// been built, so an initializer can reach exactly the requests answerable
/// by handlers strictly earlier in declaration order.  Discarded once
/// construction completes.
pub struct PartialContext {
    pub init: Option<SomeInitHandler>,
    pub arithmetic: Option<ArithmeticHandler>,
    pub exit: Option<ExitHandler>,
    pub sender: smol::channel::Sender<AnyMessage>,
}

/// The fully wired runtime: one instance of every declared handler, in
/// declaration order, plus both ends of the mailbox.
pub struct Context {
    pub(crate) init: SomeInitHandler,
    pub(crate) arithmetic: ArithmeticHandler,
    pub(crate) exit: ExitHandler,
    pub(crate) sender: smol::channel::Sender<AnyMessage>,
    pub(crate) receiver: smol::channel::Receiver<AnyMessage>,
}

/// The handler declarations the context is registered with, in declaration
/// order, as mathematical values.
pub open spec fn spec_universe_handlers(known: Seq<Seq<char>>) -> Seq<HandlerSpecV> {
    seq![
        <SomeInitHandler as Handler>::spec_handler(known),
        <ArithmeticHandler as Handler>::spec_handler(known),
        <ExitHandler as Handler>::spec_handler(known),
    ]
}

/// The names of the registered message universe.
pub open spec fn spec_universe_names() -> Seq<Seq<char>> {
    spec_universe_messages().map_values(|m: MessageSpecV| m.name)
}

/// Whether the registered universe passes the wiring validator; context
/// construction succeeds exactly when it does.
pub open spec fn spec_universe_validates() -> bool {
    spec_validate(spec_universe_messages(), spec_universe_handlers(spec_universe_names()))
        is None
}

/// The ordered handler declarations of the registered universe, resolved
/// against the declared messages.
pub fn handler_specs(messages_in_context: &Vec<MessageSpec>) -> (v: Vec<HandlerSpec>)
    ensures
        spec_handler_views(v@) == spec_universe_handlers(spec_msg_names(messages_in_context@)),
{
    let mut v: Vec<HandlerSpec> = Vec::new();
    v.push(SomeInitHandler::get_handler_spec(messages_in_context));
    v.push(ArithmeticHandler::get_handler_spec(messages_in_context));
    v.push(ExitHandler::get_handler_spec(messages_in_context));
    proof {
        assert(spec_handler_views(v@) =~= spec_universe_handlers(
            spec_msg_names(messages_in_context@),
        ));
    }
    v
}

impl Clone for ContextProxy {
    /// Another handle onto the same mailbox.
    fn clone(&self) -> Self {
        ContextProxy { sender: channel_sender_clone(&self.sender) }
    }
}

impl Context {
    /// Builds the context.  The wiring of the registered universe is
    /// validated first; on a fault, the structured error is returned and no
    /// handler instance is ever observable.  On success the handlers are
    /// initialized strictly in declaration order, each against a restricted
    /// view answering exactly what earlier handlers provide.
    pub fn new(config: ContextConfig) -> (r: Result<Context, WiringError>)
        ensures
            (r is Ok) == spec_universe_validates(),
            r matches Err(e) ==> Some(e@) == spec_validate(
                spec_universe_messages(),
                spec_universe_handlers(spec_universe_names()),
            ),
            r matches Ok(c) ==> c.spec_arithmetic().init_value == 42 && c.spec_arithmetic().hello
                == config.arithmetic.hello,
    {
        let msgs = messages();
        proof {
            assert(spec_msg_names(msgs@) =~= spec_universe_names());
        }
        let hspecs = handler_specs(&msgs);
        match validate_wiring(&msgs, &hspecs) {
            Ok(()) => {},
            Err(e) => {
                return Err(e);
            },
        }
        let (sender, receiver) = channel_bounded::<AnyMessage>(MAILBOX_CAPACITY);
        let mut partial = PartialContext { init: None, arithmetic: None, exit: None, sender };
        let built_init = <SomeInitHandler as HandlerInit<PartialContext>>::init(&partial, ());
        partial.init = Some(built_init);
        let built_arithmetic = <ArithmeticHandler as HandlerInit<PartialContext>>::init(
            &partial,
            config.arithmetic,
        );
        partial.arithmetic = Some(built_arithmetic);
        let built_exit = <ExitHandler as HandlerInit<PartialContext>>::init(&partial, ());
        partial.exit = Some(built_exit);
        Ok(
            Context {
                init: partial.init.unwrap(),
                arithmetic: partial.arithmetic.unwrap(),
                exit: partial.exit.unwrap(),
                sender: partial.sender,
                receiver,
            },
        )
    }

    /// The arithmetic handler instance, as a mathematical value.
    pub closed spec fn spec_arithmetic(&self) -> ArithmeticHandler {
        self.arithmetic
    }

    /// The arithmetic handler instance, for observing what it was
    /// initialized with.
    pub fn arithmetic(&self) -> (h: &ArithmeticHandler)
        ensures
            *h == self.spec_arithmetic(),
    {
        &self.arithmetic
    }
}

impl CtxHandle<Add1> for Context {
    open spec fn answers(&self) -> bool {
        true
    }

    fn handle(&self, message: Add1) -> (r: Result<i32, DispatchError>) {
        <ArithmeticHandler as Handle<Add1, Context>>::handle(&self.arithmetic, self, message)
    }
}

impl CtxHandle<Add2> for Context {
    open spec fn answers(&self) -> bool {
        true
    }

    fn handle(&self, message: Add2) -> (r: Result<i32, DispatchError>) {
        <ArithmeticHandler as Handle<Add2, Context>>::handle(&self.arithmetic, self, message)
    }
}

impl CtxHandle<Times3> for Context {
    open spec fn answers(&self) -> bool {
        true
    }

    fn handle(&self, message: Times3) -> (r: Result<Deferred<i32>, DispatchError>) {
        <ArithmeticHandler as Handle<Times3, Context>>::handle(&self.arithmetic, self, message)
    }
}

impl CtxHandle<GetExampleInitValue> for Context {
    open spec fn answers(&self) -> bool {
        true
    }

    fn handle(&self, message: GetExampleInitValue) -> (r: Result<i32, DispatchError>) {
        <SomeInitHandler as Handle<GetExampleInitValue, Context>>::handle(
            &self.init,
            self,
            message,
        )
    }
}

impl CtxHandle<NoResponse> for Context {
    open spec fn answers(&self) -> bool {
        true
    }

    /// The one bound handler of this fan-out event is invoked; an event may
    /// in general reach any number of handlers, each independently.
    fn handle(&self, message: NoResponse) -> (r: Result<(), DispatchError>) {
        <ArithmeticHandler as Handle<NoResponse, Context>>::handle(&self.arithmetic, self, message)
    }
}

impl CtxHandle<ExitProgram> for Context {
    open spec fn answers(&self) -> bool {
        true
    }

    fn handle(&self, message: ExitProgram) -> (r: Result<Deferred<()>, DispatchError>) {
        <ExitHandler as Handle<ExitProgram, Context>>::handle(&self.exit, self, message)
    }
}

impl MailboxControl for Context {
    fn proxy(&self) -> ContextProxy {
        ContextProxy { sender: channel_sender_clone(&self.sender) }
    }

    fn quit(&self) {
        let _ = channel_close(&self.sender);
    }
}

impl CtxHandle<Add1> for PartialContext {
    open spec fn answers(&self) -> bool {
        self.arithmetic is Some
    }

    fn handle(&self, message: Add1) -> (r: Result<i32, DispatchError>) {
        match &self.arithmetic {
            Some(h) => <ArithmeticHandler as Handle<Add1, PartialContext>>::handle(
                h,
                self,
                message,
            ),
            None => Err(DispatchError::HandlerUnavailable),
        }
    }
}

impl CtxHandle<Add2> for PartialContext {
    open spec fn answers(&self) -> bool {
        self.arithmetic is Some
    }

    fn handle(&self, message: Add2) -> (r: Result<i32, DispatchError>) {
        match &self.arithmetic {
            Some(h) => <ArithmeticHandler as Handle<Add2, PartialContext>>::handle(
                h,
                self,
                message,
            ),
            None => Err(DispatchError::HandlerUnavailable),
        }
    }
}

impl CtxHandle<Times3> for PartialContext {
    open spec fn answers(&self) -> bool {
        self.arithmetic is Some
    }

    fn handle(&self, message: Times3) -> (r: Result<Deferred<i32>, DispatchError>) {
        match &self.arithmetic {
            Some(h) => <ArithmeticHandler as Handle<Times3, PartialContext>>::handle(
                h,
                self,
                message,
            ),
            None => Err(DispatchError::HandlerUnavailable),
        }
    }
}

impl CtxHandle<GetExampleInitValue> for PartialContext {
    open spec fn answers(&self) -> bool {
        self.init is Some
    }

    fn handle(&self, message: GetExampleInitValue) -> (r: Result<i32, DispatchError>) {
        match &self.init {
            Some(h) => <SomeInitHandler as Handle<GetExampleInitValue, PartialContext>>::handle(
                h,
                self,
                message,
            ),
            None => Err(DispatchError::HandlerUnavailable),
        }
    }
}

impl CtxHandle<NoResponse> for PartialContext {
    open spec fn answers(&self) -> bool {
        self.arithmetic is Some
    }

    fn handle(&self, message: NoResponse) -> (r: Result<(), DispatchError>) {
        match &self.arithmetic {
            Some(h) => <ArithmeticHandler as Handle<NoResponse, PartialContext>>::handle(
                h,
                self,
                message,
            ),
            None => Err(DispatchError::HandlerUnavailable),
        }
    }
}

impl CtxHandle<ExitProgram> for PartialContext {
    open spec fn answers(&self) -> bool {
        self.exit is Some
    }

    fn handle(&self, message: ExitProgram) -> (r: Result<Deferred<()>, DispatchError>) {
        match &self.exit {
            Some(h) => <ExitHandler as Handle<ExitProgram, PartialContext>>::handle(
                h,
                self,
                message,
            ),
            None => Err(DispatchError::HandlerUnavailable),
        }
    }
}

impl MailboxControl for PartialContext {
    fn proxy(&self) -> ContextProxy {
        ContextProxy { sender: channel_sender_clone(&self.sender) }
    }

    fn quit(&self) {
        let _ = channel_close(&self.sender);
    }
}

impl ContextProxy {
    /// Enqueues a synchronous request without waiting for its answer.  The
    /// synchronous send policy is fail-fast: a full mailbox is reported as
    /// [`DispatchError::MailboxFull`], a closed one as
    /// [`DispatchError::MailboxClosed`].
    pub fn request_add1(&self, message: Add1) -> (r: Result<PendingReply<i32>, DispatchError>)
        requires
            message.ok_input(),
        ensures
            r matches Err(e) ==> (e == DispatchError::MailboxFull || e
                == DispatchError::MailboxClosed),
    {
        let (tx, rx) = reply_channel::<i32>();
        match channel_try_send(&self.sender, AnyMessage::Add1(message, tx)) {
            SendOutcome::Sent => Ok(PendingReply::new(rx)),
            SendOutcome::Full(_) => Err(DispatchError::MailboxFull),
            SendOutcome::Closed(_) => Err(DispatchError::MailboxClosed),
        }
    }

    /// Enqueues a synchronous request without waiting for its answer; the
    /// same fail-fast policy as [`ContextProxy::request_add1`].
    pub fn request_add2(&self, message: Add2) -> (r: Result<PendingReply<i32>, DispatchError>)
        requires
            message.ok_input(),
        ensures
            r matches Err(e) ==> (e == DispatchError::MailboxFull || e
                == DispatchError::MailboxClosed),
    {
        let (tx, rx) = reply_channel::<i32>();
        match channel_try_send(&self.sender, AnyMessage::Add2(message, tx)) {
            SendOutcome::Sent => Ok(PendingReply::new(rx)),
            SendOutcome::Full(_) => Err(DispatchError::MailboxFull),
            SendOutcome::Closed(_) => Err(DispatchError::MailboxClosed),
        }
    }

    /// Enqueues a synchronous request without waiting for its answer; the
    /// same fail-fast policy as [`ContextProxy::request_add1`].
    pub fn request_get_example_init_value(&self, message: GetExampleInitValue) -> (r: Result<
        PendingReply<i32>,
        DispatchError,
    >)
        ensures
            r matches Err(e) ==> (e == DispatchError::MailboxFull || e
                == DispatchError::MailboxClosed),
    {
        let (tx, rx) = reply_channel::<i32>();
        match channel_try_send(&self.sender, AnyMessage::GetExampleInitValue(message, tx)) {
            SendOutcome::Sent => Ok(PendingReply::new(rx)),
            SendOutcome::Full(_) => Err(DispatchError::MailboxFull),
            SendOutcome::Closed(_) => Err(DispatchError::MailboxClosed),
        }
    }

    /// Enqueues an asynchronous request.  The asynchronous send policy is to
    /// block on the enqueue step only — never on the handler's execution —
    /// so the one failure is a closed mailbox.
    pub fn request_times3(&self, message: Times3) -> (r: Result<PendingReply<i32>, DispatchError>)
        requires
            message.ok_input(),
        ensures
            r matches Err(e) ==> e == DispatchError::MailboxClosed,
    {
        let (tx, rx) = reply_channel::<i32>();
        match channel_send_blocking(&self.sender, AnyMessage::Times3(message, tx)) {
            Ok(()) => Ok(PendingReply::new(rx)),
            Err(_) => Err(DispatchError::MailboxClosed),
        }
    }

    /// Enqueues the shutdown request; blocks on the enqueue step only.
    pub fn request_exit_program(&self, message: ExitProgram) -> (r: Result<
        PendingReply<()>,
        DispatchError,
    >)
        ensures
            r matches Err(e) ==> e == DispatchError::MailboxClosed,
    {
        let (tx, rx) = reply_channel::<()>();
        match channel_send_blocking(&self.sender, AnyMessage::ExitProgram(message, tx)) {
            Ok(()) => Ok(PendingReply::new(rx)),
            Err(_) => Err(DispatchError::MailboxClosed),
        }
    }

    /// Enqueues a fire-and-forget event and returns as soon as it is in the
    /// mailbox, without waiting for any handler to run; blocks on the
    /// enqueue step only.
    pub fn post_no_response(&self, message: NoResponse) -> (r: Result<(), DispatchError>)
        ensures
            r matches Err(e) ==> e == DispatchError::MailboxClosed,
    {
        match channel_send_blocking(&self.sender, AnyMessage::NoResponse(message)) {
            Ok(()) => Ok(()),
            Err(_) => Err(DispatchError::MailboxClosed),
        }
    }
}

impl CtxHandle<Add1> for ContextProxy {
    open spec fn answers(&self) -> bool {
        false
    }

    /// The synchronous remote path: enqueue, then block until the run loop
    /// answers.
    fn handle(&self, message: Add1) -> (r: Result<i32, DispatchError>) {
        match self.request_add1(message) {
            Ok(reply) => reply.wait(),
            Err(e) => Err(e),
        }
    }
}

impl CtxHandle<Add2> for ContextProxy {
    open spec fn answers(&self) -> bool {
        false
    }

    fn handle(&self, message: Add2) -> (r: Result<i32, DispatchError>) {
        match self.request_add2(message) {
            Ok(reply) => reply.wait(),
            Err(e) => Err(e),
        }
    }
}

impl CtxHandle<GetExampleInitValue> for ContextProxy {
    open spec fn answers(&self) -> bool {
        false
    }

    fn handle(&self, message: GetExampleInitValue) -> (r: Result<i32, DispatchError>) {
        match self.request_get_example_init_value(message) {
            Ok(reply) => reply.wait(),
            Err(e) => Err(e),
        }
    }
}

impl CtxHandle<Times3> for ContextProxy {
    open spec fn answers(&self) -> bool {
        false
    }

    /// The asynchronous remote path: the response stays deferred; the caller
    /// decides when to wait on it.
    fn handle(&self, message: Times3) -> (r: Result<Deferred<i32>, DispatchError>) {
        match self.request_times3(message) {
            Ok(reply) => Ok(Deferred::Pending(reply)),
            Err(e) => Err(e),
        }
    }
}

impl CtxHandle<NoResponse> for ContextProxy {
    open spec fn answers(&self) -> bool {
        false
    }

    fn handle(&self, message: NoResponse) -> (r: Result<(), DispatchError>) {
        self.post_no_response(message)
    }
}

impl CtxHandle<ExitProgram> for ContextProxy {
    open spec fn answers(&self) -> bool {
        false
    }

    fn handle(&self, message: ExitProgram) -> (r: Result<Deferred<()>, DispatchError>) {
        match self.request_exit_program(message) {
            Ok(reply) => Ok(Deferred::Pending(reply)),
            Err(e) => Err(e),
        }
    }
}

impl MailboxControl for ContextProxy {
    fn proxy(&self) -> ContextProxy {
        ContextProxy { sender: channel_sender_clone(&self.sender) }
    }

    fn quit(&self) {
        let _ = channel_close(&self.sender);
    }
}

impl AnyMessage {
    /// Dispatches this in-flight message against the context and, for a
    /// response-bearing message, hands the answer to its reply channel.  A
    /// dropped reply end is legal (the requester cancelled; the answer is
    /// discarded), and a payload outside the dispatcher's accepted inputs is
    /// answered by dropping the reply channel unused, which the requester
    /// observes as [`DispatchError::ReplyDropped`].
    pub fn pass_to(self, ctx: &Context) {
        match self {
            AnyMessage::Add1(m, tx) => {
                if m.input_ok() {
                    match ctx.handle(m) {
                        Ok(v) => {
                            let _ = reply_send(tx, v);
                        },
                        Err(_) => {
                            proof {
                                assert(false);
                            }
                        },
                    }
                }
            },
            AnyMessage::Add2(m, tx) => {
                if m.input_ok() {
                    match ctx.handle(m) {
                        Ok(v) => {
                            let _ = reply_send(tx, v);
                        },
                        Err(_) => {
                            proof {
                                assert(false);
                            }
                        },
                    }
                }
            },
            AnyMessage::Times3(m, tx) => {
                if m.input_ok() {
                    match ctx.handle(m) {
                        Ok(Deferred::Ready(v)) => {
                            let _ = reply_send(tx, v);
                        },
                        Ok(Deferred::Pending(_)) => {
                            proof {
                                assert(false);
                            }
                        },
                        Err(_) => {
                            proof {
                                assert(false);
                            }
                        },
                    }
                }
            },
            AnyMessage::GetExampleInitValue(m, tx) => {
                match ctx.handle(m) {
                    Ok(v) => {
                        let _ = reply_send(tx, v);
                    },
                    Err(_) => {
                        proof {
                            assert(false);
                        }
                    },
                }
            },
            AnyMessage::NoResponse(m) => {
                match ctx.handle(m) {
                    Ok(()) => {},
                    Err(_) => {
                        proof {
                            assert(false);
                        }
                    },
                }
            },
            AnyMessage::ExitProgram(m, tx) => {
                match ctx.handle(m) {
                    Ok(Deferred::Ready(())) => {
                        let _ = reply_send(tx, ());
                    },
                    Ok(Deferred::Pending(_)) => {
                        proof {
                            assert(false);
                        }
                    },
                    Err(_) => {
                        proof {
                            assert(false);
                        }
                    },
                }
            },
        }
    }
}

impl C for Context {

}

impl C for PartialContext {

}

impl C for ContextProxy {

}


/// The names of the registered universe, written out.
proof fn lemma_universe_names_exact()
    ensures
        spec_universe_names() =~= seq![
            "Add1"@,
            "Add2"@,
            "Times3"@,
            "GetExampleInitValue"@,
            "NoResponse"@,
            "ExitProgram"@,
        ],
{
}

/// Every message each registered handler declares is in the registered
/// universe, so the filtered declarations keep everything.
proof fn lemma_universe_handlers_exact()
    ensures
        spec_universe_handlers(spec_universe_names()) =~= seq![
            HandlerSpecV {
                name: "SomeInitHandler"@,
                handled_messages: seq![GetExampleInitValue::spec_message()],
                init_requests: seq![],
                has_init_config: false,
            },
            HandlerSpecV {
                name: "ArithmeticHandler"@,
                handled_messages: seq![
                    Add1::spec_message(),
                    Times3::spec_message(),
                    Add2::spec_message(),
                    NoResponse::spec_message(),
                ],
                init_requests: seq![GetExampleInitValue::spec_message()],
                has_init_config: true,
            },
            HandlerSpecV {
                name: "ExitHandler"@,
                handled_messages: seq![ExitProgram::spec_message()],
                init_requests: seq![],
                has_init_config: false,
            },
        ],
{
    let known = spec_universe_names();
    lemma_universe_names_exact();
    let e: Seq<MessageSpecV> = seq![];
    assert(crate::handlers::spec_filter_known(e, known) =~= seq![]);

    let gl = seq![GetExampleInitValue::spec_message()];
    assert(gl.drop_last() =~= e);
    assert(known.contains("GetExampleInitValue"@)) by {
        assert(known[3] == "GetExampleInitValue"@);
    }
    assert(crate::handlers::spec_filter_known(gl, known) =~= gl);

    let el = seq![ExitProgram::spec_message()];
    assert(el.drop_last() =~= e);
    assert(known.contains("ExitProgram"@)) by {
        assert(known[5] == "ExitProgram"@);
    }
    assert(crate::handlers::spec_filter_known(el, known) =~= el);

    let a1 = seq![Add1::spec_message()];
    let a2 = seq![Add1::spec_message(), Times3::spec_message()];
    let a3 = seq![Add1::spec_message(), Times3::spec_message(), Add2::spec_message()];
    let a4 = seq![
        Add1::spec_message(),
        Times3::spec_message(),
        Add2::spec_message(),
        NoResponse::spec_message(),
    ];
    assert(a1.drop_last() =~= e);
    assert(a2.drop_last() =~= a1);
    assert(a3.drop_last() =~= a2);
    assert(a4.drop_last() =~= a3);
    assert(known.contains("Add1"@)) by {
        assert(known[0] == "Add1"@);
    }
    assert(known.contains("Times3"@)) by {
        assert(known[2] == "Times3"@);
    }
    assert(known.contains("Add2"@)) by {
        assert(known[1] == "Add2"@);
    }
    assert(known.contains("NoResponse"@)) by {
        assert(known[4] == "NoResponse"@);
    }
    assert(crate::handlers::spec_filter_known(a1, known) =~= a1);
    assert(crate::handlers::spec_filter_known(a2, known) =~= a2);
    assert(crate::handlers::spec_filter_known(a3, known) =~= a3);
    assert(crate::handlers::spec_filter_known(a4, known) =~= a4);
}


/// The six registered message names are pairwise distinct.
proof fn lemma_universe_names_distinct()
    ensures
        "Add1"@.len() == 4,
        "Add2"@.len() == 4,
        "Times3"@.len() == 6,
        "GetExampleInitValue"@.len() == 19,
        "NoResponse"@.len() == 10,
        "ExitProgram"@.len() == 11,
        "Add1"@ != "Add2"@,
{
    reveal_strlit("Add1");
    reveal_strlit("Add2");
    reveal_strlit("Times3");
    reveal_strlit("GetExampleInitValue");
    reveal_strlit("NoResponse");
    reveal_strlit("ExitProgram");
    assert("Add1"@[3] == '1' && "Add2"@[3] == '2');
}

/// In the registered universe, each response-bearing message is claimed by
/// exactly one handler.
proof fn lemma_universe_binding_ok()
    ensures
        spec_first_binding_fault(
            spec_universe_messages(),
            spec_universe_handlers(spec_universe_names()),
            0,
        ) is None,
{
    let um = spec_universe_messages();
    let uh = spec_universe_handlers(spec_universe_names());
    lemma_universe_handlers_exact();
    lemma_universe_names_distinct();
    let h0 = uh[0];
    let h1 = uh[1];
    let h2 = uh[2];
    let pre2 = seq![h0, h1];
    let pre1 = seq![h0];
    let pre0: Seq<HandlerSpecV> = seq![];
    assert(uh.drop_last() =~= pre2);
    assert(pre2.drop_last() =~= pre1);
    assert(pre1.drop_last() =~= pre0);

    // Which handler claims which name.
    assert(crate::wiring::spec_handles(h1, "Add1"@)) by {
        assert(h1.handled_messages[0].name == "Add1"@);
    }
    assert(crate::wiring::spec_handles(h1, "Add2"@)) by {
        assert(h1.handled_messages[2].name == "Add2"@);
    }
    assert(crate::wiring::spec_handles(h1, "Times3"@)) by {
        assert(h1.handled_messages[1].name == "Times3"@);
    }
    assert(crate::wiring::spec_handles(h0, "GetExampleInitValue"@)) by {
        assert(h0.handled_messages[0].name == "GetExampleInitValue"@);
    }
    assert(crate::wiring::spec_handles(h2, "ExitProgram"@)) by {
        assert(h2.handled_messages[0].name == "ExitProgram"@);
    }
    // And which it does not: every other pairing differs already in the
    // names' lengths, except Add1 against Add2.
    assert forall|n: Seq<char>|
        n == "Add1"@ || n == "Add2"@ || n == "Times3"@ || n
            == "ExitProgram"@ implies !crate::wiring::spec_handles(h0, n) by {
        assert(h0.handled_messages[0].name == "GetExampleInitValue"@);
        assert(forall|j: int|
            0 <= j < h0.handled_messages.len() ==> (#[trigger] h0.handled_messages[j]).name
                == "GetExampleInitValue"@);
    }
    assert(!crate::wiring::spec_handles(h1, "GetExampleInitValue"@)) by {
        assert(forall|j: int|
            0 <= j < h1.handled_messages.len() ==> (#[trigger] h1.handled_messages[j]).name
                != "GetExampleInitValue"@) by {
            assert(h1.handled_messages[0].name == "Add1"@);
            assert(h1.handled_messages[1].name == "Times3"@);
            assert(h1.handled_messages[2].name == "Add2"@);
            assert(h1.handled_messages[3].name == "NoResponse"@);
        }
    }
    assert(!crate::wiring::spec_handles(h1, "ExitProgram"@)) by {
        assert(forall|j: int|
            0 <= j < h1.handled_messages.len() ==> (#[trigger] h1.handled_messages[j]).name
                != "ExitProgram"@) by {
            assert(h1.handled_messages[0].name == "Add1"@);
            assert(h1.handled_messages[1].name == "Times3"@);
            assert(h1.handled_messages[2].name == "Add2"@);
            assert(h1.handled_messages[3].name == "NoResponse"@);
        }
    }
    assert forall|n: Seq<char>|
        n == "Add1"@ || n == "Add2"@ || n == "Times3"@ || n
            == "GetExampleInitValue"@ implies !crate::wiring::spec_handles(h2, n) by {
        assert(forall|j: int|
            0 <= j < h2.handled_messages.len() ==> (#[trigger] h2.handled_messages[j]).name
                == "ExitProgram"@);
    }

    // The claimant lists, one name at a time, walking the handler
    // prefixes.
    assert(spec_claimants(pre0, "Add1"@) =~= Seq::<Seq<char>>::empty());
    assert(spec_claimants(pre1, "Add1"@) =~= Seq::<Seq<char>>::empty());
    assert(spec_claimants(pre2, "Add1"@) =~= seq!["ArithmeticHandler"@]);
    assert(spec_claimants(uh, "Add1"@) =~= seq!["ArithmeticHandler"@]);
    assert(spec_claimants(pre0, "Add2"@) =~= Seq::<Seq<char>>::empty());
    assert(spec_claimants(pre1, "Add2"@) =~= Seq::<Seq<char>>::empty());
    assert(spec_claimants(pre2, "Add2"@) =~= seq!["ArithmeticHandler"@]);
    assert(spec_claimants(uh, "Add2"@) =~= seq!["ArithmeticHandler"@]);
    assert(spec_claimants(pre0, "Times3"@) =~= Seq::<Seq<char>>::empty());
    assert(spec_claimants(pre1, "Times3"@) =~= Seq::<Seq<char>>::empty());
    assert(spec_claimants(pre2, "Times3"@) =~= seq!["ArithmeticHandler"@]);
    assert(spec_claimants(uh, "Times3"@) =~= seq!["ArithmeticHandler"@]);
    assert(spec_claimants(pre0, "GetExampleInitValue"@) =~= Seq::<Seq<char>>::empty());
    assert(spec_claimants(pre1, "GetExampleInitValue"@) =~= seq!["SomeInitHandler"@]);
    assert(spec_claimants(pre2, "GetExampleInitValue"@) =~= seq!["SomeInitHandler"@]);
    assert(spec_claimants(uh, "GetExampleInitValue"@) =~= seq!["SomeInitHandler"@]);
    assert(spec_claimants(pre0, "ExitProgram"@) =~= Seq::<Seq<char>>::empty());
    assert(spec_claimants(pre1, "ExitProgram"@) =~= Seq::<Seq<char>>::empty());
    assert(spec_claimants(pre2, "ExitProgram"@) =~= Seq::<Seq<char>>::empty());
    assert(spec_claimants(uh, "ExitProgram"@) =~= seq!["ExitHandler"@]);

    // Walk the six messages.
    assert(um[0].name == "Add1"@ && um[0].has_response);
    assert(um[1].name == "Add2"@ && um[1].has_response);
    assert(um[2].name == "Times3"@ && um[2].has_response);
    assert(um[3].name == "GetExampleInitValue"@ && um[3].has_response);
    assert(!um[4].has_response);
    assert(um[5].name == "ExitProgram"@ && um[5].has_response);
    assert(spec_first_binding_fault(um, uh, 6) is None);
    assert(spec_first_binding_fault(um, uh, 5) is None);
    assert(spec_first_binding_fault(um, uh, 4) is None);
    assert(spec_first_binding_fault(um, uh, 3) is None);
    assert(spec_first_binding_fault(um, uh, 2) is None);
    assert(spec_first_binding_fault(um, uh, 1) is None);
    assert(spec_first_binding_fault(um, uh, 0) is None);
}


/// In the registered universe, every initialization request is a request and
/// is answerable by a handler strictly earlier in declaration order.
proof fn lemma_universe_order_ok()
    ensures
        spec_first_order_fault(spec_universe_handlers(spec_universe_names()), seq![], 0) is None,
{
    let uh = spec_universe_handlers(spec_universe_names());
    lemma_universe_handlers_exact();
    let h0 = uh[0];
    let h1 = uh[1];
    let h2 = uh[2];
    let avail0: Seq<Seq<char>> = seq![];

    // What each handler provides.
    let e: Seq<MessageSpecV> = seq![];
    assert(crate::wiring::spec_response_names(e) =~= Seq::<Seq<char>>::empty());
    assert(h0.handled_messages.drop_last() =~= e);
    assert(crate::wiring::spec_provided(h0) =~= seq!["GetExampleInitValue"@]);
    let a1 = seq![Add1::spec_message()];
    let a2 = seq![Add1::spec_message(), Times3::spec_message()];
    let a3 = seq![Add1::spec_message(), Times3::spec_message(), Add2::spec_message()];
    assert(a1.drop_last() =~= e);
    assert(a2.drop_last() =~= a1);
    assert(a3.drop_last() =~= a2);
    assert(h1.handled_messages.drop_last() =~= a3);
    assert(crate::wiring::spec_response_names(a1) =~= seq!["Add1"@]);
    assert(crate::wiring::spec_response_names(a2) =~= seq!["Add1"@, "Times3"@]);
    assert(crate::wiring::spec_response_names(a3) =~= seq!["Add1"@, "Times3"@, "Add2"@]);
    assert(crate::wiring::spec_provided(h1) =~= seq!["Add1"@, "Times3"@, "Add2"@]);
    assert(h2.handled_messages.drop_last() =~= e);
    assert(crate::wiring::spec_provided(h2) =~= seq!["ExitProgram"@]);

    // The first handler asks for nothing and provides the initialization
    // request the second one needs.
    assert(h0.init_requests.len() == 0);
    assert(crate::wiring::spec_first_not_a_request(h0, 0) is None);
    assert(crate::wiring::spec_first_unavailable(h0, avail0, 0) is None);
    let avail1 = avail0 + crate::wiring::spec_provided(h0);
    assert(h1.init_requests[0].has_response);
    assert(crate::wiring::spec_first_not_a_request(h1, 1) is None);
    assert(crate::wiring::spec_first_not_a_request(h1, 0) is None);
    assert(avail1.contains("GetExampleInitValue"@)) by {
        assert(avail1[0] == "GetExampleInitValue"@);
    }
    assert(crate::wiring::spec_first_unavailable(h1, avail1, 1) is None);
    assert(crate::wiring::spec_first_unavailable(h1, avail1, 0) is None);
    let avail2 = avail1 + crate::wiring::spec_provided(h1);
    assert(h2.init_requests.len() == 0);
    assert(crate::wiring::spec_first_not_a_request(h2, 0) is None);
    assert(crate::wiring::spec_first_unavailable(h2, avail2, 0) is None);
    let avail3 = avail2 + crate::wiring::spec_provided(h2);

    // Walk the three handlers.
    assert(spec_first_order_fault(uh, avail3, 3) is None);
    assert(spec_first_order_fault(uh, avail2, 2) is None);
    assert(spec_first_order_fault(uh, avail1, 1) is None);
    assert(spec_first_order_fault(uh, avail0, 0) is None);
}

/// What each position of the registered declaration order may depend on:
/// the first handler on nothing, the second exactly on the first one's
/// request, the third on everything the first two answer.  Each handler
/// observes exactly the requests answerable by strictly earlier handlers.
pub proof fn lemma_universe_available_before()
    ensures
        spec_available_before(spec_universe_handlers(spec_universe_names()), 0) =~= Seq::<
            Seq<char>,
        >::empty(),
        spec_available_before(spec_universe_handlers(spec_universe_names()), 1) =~= seq![
            "GetExampleInitValue"@,
        ],
        spec_available_before(spec_universe_handlers(spec_universe_names()), 2) =~= seq![
            "GetExampleInitValue"@,
            "Add1"@,
            "Times3"@,
            "Add2"@,
        ],
        spec_available_before(spec_universe_handlers(spec_universe_names()), 3) =~= seq![
            "GetExampleInitValue"@,
            "Add1"@,
            "Times3"@,
            "Add2"@,
            "ExitProgram"@,
        ],
{
    let uh = spec_universe_handlers(spec_universe_names());
    lemma_universe_handlers_exact();
    let h0 = uh[0];
    let h1 = uh[1];
    let h2 = uh[2];
    let e: Seq<MessageSpecV> = seq![];
    assert(crate::wiring::spec_response_names(e) =~= Seq::<Seq<char>>::empty());
    assert(h0.handled_messages.drop_last() =~= e);
    assert(crate::wiring::spec_provided(h0) =~= seq!["GetExampleInitValue"@]);
    let a1 = seq![Add1::spec_message()];
    let a2 = seq![Add1::spec_message(), Times3::spec_message()];
    let a3 = seq![Add1::spec_message(), Times3::spec_message(), Add2::spec_message()];
    assert(a1.drop_last() =~= e);
    assert(a2.drop_last() =~= a1);
    assert(a3.drop_last() =~= a2);
    assert(h1.handled_messages.drop_last() =~= a3);
    assert(crate::wiring::spec_response_names(a1) =~= seq!["Add1"@]);
    assert(crate::wiring::spec_response_names(a2) =~= seq!["Add1"@, "Times3"@]);
    assert(crate::wiring::spec_response_names(a3) =~= seq!["Add1"@, "Times3"@, "Add2"@]);
    assert(crate::wiring::spec_provided(h1) =~= seq!["Add1"@, "Times3"@, "Add2"@]);
    assert(h2.handled_messages.drop_last() =~= e);
    assert(crate::wiring::spec_provided(h2) =~= seq!["ExitProgram"@]);
    assert(spec_available_before(uh, 0) =~= Seq::<Seq<char>>::empty());
    assert(spec_available_before(uh, 1) =~= seq!["GetExampleInitValue"@]);
    assert(spec_available_before(uh, 2) =~= seq![
        "GetExampleInitValue"@,
        "Add1"@,
        "Times3"@,
        "Add2"@,
    ]);
    assert(spec_available_before(uh, 3) =~= seq![
        "GetExampleInitValue"@,
        "Add1"@,
        "Times3"@,
        "Add2"@,
        "ExitProgram"@,
    ]);
}

/// The registered universe is consistently wired, so context construction
/// succeeds: together with the contract of [`Context::new`], a verified
/// caller knows `new` returns `Ok`.
pub proof fn lemma_universe_wiring_valid()
    ensures
        spec_universe_validates(),
{
    lemma_universe_binding_ok();
    lemma_universe_order_ok();
}

/// What the cooperative run loop does next, given one look at the world.
pub enum LoopAction {
    /// A message arrived: spawn a task that dispatches it and detach.
    Dispatch(AnyMessage),
    /// Nothing arrived but tasks are pending: advance the cooperative
    /// scheduler by one unit of work.
    RunTask,
    /// Nothing is pending and the mailbox is open: block until mail arrives.
    Wait,
    /// The mailbox is closed and drained, and no task is pending: the loop
    /// exits.
    Stop,
}

impl Context {
    /// The run loop's decision rule, per one poll of the mailbox.  It never
    /// blocks while work is pending: with tasks pending, an empty mailbox
    /// advances a task instead of waiting.  It never busy-spins while idle:
    /// with nothing pending it waits.  Closing the mailbox is the defined
    /// shutdown signal: already-spawned tasks still run to completion, and
    /// the loop stops only once the mailbox is drained and no task remains.
    pub fn next_action(tasks_pending: bool, mail: TryRecvOutcome<AnyMessage>) -> (a: LoopAction)
        ensures
            mail matches TryRecvOutcome::Message(m) ==> a == LoopAction::Dispatch(m),
            mail is Empty && tasks_pending ==> a == LoopAction::RunTask,
            mail is Empty && !tasks_pending ==> a == LoopAction::Wait,
            mail is Closed && tasks_pending ==> a == LoopAction::RunTask,
            mail is Closed && !tasks_pending ==> a == LoopAction::Stop,
            !(a is Stop) || (mail is Closed && !tasks_pending),
            !(a is Wait) || !tasks_pending,
    {
        match mail {
            TryRecvOutcome::Message(m) => LoopAction::Dispatch(m),
            TryRecvOutcome::Empty => {
                if tasks_pending {
                    LoopAction::RunTask
                } else {
                    LoopAction::Wait
                }
            },
            TryRecvOutcome::Closed => {
                if tasks_pending {
                    LoopAction::RunTask
                } else {
                    LoopAction::Stop
                }
            },
        }
    }

    /// Drains the mailbox synchronously: receives and dispatches one message
    /// after the other, in send order, until the mailbox is closed and
    /// empty, or `max_messages` messages have been processed.  Returns how
    /// many messages were dispatched.  Messages already queued when the
    /// mailbox is closed are still processed; this is the shutdown behavior
    /// the proxy's callers rely on.
    pub fn run_until_closed(&self, max_messages: u64) -> (n: u64)
        ensures
            n <= max_messages,
    {
        let mut n: u64 = 0;
        while n < max_messages
            invariant
                n <= max_messages,
            decreases max_messages - n,
        {
            match channel_recv_blocking(&self.receiver) {
                RecvOutcome::Message(m) => {
                    m.pass_to(self);
                    n += 1;
                },
                RecvOutcome::Closed => {
                    return n;
                },
            }
        }
        n
    }

    /// One non-blocking poll of the mailbox, for an embedder driving the
    /// cooperative loop through [`Context::next_action`].
    pub fn poll_mailbox(&self) -> TryRecvOutcome<AnyMessage> {
        crate::mailbox::channel_try_recv(&self.receiver)
    }

    /// The receive end of the mailbox, for an embedder that waits for mail
    /// asynchronously.
    pub fn receiver(&self) -> &smol::channel::Receiver<AnyMessage> {
        &self.receiver
    }
}

} // verus!
