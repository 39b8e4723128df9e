//! Message metadata and the concrete message universe.
//!
//! Every message type carries a [`MessageSpec`]: a globally unique name,
//! whether a dispatch of it yields a response, and whether that response is
//! delivered asynchronously (through a reply channel) rather than directly.
//! The registry function [`messages`] lists the specs of every message the
//! context is wired for, in a fixed order.

use vstd::prelude::*;
use crate::mailbox::Deferred;

verus! {

/// Static metadata for one message type.  Built once per type, never mutated.
#[derive(Debug)]
pub struct MessageSpec {
    /// Globally unique identifier of the message type.
    pub name: String,
    /// Whether a dispatch of this message yields a response.  A message with
    /// a response must be bound to exactly one handler; one without may fan
    /// out to any number of handlers.
    pub has_response: bool,
    /// Whether the response, if any, is delivered through a reply channel
    /// rather than returned directly.
    pub is_async: bool,
}

impl Clone for MessageSpec {
    fn clone(&self) -> (res: Self)
        ensures
            res == *self,
    {
        MessageSpec {
            name: self.name.clone(),
            has_response: self.has_response,
            is_async: self.is_async,
        }
    }
}

/// The mathematical value of a [`MessageSpec`]: its name as a character
/// sequence together with its two flags.
pub struct MessageSpecV {
    pub name: Seq<char>,
    pub has_response: bool,
    pub is_async: bool,
}

impl View for MessageSpec {
    type V = MessageSpecV;

    open spec fn view(&self) -> MessageSpecV {
        MessageSpecV { name: self.name@, has_response: self.has_response, is_async: self.is_async }
    }
}

/// The name views of a list of message specs.
pub open spec fn spec_msg_names(ms: Seq<MessageSpec>) -> Seq<Seq<char>> {
    ms.map_values(|m: MessageSpec| m.name@)
}

/// The views of a list of message specs.
pub open spec fn spec_msg_views(ms: Seq<MessageSpec>) -> Seq<MessageSpecV> {
    ms.map_values(|m: MessageSpec| m@)
}

/// A typed unit of work.  The associated `Response` is the plain value a
/// dispatch produces: a direct value for synchronous messages, a [`Deferred`]
/// for messages whose response may still be owed by the run loop.
pub trait Message: Sized {
    /// What a dispatch of this message returns.
    type Response;

    /// The inputs the dispatcher accepts; constrains nothing beyond what
    /// machine arithmetic forces on the bound handler.
    spec fn ok_input(self) -> bool;

    /// The response the message's bound handler produces, as a function of
    /// the message alone.  Direct dispatch returns exactly this value.
    spec fn canonical_response(self) -> Self::Response;

    /// The mathematical value of this message type's registry entry.
    spec fn spec_message() -> MessageSpecV;

    /// The registry entry for this message type.
    fn get_message_spec() -> (s: MessageSpec)
        ensures
            s@ == Self::spec_message(),
    ;

    /// Decides [`Message::ok_input`] at run time, for callers outside
    /// verified code that must test it before dispatching.
    fn input_ok(&self) -> (b: bool)
        ensures
            b == self.ok_input(),
    ;
}

/// Adds one to its payload; synchronous, response-bearing.
#[derive(Clone, Copy, PartialEq, Eq, Structural, Debug)]
pub struct Add1 {
    pub x: i32,
}

impl Message for Add1 {
    type Response = i32;

    open spec fn ok_input(self) -> bool {
        self.x < i32::MAX
    }

    open spec fn canonical_response(self) -> i32 {
        (self.x + 1) as i32
    }

    open spec fn spec_message() -> MessageSpecV {
        MessageSpecV { name: "Add1"@, has_response: true, is_async: false }
    }

    fn input_ok(&self) -> (b: bool) {
        self.x < i32::MAX
    }

    fn get_message_spec() -> (s: MessageSpec) {
        MessageSpec { name: "Add1".to_owned(), has_response: true, is_async: false }
    }
}

/// Triples its payload; asynchronous, response-bearing.
#[derive(Clone, Copy, PartialEq, Eq, Structural, Debug)]
pub struct Times3 {
    pub x: i32,
}

impl Message for Times3 {
    type Response = Deferred<i32>;

    open spec fn ok_input(self) -> bool {
        -715827882 <= self.x <= 715827882
    }

    open spec fn canonical_response(self) -> Deferred<i32> {
        Deferred::Ready((self.x * 3) as i32)
    }

    open spec fn spec_message() -> MessageSpecV {
        MessageSpecV { name: "Times3"@, has_response: true, is_async: true }
    }

    fn input_ok(&self) -> (b: bool) {
        -715827882 <= self.x && self.x <= 715827882
    }

    fn get_message_spec() -> (s: MessageSpec) {
        MessageSpec { name: "Times3".to_owned(), has_response: true, is_async: true }
    }
}

/// Adds two, implemented by composing two `Add1` requests; synchronous,
/// response-bearing.
#[derive(Clone, Copy, PartialEq, Eq, Structural, Debug)]
pub struct Add2 {
    pub x: i32,
}

impl Message for Add2 {
    type Response = i32;

    open spec fn ok_input(self) -> bool {
        self.x <= i32::MAX - 2
    }

    open spec fn canonical_response(self) -> i32 {
        (self.x + 2) as i32
    }

    open spec fn spec_message() -> MessageSpecV {
        MessageSpecV { name: "Add2"@, has_response: true, is_async: false }
    }

    fn input_ok(&self) -> (b: bool) {
        self.x <= i32::MAX - 2
    }

    fn get_message_spec() -> (s: MessageSpec) {
        MessageSpec { name: "Add2".to_owned(), has_response: true, is_async: false }
    }
}

/// A request answered during handler initialization; synchronous,
/// response-bearing.
#[derive(Clone, Copy, PartialEq, Eq, Structural, Debug)]
pub struct GetExampleInitValue {}

impl Message for GetExampleInitValue {
    type Response = i32;

    open spec fn ok_input(self) -> bool {
        true
    }

    open spec fn canonical_response(self) -> i32 {
        42
    }

    open spec fn spec_message() -> MessageSpecV {
        MessageSpecV { name: "GetExampleInitValue"@, has_response: true, is_async: false }
    }

    fn input_ok(&self) -> (b: bool) {
        true
    }

    fn get_message_spec() -> (s: MessageSpec) {
        MessageSpec { name: "GetExampleInitValue".to_owned(), has_response: true, is_async: false }
    }
}

/// A fire-and-forget event: no response, any number of handlers.
#[derive(Clone, Copy, PartialEq, Eq, Structural, Debug)]
pub struct NoResponse {
    pub x: i32,
}

impl Message for NoResponse {
    type Response = ();

    open spec fn ok_input(self) -> bool {
        true
    }

    open spec fn canonical_response(self) -> () {
        ()
    }

    open spec fn spec_message() -> MessageSpecV {
        MessageSpecV { name: "NoResponse"@, has_response: false, is_async: true }
    }

    fn input_ok(&self) -> (b: bool) {
        true
    }

    fn get_message_spec() -> (s: MessageSpec) {
        MessageSpec { name: "NoResponse".to_owned(), has_response: false, is_async: true }
    }
}

/// Asks the runtime to shut down; asynchronous, response-bearing (the unit
/// response confirms the request was dispatched).  The bound handler closes
/// the mailbox, the defined shutdown signal; ending the surrounding process
/// is the embedder's business.
#[derive(Clone, Copy, PartialEq, Eq, Structural, Debug)]
pub struct ExitProgram {
    pub code: u8,
}

impl Message for ExitProgram {
    type Response = Deferred<()>;

    open spec fn ok_input(self) -> bool {
        true
    }

    open spec fn canonical_response(self) -> Deferred<()> {
        Deferred::Ready(())
    }

    open spec fn spec_message() -> MessageSpecV {
        MessageSpecV { name: "ExitProgram"@, has_response: true, is_async: true }
    }

    fn input_ok(&self) -> (b: bool) {
        true
    }

    fn get_message_spec() -> (s: MessageSpec) {
        MessageSpec { name: "ExitProgram".to_owned(), has_response: true, is_async: true }
    }
}

/// Asks a windowing embedder to open a window.  The core does not wire this
/// message: window handling is an external collaborator, reached through its
/// own event-source bridge.  The window identifier is carried as a plain
/// integer.
#[derive(Clone, PartialEq, Eq, Debug)]
pub struct OpenWindow {
    pub title: String,
    pub width: u32,
    pub height: u32,
}

/// Asks a windowing embedder to close the window with the given identifier.
#[derive(Clone, Copy, PartialEq, Eq, Structural, Debug)]
pub struct CloseWindow {
    pub window: u64,
}

/// Whether a key was pressed or released.
#[derive(Clone, Copy, PartialEq, Eq, Structural, Debug)]
pub enum KeyState {
    Pressed,
    Released,
}

/// A key event translated by a windowing embedder; the key is carried as a
/// plain scan code.
#[derive(Clone, Copy, PartialEq, Eq, Structural, Debug)]
pub struct KeyPress {
    pub key: u32,
    pub state: KeyState,
}

/// The views of the registry entries that [`messages`] returns, in
/// registration order: the wired message universe as a mathematical value.
pub open spec fn spec_universe_messages() -> Seq<MessageSpecV> {
    seq![
        Add1::spec_message(),
        Add2::spec_message(),
        Times3::spec_message(),
        GetExampleInitValue::spec_message(),
        NoResponse::spec_message(),
        ExitProgram::spec_message(),
    ]
}

/// The registry of every message the context is wired for, in a fixed
/// registration order.
pub fn messages() -> (v: Vec<MessageSpec>)
    ensures
        spec_msg_views(v@) == spec_universe_messages(),
{
    let mut v: Vec<MessageSpec> = Vec::new();
    v.push(Add1::get_message_spec());
    v.push(Add2::get_message_spec());
    v.push(Times3::get_message_spec());
    v.push(GetExampleInitValue::get_message_spec());
    v.push(NoResponse::get_message_spec());
    v.push(ExitProgram::get_message_spec());
    proof {
        assert(spec_msg_views(v@) =~= spec_universe_messages());
    }
    v
}

} // verus!
