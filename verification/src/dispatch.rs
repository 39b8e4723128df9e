//! The dispatch interface: what it means to hand a message to the runtime.
//!
//! [`CtxHandle`] is implemented once per message type by every view of the
//! runtime that accepts messages: the full context, the restricted
//! construction-time view, and the cross-thread proxy.  Its contract promises
//! the canonical response whenever the view answers directly; the proxy,
//! whose answers travel through channels, promises structured errors instead
//! of panics.  [`C`] bundles the whole wired universe, so a handler body can
//! re-enter dispatch for any message type.

use vstd::prelude::*;
use crate::mailbox::DispatchError;
use crate::messages::{Add1, Add2, ExitProgram, GetExampleInitValue, Message, NoResponse, Times3};
use crate::context::ContextProxy;

verus! {

/// A view of the runtime that accepts messages of type `T`.
pub trait CtxHandle<T: Message>: Sized {
    /// Whether this view answers `T` directly, by running the bound handler
    /// itself before returning; a view that forwards across threads does not.
    spec fn answers(&self) -> bool;

    /// Dispatches `message`.  A view that answers directly returns exactly
    /// the canonical response; any view reports failure as a structured
    /// [`DispatchError`] rather than panicking.
    fn handle(&self, message: T) -> (r: Result<T::Response, DispatchError>)
        requires
            message.ok_input(),
        ensures
            self.answers() ==> r == Ok::<T::Response, DispatchError>(message.canonical_response()),
    ;
}

/// The two runtime-wide operations every dispatch view offers: a cloneable
/// cross-thread handle, and closing the mailbox, the defined shutdown
/// signal.
pub trait MailboxControl: Sized {
    /// A thread-safe handle that enqueues into this runtime's mailbox.
    fn proxy(&self) -> ContextProxy;

    /// Closes the mailbox: no further message is accepted, already queued
    /// ones are still processed.
    fn quit(&self);
}

/// A dispatch view over the whole wired message universe.  Handler bodies
/// bound their view by exactly what they use ([`CtxHandle`] for one message,
/// or [`MailboxControl`]); `C` bundles it all for embedders.
pub trait C: CtxHandle<Add1> + CtxHandle<Add2> + CtxHandle<Times3> + CtxHandle<
    GetExampleInitValue,
> + CtxHandle<NoResponse> + CtxHandle<ExitProgram> + MailboxControl {
}

} // verus!
