//! The handler interface, as consumed by the core.
//!
//! A handler type declares which messages it is bound to, which requests it
//! needs answered during its own initialization, and whether it takes a
//! configuration value; [`Handler::get_handler_spec`] turns that declaration
//! into a [`HandlerSpec`] restricted to the messages a context actually
//! declares.  [`HandlerInit`] builds the instance against a restricted
//! dispatch view, and [`Handle`] processes one message against a full view.
//! [`DeclaredHandle`] is the marker that keeps a `Handle` implementation
//! honest: it exists only for message types the handler declared.

use vstd::prelude::*;
use crate::mailbox::DispatchError;
use crate::messages::{Message, MessageSpec, MessageSpecV, spec_msg_names, spec_msg_views};
use crate::wiring::HandlerSpec;

verus! {

/// The entries of `declared` whose names a context knows, in declared order.
pub open spec fn spec_filter_known(
    declared: Seq<MessageSpecV>,
    known: Seq<Seq<char>>,
) -> Seq<MessageSpecV>
    decreases declared.len(),
{
    if declared.len() == 0 {
        seq![]
    } else {
        spec_filter_known(declared.drop_last(), known) + if known.contains(declared.last().name) {
            seq![declared.last()]
        } else {
            seq![]
        }
    }
}

/// Whether `name` is the name of some entry of `ms`.
fn names_contain(ms: &Vec<MessageSpec>, name: &String) -> (b: bool)
    ensures
        b == spec_msg_names(ms@).contains(name@),
{
    let mut i: usize = 0;
    while i < ms.len()
        invariant
            0 <= i <= ms@.len(),
            forall|ii: int| 0 <= ii < i ==> #[trigger] ms@[ii].name@ != name@,
        decreases ms@.len() - i,
    {
        if ms[i].name == *name {
            proof {
                assert(spec_msg_names(ms@)[i as int] == name@);
            }
            return true;
        }
        i += 1;
    }
    proof {
        assert forall|ii: int|
            0 <= ii < spec_msg_names(ms@).len() implies #[trigger] spec_msg_names(ms@)[ii]
            != name@ by {
            assert(ms@[ii].name@ != name@);
        }
    }
    false
}

/// Keeps, in order, the declared message specs whose names the context
/// declares in `messages_in_context`.
pub fn filter_known(declared: Vec<MessageSpec>, messages_in_context: &Vec<MessageSpec>) -> (r: Vec<
    MessageSpec,
>)
    ensures
        spec_msg_views(r@) == spec_filter_known(
            spec_msg_views(declared@),
            spec_msg_names(messages_in_context@),
        ),
{
    let ghost known = spec_msg_names(messages_in_context@);
    let mut r: Vec<MessageSpec> = Vec::new();
    let mut i: usize = 0;
    proof {
        assert(spec_msg_views(r@) =~= Seq::<MessageSpecV>::empty());
        assert(spec_msg_views(declared@.subrange(0, 0)) =~= Seq::<MessageSpecV>::empty());
    }
    while i < declared.len()
        invariant
            0 <= i <= declared@.len(),
            known == spec_msg_names(messages_in_context@),
            spec_msg_views(r@) == spec_filter_known(
                spec_msg_views(declared@.subrange(0, i as int)),
                known,
            ),
        decreases declared@.len() - i,
    {
        proof {
            assert(spec_msg_views(declared@.subrange(0, i + 1 as int)).drop_last()
                =~= spec_msg_views(declared@.subrange(0, i as int)));
            assert(spec_msg_views(declared@.subrange(0, i + 1 as int)).last()
                == declared@[i as int]@);
        }
        if names_contain(messages_in_context, &declared[i].name) {
            r.push(declared[i].clone());
        }
        proof {
            assert(spec_msg_views(r@) =~= spec_filter_known(
                spec_msg_views(declared@.subrange(0, i + 1 as int)),
                known,
            ));
        }
        i += 1;
    }
    proof {
        assert(declared@.subrange(0, declared@.len() as int) =~= declared@);
    }
    r
}

/// A handler type's static declaration, resolved against a concrete context.
pub trait Handler {
    /// The configuration value the handler's initializer takes; `()` where
    /// it takes none.
    type InitConfig;

    /// The mathematical value of this handler's metadata, given the message
    /// names a context declares.
    spec fn spec_handler(known: Seq<Seq<char>>) -> crate::wiring::HandlerSpecV;

    /// The handler's metadata, with its declared message lists restricted to
    /// the messages the context declares.
    fn get_handler_spec(messages_in_context: &Vec<MessageSpec>) -> (s: HandlerSpec)
        ensures
            s@ == Self::spec_handler(spec_msg_names(messages_in_context@)),
    ;
}

/// Construction of a handler instance against a dispatch view of type
/// `Ctx`.  The initializer sees only a restricted view: the requests its
/// declaration names, answerable by handlers built earlier; implementations
/// bound `Ctx` by exactly what they dispatch.
pub trait HandlerInit<Ctx>: Handler + Sized {
    /// What the initializer demands of its dispatch view: that the view
    /// answers the requests this handler's declaration names.
    spec fn init_deps_ok(ctx: &Ctx) -> bool;

    /// Builds the handler instance, issuing its declared initialization
    /// requests against `ctx`.
    fn init(ctx: &Ctx, config: Self::InitConfig) -> Self
        requires
            Self::init_deps_ok(ctx),
    ;
}

/// The marker that a handler's declaration names message type `T`; a
/// [`Handle`] implementation exists only on top of it.
pub trait DeclaredHandle<T: Message> {
}

/// Processing of one message of type `T` against a dispatch view of type
/// `Ctx`, which the handler may re-enter for any message type.
pub trait Handle<T: Message, Ctx>: DeclaredHandle<T> {
    /// What this handler's body demands of its dispatch view: that the view
    /// answers the sub-requests the body issues.
    spec fn handle_deps_ok(ctx: &Ctx) -> bool;

    /// Handles `message`, re-entering dispatch through `ctx` as needed.
    fn handle(&self, ctx: &Ctx, message: T) -> (r: Result<T::Response, DispatchError>)
        requires
            message.ok_input(),
            Self::handle_deps_ok(ctx),
    ;
}

} // verus!
