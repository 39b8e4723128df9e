//! Handler metadata and the wiring validator.
//!
//! The validator takes the ordered list of handler declarations and the list
//! of declared messages and decides, before any handler instance exists,
//! whether the wiring is consistent: every response-bearing message is bound
//! to exactly one handler, every initialization request is itself a
//! response-bearing message, and every handler's initialization requests are
//! answerable by handlers strictly earlier in declaration order.  A failure
//! is a structured [`WiringError`] naming the offending handler and message;
//! no partially wired context is ever observable.
//!
//! The rules themselves are stated over the mathematical views
//! [`crate::messages::MessageSpecV`] and [`HandlerSpecV`], so that a fixed
//! registration can be reasoned about as a pure value.

use vstd::prelude::*;
use crate::messages::{MessageSpec, MessageSpecV, spec_msg_views};

verus! {

/// Static metadata for one handler type: its name, the messages it is bound
/// to, the requests it needs answered while it is itself being initialized,
/// and whether it needs an external configuration value.
#[derive(Debug)]
pub struct HandlerSpec {
    /// Globally unique identifier of the handler type.
    pub name: String,
    /// The messages this handler is bound to.
    pub handled_messages: Vec<MessageSpec>,
    /// The requests this handler issues during its own initialization; each
    /// must be a response-bearing message answerable by an earlier handler.
    pub init_requests: Vec<MessageSpec>,
    /// Whether the handler's initializer takes a configuration value.
    pub has_init_config: bool,
}

/// The mathematical value of a [`HandlerSpec`].
pub struct HandlerSpecV {
    pub name: Seq<char>,
    pub handled_messages: Seq<MessageSpecV>,
    pub init_requests: Seq<MessageSpecV>,
    pub has_init_config: bool,
}

impl View for HandlerSpec {
    type V = HandlerSpecV;

    open spec fn view(&self) -> HandlerSpecV {
        HandlerSpecV {
            name: self.name@,
            handled_messages: spec_msg_views(self.handled_messages@),
            init_requests: spec_msg_views(self.init_requests@),
            has_init_config: self.has_init_config,
        }
    }
}

/// The views of a list of handler specs.
pub open spec fn spec_handler_views(hs: Seq<HandlerSpec>) -> Seq<HandlerSpecV> {
    hs.map_values(|h: HandlerSpec| h@)
}

/// A wiring fault, stated over mathematical values; the spec-level view of
/// [`WiringError`].
pub enum WiringFault {
    NoHandler { message: Seq<char> },
    MultipleHandlers { message: Seq<char>, handlers: Seq<Seq<char>> },
    NotARequest { handler: Seq<char>, message: Seq<char> },
    UnsatisfiedDependency { handler: Seq<char>, message: Seq<char> },
}

/// A build-time configuration error: the wiring was inconsistent.  Fatal,
/// reported before any handler runs, never retried.
#[derive(Debug)]
pub enum WiringError {
    /// A response-bearing message has no bound handler.
    NoHandler { message: String },
    /// A response-bearing message has more than one bound handler; all of
    /// them are named, in declaration order.
    MultipleHandlers { message: String, handlers: Vec<String> },
    /// A handler's initialization request is not a response-bearing message.
    NotARequest { handler: String, message: String },
    /// A handler's initialization request is not answered by any handler
    /// strictly earlier in declaration order.
    UnsatisfiedDependency { handler: String, message: String },
}

impl View for WiringError {
    type V = WiringFault;

    open spec fn view(&self) -> WiringFault {
        match self {
            WiringError::NoHandler { message } => WiringFault::NoHandler { message: message@ },
            WiringError::MultipleHandlers { message, handlers } => WiringFault::MultipleHandlers {
                message: message@,
                handlers: handlers@.map_values(|s: String| s@),
            },
            WiringError::NotARequest { handler, message } => WiringFault::NotARequest {
                handler: handler@,
                message: message@,
            },
            WiringError::UnsatisfiedDependency { handler, message } => {
                WiringFault::UnsatisfiedDependency { handler: handler@, message: message@ }
            },
        }
    }
}

/// Whether handler `h` is bound to the message named `name`.
pub open spec fn spec_handles(h: HandlerSpecV, name: Seq<char>) -> bool {
    exists|j: int|
        0 <= j < h.handled_messages.len() && (#[trigger] h.handled_messages[j]).name == name
}

/// The names of the handlers in `hs` bound to the message named `name`, in
/// declaration order.
pub open spec fn spec_claimants(hs: Seq<HandlerSpecV>, name: Seq<char>) -> Seq<Seq<char>>
    decreases hs.len(),
{
    if hs.len() == 0 {
        seq![]
    } else {
        spec_claimants(hs.drop_last(), name) + if spec_handles(hs.last(), name) {
            seq![hs.last().name]
        } else {
            seq![]
        }
    }
}

/// The names of the response-bearing messages in `ms`, in order.
pub open spec fn spec_response_names(ms: Seq<MessageSpecV>) -> Seq<Seq<char>>
    decreases ms.len(),
{
    if ms.len() == 0 {
        seq![]
    } else {
        spec_response_names(ms.drop_last()) + if ms.last().has_response {
            seq![ms.last().name]
        } else {
            seq![]
        }
    }
}

/// The request names that handler `h` can answer, in declaration order.
pub open spec fn spec_provided(h: HandlerSpecV) -> Seq<Seq<char>> {
    spec_response_names(h.handled_messages)
}

/// The request names answerable by the handlers strictly before position `k`:
/// exactly what a handler at position `k` may depend on.
pub open spec fn spec_available_before(hs: Seq<HandlerSpecV>, k: int) -> Seq<Seq<char>>
    decreases k,
{
    if k <= 0 || k > hs.len() {
        seq![]
    } else {
        spec_available_before(hs, k - 1) + spec_provided(hs[k - 1])
    }
}

/// The first of `h`'s initialization requests at or after position `j` that
/// is not a response-bearing message, if any.
pub open spec fn spec_first_not_a_request(h: HandlerSpecV, j: int) -> Option<int>
    decreases h.init_requests.len() - j,
{
    if j < 0 || j >= h.init_requests.len() {
        None
    } else if !h.init_requests[j].has_response {
        Some(j)
    } else {
        spec_first_not_a_request(h, j + 1)
    }
}

/// The first of `h`'s initialization requests at or after position `j` whose
/// name is not among `avail`, if any.
pub open spec fn spec_first_unavailable(h: HandlerSpecV, avail: Seq<Seq<char>>, j: int) -> Option<
    int,
>
    decreases h.init_requests.len() - j,
{
    if j < 0 || j >= h.init_requests.len() {
        None
    } else if !avail.contains(h.init_requests[j].name) {
        Some(j)
    } else {
        spec_first_unavailable(h, avail, j + 1)
    }
}

/// The first binding fault among the messages at or after position `i`:
/// a response-bearing message bound to zero handlers or to more than one.
pub open spec fn spec_first_binding_fault(
    ms: Seq<MessageSpecV>,
    hs: Seq<HandlerSpecV>,
    i: int,
) -> Option<WiringFault>
    decreases ms.len() - i,
{
    if i < 0 || i >= ms.len() {
        None
    } else if ms[i].has_response && spec_claimants(hs, ms[i].name).len() == 0 {
        Some(WiringFault::NoHandler { message: ms[i].name })
    } else if ms[i].has_response && spec_claimants(hs, ms[i].name).len() > 1 {
        Some(
            WiringFault::MultipleHandlers {
                message: ms[i].name,
                handlers: spec_claimants(hs, ms[i].name),
            },
        )
    } else {
        spec_first_binding_fault(ms, hs, i + 1)
    }
}

/// The first ordering fault among the handlers at or after position `k`,
/// walking with `avail` as the request names already answerable.
pub open spec fn spec_first_order_fault(
    hs: Seq<HandlerSpecV>,
    avail: Seq<Seq<char>>,
    k: int,
) -> Option<WiringFault>
    decreases hs.len() - k,
{
    if k < 0 || k >= hs.len() {
        None
    } else {
        let h = hs[k];
        match spec_first_not_a_request(h, 0) {
            Some(j) => Some(
                WiringFault::NotARequest { handler: h.name, message: h.init_requests[j].name },
            ),
            None => match spec_first_unavailable(h, avail, 0) {
                Some(j) => Some(
                    WiringFault::UnsatisfiedDependency {
                        handler: h.name,
                        message: h.init_requests[j].name,
                    },
                ),
                None => spec_first_order_fault(hs, avail + spec_provided(h), k + 1),
            },
        }
    }
}

/// What the validator decides: the first fault, binding faults first in
/// message order, then ordering faults in handler order; `None` when the
/// wiring is consistent.
pub open spec fn spec_validate(ms: Seq<MessageSpecV>, hs: Seq<HandlerSpecV>) -> Option<
    WiringFault,
> {
    match spec_first_binding_fault(ms, hs, 0) {
        Some(f) => Some(f),
        None => spec_first_order_fault(hs, seq![], 0),
    }
}

/// One handler's ordering obligations against the answerable request names:
/// every initialization request is response-bearing and already answerable.
pub open spec fn spec_handler_ok(h: HandlerSpecV, avail: Seq<Seq<char>>) -> bool {
    forall|j: int|
        #![trigger h.init_requests[j]]
        0 <= j < h.init_requests.len() ==> (h.init_requests[j].has_response && avail.contains(
            h.init_requests[j].name,
        ))
}

/// A consistent wiring: every response-bearing message has exactly one bound
/// handler, and every handler's initialization requests are response-bearing
/// messages answerable by handlers strictly earlier in declaration order.
pub open spec fn wiring_ok(ms: Seq<MessageSpecV>, hs: Seq<HandlerSpecV>) -> bool {
    &&& forall|i: int|
        0 <= i < ms.len() && (#[trigger] ms[i]).has_response ==> spec_claimants(
            hs,
            ms[i].name,
        ).len() == 1
    &&& forall|k: int|
        0 <= k < hs.len() ==> spec_handler_ok(#[trigger] hs[k], spec_available_before(hs, k))
}

impl HandlerSpec {
    /// Whether this handler is bound to the message `message_spec`.
    pub fn handles(&self, message_spec: &MessageSpec) -> (b: bool)
        ensures
            b == spec_handles(self@, message_spec.name@),
    {
        let mut j: usize = 0;
        while j < self.handled_messages.len()
            invariant
                0 <= j <= self.handled_messages@.len(),
                forall|jj: int|
                    0 <= jj < j ==> #[trigger] self.handled_messages@[jj].name@
                        != message_spec.name@,
            decreases self.handled_messages@.len() - j,
        {
            if self.handled_messages[j].name == message_spec.name {
                proof {
                    assert(self@.handled_messages[j as int].name == message_spec.name@);
                }
                return true;
            }
            j += 1;
        }
        proof {
            assert forall|jj: int|
                0 <= jj < self@.handled_messages.len() implies (#[trigger] self@.handled_messages[jj]).name
                != message_spec.name@ by {
                assert(self.handled_messages@[jj].name@ != message_spec.name@);
            }
        }
        false
    }
}

/// The names of the handlers in `handlers` bound to the message `spec`, in
/// declaration order.
fn claimant_names(handlers: &Vec<HandlerSpec>, spec: &MessageSpec) -> (r: Vec<String>)
    ensures
        r@.map_values(|s: String| s@) == spec_claimants(spec_handler_views(handlers@), spec.name@),
{
    let mut r: Vec<String> = Vec::new();
    let mut k: usize = 0;
    proof {
        assert(spec_handler_views(handlers@.subrange(0, 0)) =~= Seq::<HandlerSpecV>::empty());
        assert(r@.map_values(|s: String| s@) =~= Seq::<Seq<char>>::empty());
    }
    while k < handlers.len()
        invariant
            0 <= k <= handlers@.len(),
            r@.map_values(|s: String| s@) == spec_claimants(
                spec_handler_views(handlers@.subrange(0, k as int)),
                spec.name@,
            ),
        decreases handlers@.len() - k,
    {
        proof {
            assert(spec_handler_views(handlers@.subrange(0, k + 1 as int)).drop_last()
                =~= spec_handler_views(handlers@.subrange(0, k as int)));
            assert(spec_handler_views(handlers@.subrange(0, k + 1 as int)).last()
                == handlers@[k as int]@);
        }
        if handlers[k].handles(spec) {
            r.push(handlers[k].name.clone());
        }
        proof {
            assert(r@.map_values(|s: String| s@) =~= spec_claimants(
                spec_handler_views(handlers@.subrange(0, k + 1 as int)),
                spec.name@,
            ));
        }
        k += 1;
    }
    proof {
        assert(handlers@.subrange(0, handlers@.len() as int) =~= handlers@);
        assert(spec_handler_views(handlers@.subrange(0, handlers@.len() as int)) =~= spec_handler_views(
            handlers@,
        ));
    }
    r
}

/// The name views of a vector of collected names.
pub open spec fn spec_names_of(avail: Seq<String>) -> Seq<Seq<char>> {
    avail.map_values(|s: String| s@)
}

/// Whether `name` is among the collected names `avail`.
fn avail_contains(avail: &Vec<String>, name: &String) -> (b: bool)
    ensures
        b == spec_names_of(avail@).contains(name@),
{
    let mut i: usize = 0;
    while i < avail.len()
        invariant
            0 <= i <= avail@.len(),
            forall|ii: int| 0 <= ii < i ==> #[trigger] avail@[ii]@ != name@,
        decreases avail@.len() - i,
    {
        if avail[i] == *name {
            proof {
                assert(spec_names_of(avail@)[i as int] == name@);
            }
            return true;
        }
        i += 1;
    }
    proof {
        assert forall|ii: int|
            0 <= ii < spec_names_of(avail@).len() implies #[trigger] spec_names_of(avail@)[ii]
            != name@ by {
            assert(avail@[ii]@ != name@);
        }
    }
    false
}

/// Validates the wiring of the ordered handler declarations `handlers`
/// against the declared message universe `messages`, per the rules of
/// [`wiring_ok`].  Returns the first fault found: binding faults in message
/// order first, then ordering faults in handler order.  Runs once, before any
/// handler instance exists.
pub fn validate_wiring(messages: &Vec<MessageSpec>, handlers: &Vec<HandlerSpec>) -> (r: Result<
    (),
    WiringError,
>)
    ensures
        match r {
            Ok(()) => spec_validate(spec_msg_views(messages@), spec_handler_views(handlers@))
                is None,
            Err(e) => spec_validate(spec_msg_views(messages@), spec_handler_views(handlers@))
                == Some(e@),
        },
{
    let ghost msv = spec_msg_views(messages@);
    let ghost hsv = spec_handler_views(handlers@);
    // Binding pass: every response-bearing message has exactly one handler.
    let mut i: usize = 0;
    while i < messages.len()
        invariant
            0 <= i <= messages@.len(),
            msv == spec_msg_views(messages@),
            hsv == spec_handler_views(handlers@),
            spec_first_binding_fault(msv, hsv, 0) == spec_first_binding_fault(msv, hsv, i as int),
        decreases messages@.len() - i,
    {
        let m = &messages[i];
        proof {
            assert(msv[i as int] == m@);
        }
        if m.has_response {
            let names = claimant_names(handlers, m);
            proof {
                assert(names@.map_values(|s: String| s@).len() == names@.len());
            }
            if names.len() == 0 {
                return Err(WiringError::NoHandler { message: m.name.clone() });
            }
            if names.len() > 1 {
                return Err(
                    WiringError::MultipleHandlers { message: m.name.clone(), handlers: names },
                );
            }
        }
        i += 1;
    }
    // Ordering pass: walk the handlers in declaration order, growing the list
    // of answerable request names.
    let mut avail: Vec<String> = Vec::new();
    let mut k: usize = 0;
    proof {
        assert(spec_names_of(avail@) =~= Seq::<Seq<char>>::empty());
        assert(Seq::<Seq<char>>::empty() =~= seq![]);
    }
    while k < handlers.len()
        invariant
            0 <= k <= handlers@.len(),
            msv == spec_msg_views(messages@),
            hsv == spec_handler_views(handlers@),
            spec_first_binding_fault(msv, hsv, 0) is None,
            spec_first_order_fault(hsv, seq![], 0) == spec_first_order_fault(
                hsv,
                spec_names_of(avail@),
                k as int,
            ),
        decreases handlers@.len() - k,
    {
        let h = &handlers[k];
        proof {
            assert(hsv[k as int] == h@);
        }
        // Every initialization request must itself be a request.
        let mut j: usize = 0;
        while j < h.init_requests.len()
            invariant
                0 <= j <= h.init_requests@.len(),
                0 <= k < handlers@.len(),
                msv == spec_msg_views(messages@),
                hsv == spec_handler_views(handlers@),
                h@ == hsv[k as int],
                spec_first_binding_fault(msv, hsv, 0) is None,
                spec_first_order_fault(hsv, seq![], 0) == spec_first_order_fault(
                    hsv,
                    spec_names_of(avail@),
                    k as int,
                ),
                spec_first_not_a_request(h@, 0) == spec_first_not_a_request(h@, j as int),
            decreases h.init_requests@.len() - j,
        {
            proof {
                assert(h@.init_requests[j as int] == h.init_requests@[j as int]@);
            }
            if !h.init_requests[j].has_response {
                return Err(
                    WiringError::NotARequest {
                        handler: h.name.clone(),
                        message: h.init_requests[j].name.clone(),
                    },
                );
            }
            j += 1;
        }
        // Every initialization request must already be answerable.
        let mut j: usize = 0;
        while j < h.init_requests.len()
            invariant
                0 <= j <= h.init_requests@.len(),
                0 <= k < handlers@.len(),
                msv == spec_msg_views(messages@),
                hsv == spec_handler_views(handlers@),
                h@ == hsv[k as int],
                spec_first_binding_fault(msv, hsv, 0) is None,
                spec_first_order_fault(hsv, seq![], 0) == spec_first_order_fault(
                    hsv,
                    spec_names_of(avail@),
                    k as int,
                ),
                spec_first_not_a_request(h@, 0) is None,
                spec_first_unavailable(h@, spec_names_of(avail@), 0) == spec_first_unavailable(
                    h@,
                    spec_names_of(avail@),
                    j as int,
                ),
            decreases h.init_requests@.len() - j,
        {
            proof {
                assert(h@.init_requests[j as int] == h.init_requests@[j as int]@);
            }
            if !avail_contains(&avail, &h.init_requests[j].name) {
                return Err(
                    WiringError::UnsatisfiedDependency {
                        handler: h.name.clone(),
                        message: h.init_requests[j].name.clone(),
                    },
                );
            }
            j += 1;
        }
        // This handler's response-bearing messages become answerable.
        let ghost avail_before = spec_names_of(avail@);
        let mut j: usize = 0;
        proof {
            assert(spec_msg_views(h.handled_messages@.subrange(0, 0)) =~= Seq::<
                MessageSpecV,
            >::empty());
            assert(avail_before + spec_response_names(Seq::<MessageSpecV>::empty())
                =~= avail_before);
        }
        while j < h.handled_messages.len()
            invariant
                0 <= j <= h.handled_messages@.len(),
                0 <= k < handlers@.len(),
                msv == spec_msg_views(messages@),
                hsv == spec_handler_views(handlers@),
                h@ == hsv[k as int],
                spec_first_binding_fault(msv, hsv, 0) is None,
                spec_first_order_fault(hsv, seq![], 0) == spec_first_order_fault(
                    hsv,
                    avail_before,
                    k as int,
                ),
                spec_first_not_a_request(h@, 0) is None,
                spec_first_unavailable(h@, avail_before, 0) is None,
                spec_names_of(avail@) == avail_before + spec_response_names(
                    spec_msg_views(h.handled_messages@.subrange(0, j as int)),
                ),
            decreases h.handled_messages@.len() - j,
        {
            proof {
                assert(spec_msg_views(h.handled_messages@.subrange(0, j + 1 as int)).drop_last()
                    =~= spec_msg_views(h.handled_messages@.subrange(0, j as int)));
                assert(spec_msg_views(h.handled_messages@.subrange(0, j + 1 as int)).last()
                    == h.handled_messages@[j as int]@);
            }
            if h.handled_messages[j].has_response {
                let ghost pre = avail@;
                let pushed_name = h.handled_messages[j].name.clone();
                proof {
                    assert(pushed_name@ == h.handled_messages@[j as int].name@);
                }
                avail.push(pushed_name);
                proof {
                    assert(avail@ == pre.push(pushed_name));
                    assert(spec_names_of(avail@) =~= spec_names_of(pre).push(
                        h.handled_messages@[j as int].name@,
                    ));
                    assert(spec_response_names(
                        spec_msg_views(h.handled_messages@.subrange(0, j + 1 as int)),
                    ) == spec_response_names(
                        spec_msg_views(h.handled_messages@.subrange(0, j as int)),
                    ) + seq![h.handled_messages@[j as int].name@]);
                    assert(spec_names_of(avail@) =~= avail_before + spec_response_names(
                        spec_msg_views(h.handled_messages@.subrange(0, j + 1 as int)),
                    ));
                }
            } else {
                proof {
                    assert(spec_response_names(
                        spec_msg_views(h.handled_messages@.subrange(0, j + 1 as int)),
                    ) == spec_response_names(
                        spec_msg_views(h.handled_messages@.subrange(0, j as int)),
                    ) + Seq::<Seq<char>>::empty());
                    assert(spec_names_of(avail@) =~= avail_before + spec_response_names(
                        spec_msg_views(h.handled_messages@.subrange(0, j + 1 as int)),
                    ));
                }
            }
            j += 1;
        }
        proof {
            assert(h.handled_messages@.subrange(0, h.handled_messages@.len() as int)
                =~= h.handled_messages@);
            assert(spec_msg_views(
                h.handled_messages@.subrange(0, h.handled_messages@.len() as int),
            ) =~= h@.handled_messages);
            assert(spec_names_of(avail@) =~= avail_before + spec_provided(hsv[k as int]));
        }
        k += 1;
    }
    Ok(())
}

/// Membership in a concatenation is membership in either part.
proof fn lemma_concat_contains<A>(a: Seq<A>, b: Seq<A>, x: A)
    ensures
        (a + b).contains(x) <==> a.contains(x) || b.contains(x),
{
    if a.contains(x) {
        let i = choose|i: int| 0 <= i < a.len() && a[i] == x;
        assert((a + b)[i] == x);
    }
    if b.contains(x) {
        let i = choose|i: int| 0 <= i < b.len() && b[i] == x;
        assert((a + b)[a.len() + i] == x);
    }
    if (a + b).contains(x) {
        let i = choose|i: int| 0 <= i < (a + b).len() && (a + b)[i] == x;
        if i < a.len() {
            assert(a[i] == x);
        } else {
            assert(b[i - a.len()] == x);
        }
    }
}

/// A name is among the response names of `ms` exactly when some
/// response-bearing entry of `ms` bears it.
pub proof fn lemma_response_names_contains(ms: Seq<MessageSpecV>, n: Seq<char>)
    ensures
        spec_response_names(ms).contains(n) <==> exists|j: int|
            0 <= j < ms.len() && (#[trigger] ms[j]).name == n && ms[j].has_response,
    decreases ms.len(),
{
    if ms.len() == 0 {
        assert(!spec_response_names(ms).contains(n));
    } else {
        let pre = ms.drop_last();
        lemma_response_names_contains(pre, n);
        let tail: Seq<Seq<char>> = if ms.last().has_response {
            seq![ms.last().name]
        } else {
            seq![]
        };
        assert(spec_response_names(ms) == spec_response_names(pre) + tail);
        lemma_concat_contains(spec_response_names(pre), tail, n);
        if spec_response_names(pre).contains(n) {
            let j = choose|j: int|
                0 <= j < pre.len() && (#[trigger] pre[j]).name == n && pre[j].has_response;
            assert(ms[j] == pre[j]);
            assert(ms[j].name == n && ms[j].has_response);
        }
        if tail.contains(n) {
            assert(ms.last().has_response && ms.last().name == n);
            assert(ms[ms.len() - 1].name == n && ms[ms.len() - 1].has_response);
        }
        if exists|j: int| 0 <= j < ms.len() && (#[trigger] ms[j]).name == n && ms[j].has_response {
            let j = choose|j: int|
                0 <= j < ms.len() && (#[trigger] ms[j]).name == n && ms[j].has_response;
            if j < ms.len() - 1 {
                assert(pre[j] == ms[j]);
                assert(pre[j].name == n && pre[j].has_response);
                assert(spec_response_names(pre).contains(n));
            } else {
                assert(tail.contains(n)) by {
                    assert(tail[0] == n);
                }
            }
            assert(spec_response_names(ms).contains(n));
        }
    }
}

/// What a handler at position `k` may depend on is exactly what some
/// strictly earlier handler answers: a request name is available at `k`
/// precisely when a handler before `k` handles a response-bearing message of
/// that name.
pub proof fn lemma_available_before_exact(hs: Seq<HandlerSpecV>, k: int, n: Seq<char>)
    requires
        0 <= k <= hs.len(),
    ensures
        spec_available_before(hs, k).contains(n) <==> exists|i: int, j: int|
            0 <= i < k && 0 <= j < hs[i].handled_messages.len()
                && (#[trigger] hs[i].handled_messages[j]).name == n
                && hs[i].handled_messages[j].has_response,
    decreases k,
{
    if k == 0 {
        assert(!spec_available_before(hs, 0).contains(n));
    } else {
        lemma_available_before_exact(hs, k - 1, n);
        lemma_response_names_contains(hs[k - 1].handled_messages, n);
        lemma_concat_contains(spec_available_before(hs, k - 1), spec_provided(hs[k - 1]), n);
        if spec_available_before(hs, k).contains(n) {
            if spec_available_before(hs, k - 1).contains(n) {
                let (i, j) = choose|i: int, j: int|
                    0 <= i < k - 1 && 0 <= j < hs[i].handled_messages.len()
                        && (#[trigger] hs[i].handled_messages[j]).name == n
                        && hs[i].handled_messages[j].has_response;
                assert(hs[i].handled_messages[j].name == n);
            } else {
                let j = choose|j: int|
                    0 <= j < hs[k - 1].handled_messages.len()
                        && (#[trigger] hs[k - 1].handled_messages[j]).name == n
                        && hs[k - 1].handled_messages[j].has_response;
                assert(hs[k - 1].handled_messages[j].name == n);
            }
        }
        if exists|i: int, j: int|
            0 <= i < k && 0 <= j < hs[i].handled_messages.len()
                && (#[trigger] hs[i].handled_messages[j]).name == n
                && hs[i].handled_messages[j].has_response {
            let (i, j) = choose|i: int, j: int|
                0 <= i < k && 0 <= j < hs[i].handled_messages.len()
                    && (#[trigger] hs[i].handled_messages[j]).name == n
                    && hs[i].handled_messages[j].has_response;
            if i < k - 1 {
                assert(spec_available_before(hs, k - 1).contains(n));
            } else {
                assert(spec_provided(hs[k - 1]).contains(n));
            }
        }
    }
}

/// No initialization request of `h` at or after `j` lacks a response exactly
/// when all of them bear one.
proof fn lemma_first_not_a_request_none(h: HandlerSpecV, j: int)
    requires
        0 <= j <= h.init_requests.len(),
    ensures
        spec_first_not_a_request(h, j) is None <==> forall|t: int|
            j <= t < h.init_requests.len() ==> (#[trigger] h.init_requests[t]).has_response,
        spec_first_not_a_request(h, j) matches Some(t) ==> j <= t < h.init_requests.len()
            && !h.init_requests[t].has_response,
    decreases h.init_requests.len() - j,
{
    if j < h.init_requests.len() {
        lemma_first_not_a_request_none(h, j + 1);
    }
}

/// No initialization request of `h` at or after `j` is unanswerable exactly
/// when all of them are among `avail`.
proof fn lemma_first_unavailable_none(h: HandlerSpecV, avail: Seq<Seq<char>>, j: int)
    requires
        0 <= j <= h.init_requests.len(),
    ensures
        spec_first_unavailable(h, avail, j) is None <==> forall|t: int|
            j <= t < h.init_requests.len() ==> avail.contains(
                (#[trigger] h.init_requests[t]).name,
            ),
        spec_first_unavailable(h, avail, j) matches Some(t) ==> j <= t < h.init_requests.len()
            && !avail.contains(h.init_requests[t].name),
    decreases h.init_requests.len() - j,
{
    if j < h.init_requests.len() {
        lemma_first_unavailable_none(h, avail, j + 1);
    }
}

/// One instantiation of a satisfied handler's obligations.
proof fn lemma_handler_ok_instance(h: HandlerSpecV, avail: Seq<Seq<char>>, j: int)
    requires
        spec_handler_ok(h, avail),
        0 <= j < h.init_requests.len(),
    ensures
        h.init_requests[j].has_response,
        avail.contains(h.init_requests[j].name),
{
}

/// The ordering walk from position `k` finds no fault exactly when every
/// handler at or after `k` is satisfied by what is available at its own
/// position.
proof fn lemma_order_fault_none(hs: Seq<HandlerSpecV>, k: int)
    requires
        0 <= k <= hs.len(),
    ensures
        spec_first_order_fault(hs, spec_available_before(hs, k), k) is None <==> forall|t: int|
            k <= t < hs.len() ==> spec_handler_ok(#[trigger] hs[t], spec_available_before(hs, t)),
    decreases hs.len() - k,
{
    if k < hs.len() {
        let h = hs[k];
        let avail = spec_available_before(hs, k);
        lemma_first_not_a_request_none(h, 0);
        lemma_first_unavailable_none(h, avail, 0);
        lemma_order_fault_none(hs, k + 1);
        assert(spec_available_before(hs, k + 1) == avail + spec_provided(h));
        match spec_first_not_a_request(h, 0) {
            Some(j) => {
                assert(!h.init_requests[j].has_response);
                assert(!spec_handler_ok(h, avail));
            },
            None => {
                match spec_first_unavailable(h, avail, 0) {
                    Some(j) => {
                        assert(!avail.contains(h.init_requests[j].name));
                        if spec_handler_ok(h, avail) {
                            lemma_handler_ok_instance(h, avail, j);
                        }
                        assert(!spec_handler_ok(h, avail));
                    },
                    None => {
                        assert(spec_handler_ok(h, avail));
                    },
                }
            },
        }
    }
}

/// The binding pass from position `i` finds no fault exactly when every
/// response-bearing message at or after `i` has exactly one bound handler.
proof fn lemma_binding_fault_none(ms: Seq<MessageSpecV>, hs: Seq<HandlerSpecV>, i: int)
    requires
        0 <= i <= ms.len(),
    ensures
        spec_first_binding_fault(ms, hs, i) is None <==> forall|t: int|
            i <= t < ms.len() && (#[trigger] ms[t]).has_response ==> spec_claimants(
                hs,
                ms[t].name,
            ).len() == 1,
    decreases ms.len() - i,
{
    if i < ms.len() {
        lemma_binding_fault_none(ms, hs, i + 1);
    }
}

/// The validator accepts exactly the consistent wirings: for any declaration
/// order that satisfies the ordering and binding rules, validation (and so
/// context construction) succeeds, and for no other.
pub proof fn lemma_validate_ok_iff_wiring_ok(ms: Seq<MessageSpecV>, hs: Seq<HandlerSpecV>)
    ensures
        spec_validate(ms, hs) is None <==> wiring_ok(ms, hs),
{
    lemma_binding_fault_none(ms, hs, 0);
    assert(spec_available_before(hs, 0) == Seq::<Seq<char>>::empty());
    assert(Seq::<Seq<char>>::empty() =~= seq![]);
    lemma_order_fault_none(hs, 0);
}

} // verus!
