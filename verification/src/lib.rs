//! A message-dispatch runtime.
//!
//! A fixed universe of typed messages is routed to the handlers statically
//! declared to process them.  Dispatch is available both as an immediate
//! in-thread call on the [`context::Context`] and as asynchronous cross-thread
//! delivery through a bounded mailbox consumed by the context's run loop.
//! Before any handler is built, a wiring validator checks that every
//! response-bearing message has exactly one handler and that every handler's
//! initialization requests are answerable by handlers earlier in declaration
//! order.  A single-flight shared-future state machine lets many concurrent
//! observers share one expensive one-shot computation.

pub mod mailbox;
pub mod messages;
pub mod wiring;
pub mod dispatch;
pub mod handlers;
pub mod example_handlers;
pub mod context;
pub mod single_flight;
pub mod util;
pub mod iters;
