//! Bridges a durable event stream to an asynchronously invoked function: the
//! dispatch stage invokes the function and schedules a delayed status check,
//! the verification stage inspects the outcome and requeues failed events with
//! bounded exponential backoff. This crate holds the decisions of both stages;
//! the messaging backend and the cloud clients are driven by the caller.
use vstd::prelude::*;

pub mod delay;
pub mod envelope;
pub mod inspect;
pub mod models;
pub mod pipeline;
pub mod provision;
pub mod stage;
pub mod text;

verus! {

} // verus!
