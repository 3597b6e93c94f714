use vstd::prelude::*;

use crate::envelope::{opt_view, Envelope};
use crate::inspect::{events_show_failure, log_events_indicate_failure, messages_view};
use crate::pipeline::{
    begin_dispatch, begin_verification, opt_nat, retry_message, retry_spec, status_check_message,
    status_check_spec, DispatchStart, Inspection, OutboundMessage,
};
use crate::text::after_last_colon;

verus! {

/// What the driver of a stage does next with the message in hand.
pub enum MessageAction {
    /// Invoke the named function (dispatch stage).
    Invoke(String),
    /// Query the invocation's logs (verification stage).
    Inspect(Inspection),
    /// Publish this message; acknowledge only once that succeeded.
    Publish(OutboundMessage),
    /// Acknowledge the message: it is done with.
    Ack,
    /// Leave the message unacknowledged so that the backend redelivers it.
    LeaveUnacked,
}

/// How the invocation call ended.
pub enum InvocationOutcome {
    /// The function was accepted for execution, with the request id reported, if any.
    Accepted(Option<String>),
    /// Transport or authorisation failure.
    Failed,
}

/// How the log query ended.
pub enum InspectionOutcome {
    /// The query returned these events' messages, in order.
    Completed(Vec<Option<String>>),
    /// Transport failure.
    Failed,
}

/// Dispatch stage, on a received trigger: invoke its function, or acknowledge
/// an envelope that names none without invoking anything.
pub fn dispatch_received(env: &Envelope) -> (r: MessageAction)
    ensures
        match env@.lambda_arn {
            None => r is Ack,
            Some(a) => r matches MessageAction::Invoke(f) && f@ == a,
        },
{
    match begin_dispatch(env) {
        DispatchStart::Discard => MessageAction::Ack,
        DispatchStart::Invoke(f) => MessageAction::Invoke(f),
    }
}

/// Dispatch stage, once the invocation call has ended: publish the status
/// check, or leave the trigger unacknowledged after a failed call.
pub fn dispatch_invoked(
    env: Envelope,
    stream_sequence: Option<u64>,
    outcome: InvocationOutcome,
) -> (r: MessageAction)
    ensures
        match outcome {
            InvocationOutcome::Failed => r is LeaveUnacked,
            InvocationOutcome::Accepted(id) => r matches MessageAction::Publish(m) && m@
                == status_check_spec(env@, opt_nat(stream_sequence), opt_view(id)),
        },
{
    match outcome {
        InvocationOutcome::Failed => MessageAction::LeaveUnacked,
        InvocationOutcome::Accepted(id) => MessageAction::Publish(
            status_check_message(env, stream_sequence, id),
        ),
    }
}

/// Verification stage, on a received status check: query the logs of its
/// function, or acknowledge an envelope that names none.
pub fn verification_received(env: &Envelope) -> (r: MessageAction)
    ensures
        match env@.lambda_arn {
            None => r is Ack,
            Some(a) => r matches MessageAction::Inspect(i) && i.log_group@ == "/aws/lambda/"@
                + after_last_colon(a) && i.filter_pattern@ == "REPORT RequestId: "@
                + match env@.lambda_request_id {
                Some(q) => q,
                None => Seq::empty(),
            },
        },
{
    match begin_verification(env) {
        None => MessageAction::Ack,
        Some(i) => MessageAction::Inspect(i),
    }
}

/// Verification stage, once the log query has ended: republish the trigger on
/// failure evidence while retries are left, else acknowledge; after a failed
/// query leave the status check unacknowledged.
pub fn verification_inspected(env: Envelope, outcome: InspectionOutcome) -> (r: MessageAction)
    ensures
        match outcome {
            InspectionOutcome::Failed => r is LeaveUnacked,
            InspectionOutcome::Completed(events) => match retry_spec(
                env@,
                events_show_failure(messages_view(events@)),
            ) {
                None => r is Ack,
                Some(m) => r matches MessageAction::Publish(p) && p@ == m,
            },
        },
{
    match outcome {
        InspectionOutcome::Failed => MessageAction::LeaveUnacked,
        InspectionOutcome::Completed(events) => {
            let failed = log_events_indicate_failure(&events);
            match retry_message(env, failed) {
                None => MessageAction::Ack,
                Some(m) => MessageAction::Publish(m),
            }
        },
    }
}

/// Either stage, once a publish has ended: acknowledge only after it succeeded.
pub fn published(succeeded: bool) -> (r: MessageAction)
    ensures
        succeeded ==> r is Ack,
        !succeeded ==> r is LeaveUnacked,
{
    if succeeded {
        MessageAction::Ack
    } else {
        MessageAction::LeaveUnacked
    }
}

} // verus!
