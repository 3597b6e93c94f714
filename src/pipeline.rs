use vstd::prelude::*;
use vstd::string::*;

use crate::delay::{delay_spec, get_delay_seconds};
use crate::envelope::{opt_view, Envelope, EnvelopeView, MAX_RETRY_INDEX};
use crate::text::{after_last_colon, decimal, decimal_string, trailing_segment};

verus! {

/// Which of the two subjects a message is published to.
#[derive(PartialEq, Eq, Structural, Clone, Copy, Debug)]
pub enum Route {
    /// The subject the dispatch stage consumes.
    Trigger,
    /// The subject the verification stage consumes.
    StatusCheck,
}

/// A message to publish, with its delay and deduplication directives.
pub struct OutboundMessage {
    pub route: Route,
    pub envelope: Envelope,
    /// Seconds the backend withholds delivery.
    pub delay_secs: u64,
    /// The delay directive as sent: the seconds followed by `s`.
    pub delay_directive: String,
    /// The idempotency key: the envelope's event id.
    pub dedup_key: String,
}

pub struct OutboundView {
    pub route: Route,
    pub envelope: EnvelopeView,
    pub delay_secs: nat,
    pub delay_directive: Seq<char>,
    pub dedup_key: Seq<char>,
}

impl View for OutboundMessage {
    type V = OutboundView;

    open spec fn view(&self) -> OutboundView {
        OutboundView {
            route: self.route,
            envelope: self.envelope@,
            delay_secs: self.delay_secs as nat,
            delay_directive: self.delay_directive@,
            dedup_key: self.dedup_key@,
        }
    }
}

pub open spec fn opt_outbound_view(o: Option<OutboundMessage>) -> Option<OutboundView> {
    match o {
        Some(m) => Some(m@),
        None => None,
    }
}

pub open spec fn opt_nat(o: Option<u64>) -> Option<nat> {
    match o {
        Some(n) => Some(n as nat),
        None => None,
    }
}

/// The delay directive for `secs`, such as `60s`.
pub open spec fn delay_directive_of(secs: nat) -> Seq<char> {
    decimal(secs) + "s"@
}

/// The event id a status check carries: the one already set, else the
/// stream sequence of the originating message, else empty.
pub open spec fn stamped_event_id(current: Option<Seq<char>>, sequence: Option<nat>) -> Seq<char> {
    match current {
        Some(e) => e,
        None => match sequence {
            Some(n) => decimal(n),
            None => Seq::empty(),
        },
    }
}

/// The status check that the dispatch stage publishes after invoking `e`'s function.
pub open spec fn status_check_spec(
    e: EnvelopeView,
    sequence: Option<nat>,
    request_id: Option<Seq<char>>,
) -> OutboundView {
    let id = stamped_event_id(e.event_id, sequence);
    OutboundView {
        route: Route::StatusCheck,
        envelope: EnvelopeView {
            lambda_arn: e.lambda_arn,
            retry_index: e.retry_index,
            event_id: Some(id),
            lambda_request_id: Some(
                match request_id {
                    Some(r) => r,
                    None => "unknown"@,
                },
            ),
            extra: e.extra,
        },
        delay_secs: delay_spec(e.retry_index),
        delay_directive: delay_directive_of(delay_spec(e.retry_index)),
        dedup_key: id,
    }
}

/// The trigger that the verification stage republishes for `e`, if any: only on
/// failure evidence and while retries are left.
pub open spec fn retry_spec(e: EnvelopeView, failure_found: bool) -> Option<OutboundView> {
    if failure_found && e.retry_index < MAX_RETRY_INDEX {
        let id = match e.event_id {
            Some(i) => i,
            None => Seq::empty(),
        };
        Some(
            OutboundView {
                route: Route::Trigger,
                envelope: EnvelopeView { retry_index: e.retry_index + 1, ..e },
                delay_secs: delay_spec(e.retry_index + 1),
                delay_directive: delay_directive_of(delay_spec(e.retry_index + 1)),
                dedup_key: id,
            },
        )
    } else {
        None
    }
}

/// What the dispatch stage does first with a trigger envelope.
pub enum DispatchStart {
    /// No function to invoke: a permanent error, acknowledged and dropped.
    Discard,
    /// Invoke the named function.
    Invoke(String),
}

/// First dispatch decision: invoke the envelope's function, or drop an envelope
/// that names none.
pub fn begin_dispatch(env: &Envelope) -> (r: DispatchStart)
    ensures
        match env@.lambda_arn {
            None => r is Discard,
            Some(a) => r matches DispatchStart::Invoke(f) && f@ == a,
        },
{
    match &env.lambda_arn {
        None => DispatchStart::Discard,
        Some(a) => DispatchStart::Invoke(a.clone()),
    }
}

/// The delay directive for `secs`.
pub fn delay_directive(secs: u64) -> (r: String)
    ensures
        r@ == delay_directive_of(secs as nat),
{
    decimal_string(secs).concat("s")
}

/// The status check to publish once `env`'s function has accepted the invocation.
/// `stream_sequence` is the trigger message's sequence number, `request_id`
/// what the invocation reported.
pub fn status_check_message(
    env: Envelope,
    stream_sequence: Option<u64>,
    request_id: Option<String>,
) -> (r: OutboundMessage)
    ensures
        r@ == status_check_spec(env@, opt_nat(stream_sequence), opt_view(request_id)),
{
    let Envelope { lambda_arn, retry_index, event_id, lambda_request_id: _, extra } = env;
    let id: String = match event_id {
        Some(e) => e,
        None => match stream_sequence {
            Some(n) => decimal_string(n),
            None => String::new(),
        },
    };
    let rid: String = match request_id {
        Some(r) => r,
        None => String::from_str("unknown"),
    };
    let delay = get_delay_seconds(retry_index);
    let dedup_key = id.clone();
    let r = OutboundMessage {
        route: Route::StatusCheck,
        envelope: Envelope {
            lambda_arn,
            retry_index,
            event_id: Some(id),
            lambda_request_id: Some(rid),
            extra,
        },
        delay_secs: delay,
        delay_directive: delay_directive(delay),
        dedup_key,
    };
    proof {
        assert(r@.envelope == status_check_spec(env@, opt_nat(stream_sequence), opt_view(request_id)).envelope);
    }
    r
}

/// What the verification stage inspects for an envelope's invocation.
pub struct Inspection {
    /// The function's log namespace.
    pub log_group: String,
    /// The query pattern that selects the invocation's report lines.
    pub filter_pattern: String,
}

/// First verification decision: where to look for failure evidence, or `None`
/// for an envelope that names no function (a permanent error, acknowledged).
pub fn begin_verification(env: &Envelope) -> (r: Option<Inspection>)
    ensures
        match env@.lambda_arn {
            None => r is None,
            Some(a) => r matches Some(i) && i.log_group@ == "/aws/lambda/"@ + after_last_colon(a)
                && i.filter_pattern@ == "REPORT RequestId: "@ + match env@.lambda_request_id {
                Some(q) => q,
                None => Seq::empty(),
            },
        },
{
    match &env.lambda_arn {
        None => None,
        Some(a) => {
            let name = trailing_segment(a.as_str());
            let log_group = String::from_str("/aws/lambda/").concat(name.as_str());
            let filter_pattern = match &env.lambda_request_id {
                Some(q) => String::from_str("REPORT RequestId: ").concat(q.as_str()),
                None => {
                    let p = String::from_str("REPORT RequestId: ");
                    proof {
                        assert(p@ + Seq::<char>::empty() =~= p@);
                    }
                    p
                },
            };
            Some(Inspection { log_group, filter_pattern })
        },
    }
}

/// Final verification decision: the trigger to republish, or `None` where the
/// status check is only acknowledged.
pub fn retry_message(env: Envelope, failure_found: bool) -> (r: Option<OutboundMessage>)
    ensures
        opt_outbound_view(r) == retry_spec(env@, failure_found),
{
    if failure_found && env.retry_index < MAX_RETRY_INDEX {
        let Envelope { lambda_arn, retry_index, event_id, lambda_request_id, extra } = env;
        let next = retry_index + 1;
        let delay = get_delay_seconds(next);
        let dedup_key: String = match &event_id {
            Some(i) => i.clone(),
            None => String::new(),
        };
        let r = OutboundMessage {
            route: Route::Trigger,
            envelope: Envelope { lambda_arn, retry_index: next, event_id, lambda_request_id, extra },
            delay_secs: delay,
            delay_directive: delay_directive(delay),
            dedup_key,
        };
        proof {
            assert(r@.envelope == retry_spec(env@, failure_found).unwrap().envelope);
        }
        Some(r)
    } else {
        None
    }
}

/// Along one logical event, dispatch then verification: the status check keeps
/// the trigger's retry index and stamps an event id, and the republished
/// trigger, if any, carries that same event id with a retry index one higher,
/// so the index never decreases.
pub proof fn lemma_retry_index_never_decreases(
    e: EnvelopeView,
    sequence: Option<nat>,
    request_id: Option<Seq<char>>,
    failure_found: bool,
)
    ensures
        status_check_spec(e, sequence, request_id).envelope.retry_index == e.retry_index,
        e.event_id matches Some(id) ==> status_check_spec(e, sequence, request_id).envelope.event_id
            == Some(id),
        retry_spec(status_check_spec(e, sequence, request_id).envelope, failure_found) matches Some(
            m,
        ) ==> m.envelope.retry_index == e.retry_index + 1 && m.envelope.event_id
            == status_check_spec(e, sequence, request_id).envelope.event_id,
{
}

/// A status check whose retry index has reached the cap is never republished,
/// whatever the inspection found; below the cap nothing is republished without
/// failure evidence.
pub proof fn lemma_no_republish_at_cap(e: EnvelopeView, failure_found: bool)
    ensures
        e.retry_index >= MAX_RETRY_INDEX ==> retry_spec(e, failure_found) is None,
        !failure_found ==> retry_spec(e, failure_found) is None,
{
}

/// One round of a logical event: the trigger's stream sequence, the request id
/// its invocation reported, and whether verification found failure evidence.
pub type Round = (Option<nat>, Option<Seq<char>>, bool);

/// Every envelope published for one logical event that starts as the trigger
/// `e`, in order: a status check per dispatch, then a republished trigger while
/// the rounds find failures and retries are left.
pub open spec fn event_history(e: EnvelopeView, rounds: Seq<Round>) -> Seq<EnvelopeView>
    decreases rounds.len(),
{
    if rounds.len() == 0 {
        Seq::empty()
    } else {
        let check = status_check_spec(e, rounds[0].0, rounds[0].1).envelope;
        match retry_spec(check, rounds[0].2) {
            None => seq![check],
            Some(m) => seq![check, m.envelope] + event_history(m.envelope, rounds.drop_first()),
        }
    }
}

/// Along the whole history of a logical event the retry index never decreases
/// and never falls below the trigger's; once stamped, the event id stays the
/// same on every message; and starting within the cap, no message passes it.
pub proof fn lemma_event_history(e: EnvelopeView, rounds: Seq<Round>)
    ensures
        forall|i: int, j: int|
            0 <= i <= j < event_history(e, rounds).len() ==> (#[trigger] event_history(
                e,
                rounds,
            )[i]).retry_index <= (#[trigger] event_history(e, rounds)[j]).retry_index,
        forall|i: int|
            0 <= i < event_history(e, rounds).len() ==> e.retry_index <= (
            #[trigger] event_history(e, rounds)[i]).retry_index,
        forall|i: int|
            0 <= i < event_history(e, rounds).len() ==> (#[trigger] event_history(
                e,
                rounds,
            )[i]).event_id == event_history(e, rounds)[0].event_id,
        e.event_id is Some && event_history(e, rounds).len() > 0 ==> event_history(e, rounds)[0].event_id
            == e.event_id,
        e.retry_index <= MAX_RETRY_INDEX ==> forall|i: int|
            0 <= i < event_history(e, rounds).len() ==> (#[trigger] event_history(
                e,
                rounds,
            )[i]).retry_index <= MAX_RETRY_INDEX,
    decreases rounds.len(),
{
    if rounds.len() > 0 {
        let check = status_check_spec(e, rounds[0].0, rounds[0].1).envelope;
        match retry_spec(check, rounds[0].2) {
            None => {},
            Some(m) => {
                let rest = rounds.drop_first();
                lemma_event_history(m.envelope, rest);
                let h = event_history(e, rounds);
                let t = event_history(m.envelope, rest);
                assert(h == seq![check, m.envelope] + t);
                assert forall|i: int| 0 <= i < t.len() implies #[trigger] h[i + 2] == t[i] by {}
                assert forall|i: int, j: int| 0 <= i <= j < h.len() implies (
                #[trigger] h[i]).retry_index <= (#[trigger] h[j]).retry_index by {
                    if i >= 2 {
                        assert(h[i] == t[i - 2] && h[j] == t[j - 2]);
                    } else if j >= 2 {
                        assert(h[j] == t[j - 2]);
                    }
                }
                assert forall|i: int| 0 <= i < h.len() implies (#[trigger] h[i]).event_id
                    == h[0].event_id by {
                    if i >= 2 {
                        assert(h[i] == t[i - 2]);
                    }
                }
                assert forall|i: int| 0 <= i < h.len() implies e.retry_index <= (
                #[trigger] h[i]).retry_index by {
                    if i >= 2 {
                        assert(h[i] == t[i - 2]);
                    }
                }
                if e.retry_index <= MAX_RETRY_INDEX {
                    assert forall|i: int| 0 <= i < h.len() implies (
                    #[trigger] h[i]).retry_index <= MAX_RETRY_INDEX by {
                        if i >= 2 {
                            assert(h[i] == t[i - 2]);
                        }
                    }
                }
            },
        }
    }
}

} // verus!
