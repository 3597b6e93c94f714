use vstd::prelude::*;

verus! {

/// The highest retry index: an envelope that reaches it is never dispatched again.
pub const MAX_RETRY_INDEX: u64 = 6;

/// One logical event and its retry state, as it travels between the two stages.
pub struct Envelope {
    /// The function to invoke; required by both stages.
    pub lambda_arn: Option<String>,
    /// Redelivery attempts already made.
    pub retry_index: u64,
    /// Deduplication key, stamped once and carried over every retry.
    pub event_id: Option<String>,
    /// Identifier returned by the invocation; set once dispatch has happened.
    pub lambda_request_id: Option<String>,
    /// Every other payload field, name and JSON text, in payload order.
    pub extra: Vec<(String, String)>,
}

pub open spec fn opt_view(o: Option<String>) -> Option<Seq<char>> {
    match o {
        Some(s) => Some(s@),
        None => None,
    }
}

pub struct EnvelopeView {
    pub lambda_arn: Option<Seq<char>>,
    pub retry_index: nat,
    pub event_id: Option<Seq<char>>,
    pub lambda_request_id: Option<Seq<char>>,
    pub extra: Seq<(Seq<char>, Seq<char>)>,
}

impl View for Envelope {
    type V = EnvelopeView;

    open spec fn view(&self) -> EnvelopeView {
        EnvelopeView {
            lambda_arn: opt_view(self.lambda_arn),
            retry_index: self.retry_index as nat,
            event_id: opt_view(self.event_id),
            lambda_request_id: opt_view(self.lambda_request_id),
            extra: self.extra@.map_values(|p: (String, String)| (p.0@, p.1@)),
        }
    }
}

impl Envelope {
    /// A fresh envelope for `lambda_arn`, as an upstream producer creates it.
    pub fn new(lambda_arn: String) -> (r: Envelope)
        ensures
            r@ == (EnvelopeView {
                lambda_arn: Some(lambda_arn@),
                retry_index: 0,
                event_id: None,
                lambda_request_id: None,
                extra: Seq::empty(),
            }),
    {
        let r = Envelope {
            lambda_arn: Some(lambda_arn),
            retry_index: 0,
            event_id: None,
            lambda_request_id: None,
            extra: Vec::new(),
        };
        proof {
            assert(r@.extra =~= Seq::empty());
        }
        r
    }
}

} // verus!
