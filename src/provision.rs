use vstd::prelude::*;

verus! {

/// Why a stream or its durable consumer could not be provisioned.
#[derive(PartialEq, Eq, Structural, Clone, Copy, Debug)]
pub enum ProvisioningError {
    /// The stream was absent and creating it failed other than by already existing.
    StreamCreation,
    /// The durable consumer could not be created or bound.
    ConsumerCreation,
}

/// Where provisioning of one stream and its durable consumer stands.
#[derive(PartialEq, Eq, Structural, Clone, Copy, Debug)]
pub enum ProvisionPhase {
    LookupStream,
    CreateStream,
    CreateConsumer,
    Ready,
    Failed(ProvisioningError),
}

/// A request to the messaging backend.
#[derive(PartialEq, Eq, Structural, Clone, Copy, Debug)]
pub enum ProvisionRequest {
    /// Fetch the stream by name.
    GetStream,
    /// Create the stream, bound to its subject.
    CreateStream,
    /// Create, or bind to, the durable pull consumer with explicit acknowledgement.
    CreateConsumer,
}

/// What the messaging backend answered.
#[derive(PartialEq, Eq, Structural, Clone, Copy, Debug)]
pub enum BackendReply {
    StreamFound,
    StreamMissing,
    StreamCreated,
    StreamAlreadyExists,
    ConsumerReady,
    Failure,
}

pub open spec fn request_spec(phase: ProvisionPhase) -> Option<ProvisionRequest> {
    match phase {
        ProvisionPhase::LookupStream => Some(ProvisionRequest::GetStream),
        ProvisionPhase::CreateStream => Some(ProvisionRequest::CreateStream),
        ProvisionPhase::CreateConsumer => Some(ProvisionRequest::CreateConsumer),
        _ => None,
    }
}

/// The phase after `reply`: a failed lookup means the stream is created; a
/// stream that already exists counts as created; any other failure is final.
pub open spec fn next_phase_spec(phase: ProvisionPhase, reply: BackendReply) -> ProvisionPhase {
    match phase {
        ProvisionPhase::LookupStream => match reply {
            BackendReply::StreamFound => ProvisionPhase::CreateConsumer,
            _ => ProvisionPhase::CreateStream,
        },
        ProvisionPhase::CreateStream => match reply {
            BackendReply::StreamCreated | BackendReply::StreamAlreadyExists
            | BackendReply::StreamFound => ProvisionPhase::CreateConsumer,
            _ => ProvisionPhase::Failed(ProvisioningError::StreamCreation),
        },
        ProvisionPhase::CreateConsumer => match reply {
            BackendReply::ConsumerReady => ProvisionPhase::Ready,
            _ => ProvisionPhase::Failed(ProvisioningError::ConsumerCreation),
        },
        _ => phase,
    }
}

/// The request to send in `phase`, or `None` once provisioning has ended.
pub fn next_request(phase: ProvisionPhase) -> (r: Option<ProvisionRequest>)
    ensures
        r == request_spec(phase),
{
    match phase {
        ProvisionPhase::LookupStream => Some(ProvisionRequest::GetStream),
        ProvisionPhase::CreateStream => Some(ProvisionRequest::CreateStream),
        ProvisionPhase::CreateConsumer => Some(ProvisionRequest::CreateConsumer),
        _ => None,
    }
}

/// The phase that follows `phase` on `reply`.
pub fn next_phase(phase: ProvisionPhase, reply: BackendReply) -> (r: ProvisionPhase)
    ensures
        r == next_phase_spec(phase, reply),
{
    match phase {
        ProvisionPhase::LookupStream => match reply {
            BackendReply::StreamFound => ProvisionPhase::CreateConsumer,
            _ => ProvisionPhase::CreateStream,
        },
        ProvisionPhase::CreateStream => match reply {
            BackendReply::StreamCreated | BackendReply::StreamAlreadyExists
            | BackendReply::StreamFound => ProvisionPhase::CreateConsumer,
            _ => ProvisionPhase::Failed(ProvisioningError::StreamCreation),
        },
        ProvisionPhase::CreateConsumer => match reply {
            BackendReply::ConsumerReady => ProvisionPhase::Ready,
            _ => ProvisionPhase::Failed(ProvisioningError::ConsumerCreation),
        },
        _ => phase,
    }
}

/// The result of provisioning once it has ended, `None` while it goes on.
pub fn provision_result(phase: ProvisionPhase) -> (r: Option<Result<(), ProvisioningError>>)
    ensures
        phase == ProvisionPhase::Ready ==> r == Some(Ok::<(), ProvisioningError>(())),
        phase matches ProvisionPhase::Failed(e) ==> r == Some(Err::<(), ProvisioningError>(e)),
        request_spec(phase) is Some <==> r is None,
{
    match phase {
        ProvisionPhase::Ready => Some(Ok(())),
        ProvisionPhase::Failed(e) => Some(Err(e)),
        _ => None,
    }
}

/// A messaging backend that keeps its streams (name to subject) and its
/// durable consumers (stream and consumer name) and never fails.
pub struct BackendModel {
    pub streams: Map<Seq<char>, Seq<char>>,
    pub consumers: Set<(Seq<char>, Seq<char>)>,
}

/// How such a backend answers `req`, and what it holds afterwards.
pub open spec fn backend_reply(
    b: BackendModel,
    req: ProvisionRequest,
    stream: Seq<char>,
    subject: Seq<char>,
    consumer: Seq<char>,
) -> (BackendModel, BackendReply) {
    match req {
        ProvisionRequest::GetStream => (
            b,
            if b.streams.contains_key(stream) {
                BackendReply::StreamFound
            } else {
                BackendReply::StreamMissing
            },
        ),
        ProvisionRequest::CreateStream => if b.streams.contains_key(stream) {
            (b, BackendReply::StreamAlreadyExists)
        } else {
            (
                BackendModel { streams: b.streams.insert(stream, subject), consumers: b.consumers },
                BackendReply::StreamCreated,
            )
        },
        ProvisionRequest::CreateConsumer => (
            BackendModel { streams: b.streams, consumers: b.consumers.insert((stream, consumer)) },
            BackendReply::ConsumerReady,
        ),
    }
}

/// Provisioning run for at most `steps` requests against the backend `b`.
pub open spec fn run_provision(
    b: BackendModel,
    phase: ProvisionPhase,
    stream: Seq<char>,
    subject: Seq<char>,
    consumer: Seq<char>,
    steps: nat,
) -> (BackendModel, ProvisionPhase)
    decreases steps,
{
    if steps == 0 {
        (b, phase)
    } else {
        match request_spec(phase) {
            None => (b, phase),
            Some(req) => {
                let (b2, reply) = backend_reply(b, req, stream, subject, consumer);
                run_provision(b2, next_phase_spec(phase, reply), stream, subject, consumer, (steps - 1) as nat)
            },
        }
    }
}

/// Provisioning is idempotent: it ends ready within three requests, leaving
/// the stream and the consumer in place; run again with the same names it ends
/// ready too and changes nothing, so nothing is created twice.
pub proof fn lemma_provisioning_idempotent(
    b: BackendModel,
    stream: Seq<char>,
    subject: Seq<char>,
    consumer: Seq<char>,
)
    ensures
        run_provision(b, ProvisionPhase::LookupStream, stream, subject, consumer, 3).1
            == ProvisionPhase::Ready,
        run_provision(b, ProvisionPhase::LookupStream, stream, subject, consumer, 3).0.streams.contains_key(stream),
        run_provision(b, ProvisionPhase::LookupStream, stream, subject, consumer, 3).0.consumers
            == b.consumers.insert((stream, consumer)),
        run_provision(
            run_provision(b, ProvisionPhase::LookupStream, stream, subject, consumer, 3).0,
            ProvisionPhase::LookupStream,
            stream,
            subject,
            consumer,
            3,
        ) == (run_provision(b, ProvisionPhase::LookupStream, stream, subject, consumer, 3).0, ProvisionPhase::Ready),
{
    reveal_with_fuel(run_provision, 4);
    let b1 = run_provision(b, ProvisionPhase::LookupStream, stream, subject, consumer, 3).0;
    assert(b1.consumers.insert((stream, consumer)) =~= b1.consumers);
    let b2 = run_provision(b1, ProvisionPhase::LookupStream, stream, subject, consumer, 3).0;
    assert(b2.consumers =~= b1.consumers);
    assert(b2.streams =~= b1.streams);
}

} // verus!
