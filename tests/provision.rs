use nats_lambda_bridge::provision::{
    next_phase, next_request, provision_result, BackendReply, ProvisionPhase, ProvisionRequest,
    ProvisioningError,
};

#[test]
fn missing_stream_is_created_then_consumer_bound() {
    let mut p = ProvisionPhase::LookupStream;
    assert_eq!(next_request(p), Some(ProvisionRequest::GetStream));
    p = next_phase(p, BackendReply::StreamMissing);
    assert_eq!(next_request(p), Some(ProvisionRequest::CreateStream));
    p = next_phase(p, BackendReply::StreamCreated);
    assert_eq!(next_request(p), Some(ProvisionRequest::CreateConsumer));
    p = next_phase(p, BackendReply::ConsumerReady);
    assert_eq!(p, ProvisionPhase::Ready);
    assert_eq!(next_request(p), None);
    assert_eq!(provision_result(p), Some(Ok(())));
}

#[test]
fn second_provisioning_finds_the_stream() {
    let mut p = ProvisionPhase::LookupStream;
    p = next_phase(p, BackendReply::StreamFound);
    assert_eq!(next_request(p), Some(ProvisionRequest::CreateConsumer));
    p = next_phase(p, BackendReply::ConsumerReady);
    assert_eq!(provision_result(p), Some(Ok(())));
}

#[test]
fn stream_created_concurrently_is_not_an_error() {
    let p = next_phase(ProvisionPhase::CreateStream, BackendReply::StreamAlreadyExists);
    assert_eq!(p, ProvisionPhase::CreateConsumer);
}

#[test]
fn failed_lookup_falls_back_to_creation() {
    let p = next_phase(ProvisionPhase::LookupStream, BackendReply::Failure);
    assert_eq!(p, ProvisionPhase::CreateStream);
}

#[test]
fn stream_creation_failure_is_a_provisioning_error() {
    let p = next_phase(ProvisionPhase::CreateStream, BackendReply::Failure);
    assert_eq!(p, ProvisionPhase::Failed(ProvisioningError::StreamCreation));
    assert_eq!(provision_result(p), Some(Err(ProvisioningError::StreamCreation)));
    assert_eq!(next_request(p), None);
}

#[test]
fn consumer_creation_failure_is_a_provisioning_error() {
    let p = next_phase(ProvisionPhase::CreateConsumer, BackendReply::Failure);
    assert_eq!(provision_result(p), Some(Err(ProvisioningError::ConsumerCreation)));
}

#[test]
fn unfinished_provisioning_has_no_result() {
    assert_eq!(provision_result(ProvisionPhase::LookupStream), None);
    assert_eq!(provision_result(ProvisionPhase::CreateConsumer), None);
}
