use nats_lambda_bridge::delay::get_delay_seconds;
use nats_lambda_bridge::envelope::Envelope;
use nats_lambda_bridge::inspect::{log_events_indicate_failure, message_indicates_failure};
use nats_lambda_bridge::pipeline::{
    begin_dispatch, begin_verification, delay_directive, retry_message, status_check_message,
    DispatchStart, Route,
};
use nats_lambda_bridge::text::{trailing_segment, truncate_chars};

const ARN: &str = "arn:aws:lambda:us-east-1:123456789012:function:fn";

fn trigger(retry_index: u64) -> Envelope {
    let mut e = Envelope::new(ARN.to_string());
    e.retry_index = retry_index;
    e
}

#[test]
fn delay_table_is_reproduced() {
    let expected = [60u64, 600, 1800, 3600, 14400, 28800, 86400];
    for (i, d) in expected.iter().enumerate() {
        assert_eq!(get_delay_seconds(i as u64), *d);
    }
}

#[test]
fn delay_beyond_table_uses_maximum() {
    assert_eq!(get_delay_seconds(7), 86400);
    assert_eq!(get_delay_seconds(100), 86400);
    assert_eq!(get_delay_seconds(u64::MAX), 86400);
}

#[test]
fn delay_directive_is_seconds_with_suffix() {
    assert_eq!(delay_directive(60), "60s");
    assert_eq!(delay_directive(86400), "86400s");
    assert_eq!(delay_directive(0), "0s");
}

#[test]
fn dispatch_publishes_one_status_check_after_success() {
    let e = trigger(0);
    match begin_dispatch(&e) {
        DispatchStart::Invoke(f) => assert_eq!(f, ARN),
        DispatchStart::Discard => panic!("a trigger with a function must be invoked"),
    }
    let m = status_check_message(e, Some(42), Some("req-1".to_string()));
    assert_eq!(m.route, Route::StatusCheck);
    assert_eq!(m.envelope.retry_index, 0);
    assert_eq!(m.envelope.lambda_request_id.as_deref(), Some("req-1"));
    assert_eq!(m.envelope.event_id.as_deref(), Some("42"));
    assert_eq!(m.envelope.lambda_arn.as_deref(), Some(ARN));
    assert_eq!(m.delay_secs, 60);
    assert_eq!(m.delay_directive, "60s");
    assert_eq!(m.dedup_key, "42");
}

#[test]
fn dispatch_without_request_id_uses_sentinel() {
    let m = status_check_message(trigger(2), Some(7), None);
    assert_eq!(m.envelope.lambda_request_id.as_deref(), Some("unknown"));
    assert_eq!(m.envelope.retry_index, 2);
    assert_eq!(m.delay_secs, 1800);
    assert_eq!(m.delay_directive, "1800s");
}

#[test]
fn dispatch_keeps_an_existing_event_id() {
    let mut e = trigger(1);
    e.event_id = Some("first".to_string());
    let m = status_check_message(e, Some(99), Some("r".to_string()));
    assert_eq!(m.envelope.event_id.as_deref(), Some("first"));
    assert_eq!(m.dedup_key, "first");
}

#[test]
fn dispatch_without_sequence_stamps_empty_event_id() {
    let m = status_check_message(trigger(0), None, Some("r".to_string()));
    assert_eq!(m.envelope.event_id.as_deref(), Some(""));
}

#[test]
fn extra_fields_pass_through_both_stages() {
    let mut e = trigger(0);
    e.extra = vec![("order".to_string(), "17".to_string()), ("note".to_string(), "\"x\"".to_string())];
    let m = status_check_message(e, Some(5), Some("r".to_string()));
    assert_eq!(m.envelope.extra.len(), 2);
    assert_eq!(m.envelope.extra[0].0, "order");
    assert_eq!(m.envelope.extra[1].1, "\"x\"");
    let r = retry_message(m.envelope, true).expect("retry");
    assert_eq!(r.envelope.extra[0].1, "17");
    assert_eq!(r.envelope.extra[1].0, "note");
}

#[test]
fn trigger_without_function_is_discarded() {
    let mut e = trigger(0);
    e.lambda_arn = None;
    assert!(matches!(begin_dispatch(&e), DispatchStart::Discard));
}

#[test]
fn status_check_without_function_is_not_inspected() {
    let mut e = trigger(3);
    e.lambda_arn = None;
    assert!(begin_verification(&e).is_none());
}

#[test]
fn verification_inspects_function_log_group() {
    let mut e = trigger(0);
    e.lambda_request_id = Some("req-1".to_string());
    let i = begin_verification(&e).expect("inspection");
    assert_eq!(i.log_group, "/aws/lambda/fn");
    assert_eq!(i.filter_pattern, "REPORT RequestId: req-1");
}

#[test]
fn verification_without_request_id_filters_on_prefix() {
    let i = begin_verification(&trigger(0)).expect("inspection");
    assert_eq!(i.filter_pattern, "REPORT RequestId: ");
}

#[test]
fn failure_at_zero_republishes_at_one() {
    let mut e = trigger(0);
    e.event_id = Some("42".to_string());
    e.lambda_request_id = Some("req-1".to_string());
    let r = retry_message(e, true).expect("republish");
    assert_eq!(r.route, Route::Trigger);
    assert_eq!(r.envelope.retry_index, 1);
    assert_eq!(r.delay_secs, 600);
    assert_eq!(r.delay_directive, "600s");
    assert_eq!(r.dedup_key, "42");
    assert_eq!(r.envelope.event_id.as_deref(), Some("42"));
}

#[test]
fn failure_at_five_republishes_at_cap() {
    let r = retry_message(trigger(5), true).expect("republish");
    assert_eq!(r.envelope.retry_index, 6);
    assert_eq!(r.delay_secs, 86400);
    assert_eq!(r.dedup_key, "");
}

#[test]
fn failure_at_cap_is_not_republished() {
    assert!(retry_message(trigger(6), true).is_none());
    assert!(retry_message(trigger(7), true).is_none());
}

#[test]
fn no_failure_is_never_republished() {
    for i in 0..=6u64 {
        assert!(retry_message(trigger(i), false).is_none());
    }
}

#[test]
fn retry_index_never_decreases_along_an_event() {
    let mut e = trigger(0);
    let mut seen = Vec::new();
    let mut sequence = 10u64;
    loop {
        let before = e.retry_index;
        let m = status_check_message(e, Some(sequence), Some("r".to_string()));
        assert_eq!(m.envelope.retry_index, before);
        assert_eq!(m.envelope.event_id.as_deref(), Some("10"));
        seen.push(m.envelope.retry_index);
        sequence += 1;
        match retry_message(m.envelope, true) {
            Some(r) => {
                assert_eq!(r.envelope.retry_index, before + 1);
                e = r.envelope;
            }
            None => break,
        }
    }
    assert_eq!(seen, vec![0, 1, 2, 3, 4, 5, 6]);
}

#[test]
fn failure_markers_are_detected() {
    assert!(message_indicates_failure("2024-01-01 ERROR something broke"));
    assert!(message_indicates_failure("Task timed out after 3.00 seconds"));
    assert!(!message_indicates_failure("REPORT RequestId: abc Duration: 2 ms"));
    assert!(!message_indicates_failure("error in lower case"));
    assert!(!message_indicates_failure(""));
}

#[test]
fn log_events_with_a_failure_are_detected() {
    let events = vec![None, Some("fine".to_string()), Some("x ERROR y".to_string())];
    assert!(log_events_indicate_failure(&events));
    let quiet = vec![None, Some("REPORT ok".to_string())];
    assert!(!log_events_indicate_failure(&quiet));
    assert!(!log_events_indicate_failure(&Vec::new()));
}

#[test]
fn trailing_segment_of_arns() {
    assert_eq!(trailing_segment(ARN), "fn");
    assert_eq!(trailing_segment("plain"), "plain");
    assert_eq!(trailing_segment("ends:"), "");
    assert_eq!(trailing_segment(""), "");
    assert_eq!(trailing_segment("a:b:é"), "é");
}

#[test]
fn truncation_counts_characters() {
    assert_eq!(truncate_chars("abcdef", 3), "abc");
    assert_eq!(truncate_chars("ab", 3), "ab");
    assert_eq!(truncate_chars("ééé", 2), "éé");
}
