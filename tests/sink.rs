use gcl_sink::classify::{resolve, CallResult, Classifier, ErrorClass, Outcome, StatusCode};
use gcl_sink::concurrency::{ConcurrencyCap, Signal};
use gcl_sink::sink::{check_payloads, Config, ConnectionState, Dispatch, Event, GclSink, Job, Payload, SinkError, ValueType};
use gcl_sink::timestamp::{ingest_stamp, Stamp};

fn config(concurrency: u64) -> Config {
    Config {
        concurrency,
        connect_timeout: 1_000_000,
        request_timeout: 1_000_000_000,
        partial_success: false,
        dry_run: true,
    }
}

fn object(body: &str) -> Payload {
    Payload { kind: ValueType::Object, body: body.to_string() }
}

fn event(id: u64, payloads: Vec<Payload>) -> Event {
    Event { id, ingest_ns: 1_500_000_000, payloads }
}

fn connected(concurrency: u64) -> GclSink {
    let mut sink = GclSink::new(config(concurrency));
    assert_eq!(sink.begin_connect(), 1_000_000);
    assert_eq!(sink.finish_connect(true), Ok(true));
    sink
}

fn admitted(r: Result<Dispatch, SinkError>) -> Job {
    match r {
        Ok(Dispatch::Admitted(job)) => job,
        Ok(Dispatch::Blocked(_)) => panic!("event was blocked"),
        Err(e) => panic!("event was rejected: {:?}", e),
    }
}

#[test]
fn fails_if_the_event_is_not_an_object() {
    let data = vec![Payload { kind: ValueType::String, body: "\"snot\"".to_string() }];
    let result = check_payloads(&data);
    if let Err(SinkError::Mapping { expected, actual }) = result {
        assert_eq!(expected, ValueType::Object);
        assert_eq!(actual, ValueType::String);
    } else {
        panic!("Mapping did not fail on non-object event");
    }
}

#[test]
fn on_event_fails_if_client_is_not_connected() {
    let mut sink = GclSink::new(config(0));
    let result = sink.on_event(event(1, vec![]));
    assert!(result.is_err());
}

#[test]
fn disconnected_rejection_has_no_side_effects() {
    let mut sink = GclSink::new(config(2));
    let result = sink.on_event(event(1, vec![object("{}")]));
    assert!(matches!(result, Err(SinkError::ClientNotAvailable)));
    assert_eq!(sink.in_flight(), 0);
    assert_eq!(sink.connection_state(), ConnectionState::Disconnected);
}

#[test]
fn rejected_while_connecting() {
    let mut sink = GclSink::new(config(2));
    sink.begin_connect();
    assert_eq!(sink.connection_state(), ConnectionState::Connecting);
    let result = sink.on_event(event(1, vec![object("{}")]));
    assert!(matches!(result, Err(SinkError::ClientNotAvailable)));
}

#[test]
fn failed_connect_stays_disconnected() {
    let mut sink = GclSink::new(config(2));
    sink.begin_connect();
    assert_eq!(sink.finish_connect(false), Err(SinkError::Connect));
    assert_eq!(sink.connection_state(), ConnectionState::Disconnected);
}

#[test]
fn mapping_error_names_first_bad_payload_and_takes_no_permit() {
    let mut sink = connected(2);
    let payloads = vec![
        object("{}"),
        Payload { kind: ValueType::Signed, body: "1".to_string() },
        Payload { kind: ValueType::Array, body: "[]".to_string() },
    ];
    let result = sink.on_event(event(4, payloads));
    assert!(matches!(
        result,
        Err(SinkError::Mapping { expected: ValueType::Object, actual: ValueType::Signed })
    ));
    assert_eq!(sink.in_flight(), 0);
}

#[test]
fn admitted_request_carries_event_and_config() {
    let mut sink = connected(0);
    let job = admitted(sink.on_event(event(9, vec![object("{\"a\":1}"), object("{}")])));
    assert_eq!(job.request.event_id, 9);
    assert_eq!(job.request.timestamp, Stamp { seconds: 1, nanos: 500_000_000 });
    assert_eq!(job.request.entries.len(), 2);
    assert_eq!(job.request.entries[0].body, "{\"a\":1}");
    assert!(job.request.dry_run);
    assert!(!job.request.partial_success);
    assert_eq!(job.request.timeout_ns, 1_000_000_000);
    assert_eq!(job.permit.event_id(), 9);
    assert_eq!(job.signal, None);
    assert_eq!(sink.in_flight(), 1);
}

#[test]
fn ingest_stamp_splits_seconds_and_nanos() {
    assert_eq!(ingest_stamp(0), Stamp { seconds: 0, nanos: 0 });
    assert_eq!(ingest_stamp(1_500_000_000), Stamp { seconds: 1, nanos: 500_000_000 });
    assert_eq!(ingest_stamp(999_999_999), Stamp { seconds: 0, nanos: 999_999_999 });
    assert_eq!(
        ingest_stamp(u64::MAX),
        Stamp { seconds: 18_446_744_073, nanos: 709_551_615 }
    );
}

#[test]
fn resource_exhausted_fails_and_notifies_once() {
    let mut sink = connected(1);
    let job = admitted(sink.on_event(event(5, vec![object("{}")])));
    let done = sink.complete(job.permit, CallResult::Failed(StatusCode::ResourceExhausted), 10, 20);
    assert_eq!(done.resolution.outcome, Outcome::Fail { event_id: 5 });
    assert!(done.resolution.notify_connection_lost);
    assert_eq!(sink.in_flight(), 0);
}

#[test]
fn client_error_fails_without_notice() {
    let r = resolve(&Classifier::standard(), 6, CallResult::Failed(StatusCode::InvalidArgument), 10, 20);
    assert_eq!(r.outcome, Outcome::Fail { event_id: 6 });
    assert!(!r.notify_connection_lost);
}

#[test]
fn success_acks_with_latency() {
    let r = resolve(&Classifier::standard(), 7, CallResult::Success, 100, 350);
    assert_eq!(r.outcome, Outcome::Ack { event_id: 7, latency_ns: 250 });
    assert!(!r.notify_connection_lost);
    let r = resolve(&Classifier::standard(), 7, CallResult::Success, 350, 100);
    assert_eq!(r.outcome, Outcome::Ack { event_id: 7, latency_ns: 0 });
}

#[test]
fn timeout_counts_as_connection_loss() {
    assert_eq!(Classifier::standard().classify(CallResult::TimedOut), ErrorClass::ConnectionLost);
    let r = resolve(&Classifier::standard(), 8, CallResult::TimedOut, 0, 1);
    assert_eq!(r.outcome, Outcome::Fail { event_id: 8 });
    assert!(r.notify_connection_lost);
}

#[test]
fn classification_table() {
    let lost = [
        StatusCode::Aborted,
        StatusCode::Cancelled,
        StatusCode::DataLoss,
        StatusCode::DeadlineExceeded,
        StatusCode::Internal,
        StatusCode::ResourceExhausted,
        StatusCode::Unavailable,
        StatusCode::Unknown,
    ];
    let fatal = [
        StatusCode::InvalidArgument,
        StatusCode::NotFound,
        StatusCode::AlreadyExists,
        StatusCode::PermissionDenied,
        StatusCode::FailedPrecondition,
        StatusCode::OutOfRange,
        StatusCode::Unimplemented,
        StatusCode::Unauthenticated,
    ];
    for c in lost {
        assert!(Classifier::standard().is_lost(c));
        assert_eq!(Classifier::standard().classify(CallResult::Failed(c)), ErrorClass::ConnectionLost);
    }
    for c in fatal {
        assert!(!Classifier::standard().is_lost(c));
        assert_eq!(Classifier::standard().classify(CallResult::Failed(c)), ErrorClass::Fatal);
    }
}

#[test]
fn cap_never_exceeds_limit() {
    let mut cap = ConcurrencyCap::new(2);
    let a = cap.try_acquire(1).unwrap();
    assert_eq!(a.signal, None);
    let b = cap.try_acquire(2).unwrap();
    assert_eq!(b.signal, Some(Signal::Trigger));
    assert!(cap.try_acquire(3).is_none());
    assert_eq!(cap.in_flight(), 2);
    assert_eq!(cap.release(a.permit), Some(Signal::Restore));
    assert_eq!(cap.in_flight(), 1);
    assert_eq!(cap.release(b.permit), None);
    assert_eq!(cap.in_flight(), 0);
}

#[test]
fn unbounded_cap_never_signals() {
    let mut cap = ConcurrencyCap::new(0);
    let mut permits = Vec::new();
    for id in 0..100 {
        let a = cap.try_acquire(id).unwrap();
        assert_eq!(a.signal, None);
        permits.push(a.permit);
    }
    assert_eq!(cap.in_flight(), 100);
    for p in permits {
        assert_eq!(cap.release(p), None);
    }
}

#[test]
fn trigger_and_restore_alternate() {
    let mut cap = ConcurrencyCap::new(1);
    let mut signals = Vec::new();
    for id in 0..5 {
        let a = cap.try_acquire(id).unwrap();
        signals.extend(a.signal);
        assert!(cap.try_acquire(id + 100).is_none());
        signals.extend(cap.release(a.permit));
    }
    assert_eq!(signals.len(), 10);
    for (i, s) in signals.iter().enumerate() {
        let want = if i % 2 == 0 { Signal::Trigger } else { Signal::Restore };
        assert_eq!(*s, want);
    }
}

#[test]
fn three_events_with_concurrency_one() {
    let mut sink = connected(1);
    let mut outcomes = Vec::new();
    let mut max_in_flight = 0;
    for id in 1..=3 {
        let job = admitted(sink.on_event(event(id, vec![object("{\"message\":\"test\"}")])));
        assert_eq!(job.signal, Some(Signal::Trigger));
        max_in_flight = max_in_flight.max(sink.in_flight());
        let blocked = sink.on_event(event(id + 10, vec![object("{}")]));
        match blocked {
            Ok(Dispatch::Blocked(e)) => assert_eq!(e.id, id + 10),
            _ => panic!("a full cap must block"),
        }
        let done = sink.complete(job.permit, CallResult::Success, 0, 5);
        assert_eq!(done.signal, Some(Signal::Restore));
        outcomes.push(done.resolution.outcome);
    }
    assert_eq!(max_in_flight, 1);
    assert_eq!(
        outcomes,
        vec![
            Outcome::Ack { event_id: 1, latency_ns: 5 },
            Outcome::Ack { event_id: 2, latency_ns: 5 },
            Outcome::Ack { event_id: 3, latency_ns: 5 },
        ]
    );
}

#[test]
fn disconnect_lets_in_flight_dispatches_finish() {
    let mut sink = connected(2);
    let job = admitted(sink.on_event(event(3, vec![object("{}")])));
    sink.disconnect();
    assert!(matches!(sink.on_event(event(4, vec![])), Err(SinkError::ClientNotAvailable)));
    let done = sink.complete(job.permit, CallResult::Success, 1, 2);
    assert_eq!(done.resolution.outcome, Outcome::Ack { event_id: 3, latency_ns: 1 });
    assert_eq!(sink.in_flight(), 0);
}

#[test]
fn custom_table_decides_connection_loss() {
    let classifier = Classifier::with_codes(vec![StatusCode::PermissionDenied]);
    assert_eq!(classifier.classify(CallResult::Failed(StatusCode::PermissionDenied)), ErrorClass::ConnectionLost);
    assert_eq!(classifier.classify(CallResult::Failed(StatusCode::Unavailable)), ErrorClass::Fatal);
    assert_eq!(classifier.classify(CallResult::TimedOut), ErrorClass::ConnectionLost);
    let mut sink = GclSink::with_classifier(config(1), classifier);
    sink.begin_connect();
    assert_eq!(sink.finish_connect(true), Ok(true));
    let job = admitted(sink.on_event(event(2, vec![object("{}")])));
    let done = sink.complete(job.permit, CallResult::Failed(StatusCode::Unavailable), 0, 1);
    assert_eq!(done.resolution.outcome, Outcome::Fail { event_id: 2 });
    assert!(!done.resolution.notify_connection_lost);
}

#[test]
fn sink_reports_its_own_outcomes() {
    let sink = GclSink::new(config(0));
    assert!(!sink.auto_ack());
    assert!(sink.asynchronous());
}
