use vstd::prelude::*;
use crate::classify::{connection_lost_code, resolution_of, resolve, CallResult, Classifier, Outcome, Resolution, StatusCode};
use crate::concurrency::{lemma_cap_finite, Admission, ConcurrencyCap, Permit, Signal};
use crate::timestamp::{ingest_stamp, stamp_of, Stamp};

verus! {

/// The shape of an event payload.
#[derive(Clone, Copy, Debug, PartialEq, Eq, Structural)]
pub enum ValueType {
    Null,
    Bool,
    Signed,
    Unsigned,
    Float,
    String,
    Bytes,
    Array,
    Object,
}

/// One value of an event: its shape and its encoded body.
#[derive(Clone, Debug)]
pub struct Payload {
    pub kind: ValueType,
    pub body: String,
}

/// A batch of payloads that share one identifier and one ingest time.
#[derive(Clone, Debug)]
pub struct Event {
    pub id: u64,
    pub ingest_ns: u64,
    pub payloads: Vec<Payload>,
}

/// Settings read when the sink is built.
#[derive(Clone, Copy, Debug, PartialEq, Eq, Structural)]
pub struct Config {
    /// Most requests in flight at once; 0 means no bound.
    pub concurrency: u64,
    /// Time allowed to establish the transport, in nanoseconds.
    pub connect_timeout: u64,
    /// Deadline of each request, in nanoseconds.
    pub request_timeout: u64,
    pub partial_success: bool,
    pub dry_run: bool,
}

#[derive(Clone, Copy, Debug, PartialEq, Eq, Structural)]
pub enum ConnectionState {
    Disconnected,
    Connecting,
    Connected,
}

/// Errors reported to the caller at once.
#[derive(Clone, Copy, Debug, PartialEq, Eq, Structural)]
pub enum SinkError {
    /// An event came while no transport was connected.
    ClientNotAvailable,
    /// A payload did not have the shape the destination needs.
    Mapping { expected: ValueType, actual: ValueType },
    /// The transport could not be established.
    Connect,
}

/// The request that a dispatch task sends for one event.
#[derive(Debug)]
pub struct Request {
    pub event_id: u64,
    pub timestamp: Stamp,
    pub entries: Vec<Payload>,
    pub partial_success: bool,
    pub dry_run: bool,
    pub timeout_ns: u64,
}

/// An admitted event: the request to send and the permit it holds.
pub struct Job {
    pub request: Request,
    pub permit: Permit,
    /// The backpressure signal that admitting this event caused, if any.
    pub signal: Option<Signal>,
}

/// What `on_event` decided for an accepted event.
pub enum Dispatch {
    /// The event holds a permit; its request is to be sent.
    Admitted(Job),
    /// The cap is full; the event comes back untouched, to be offered again
    /// once a permit is given back.
    Blocked(Event),
}

/// What a finished dispatch produced.
pub struct Completion {
    pub resolution: Resolution,
    /// The backpressure signal that giving back the permit caused, if any.
    pub signal: Option<Signal>,
}

/// Whether every payload is an object.
pub open spec fn all_objects(p: Seq<Payload>) -> bool {
    forall|i: int| 0 <= i < p.len() ==> (#[trigger] p[i]).kind == ValueType::Object
}

/// `k` is the first payload that is not an object.
pub open spec fn first_non_object(p: Seq<Payload>, k: int) -> bool {
    &&& 0 <= k < p.len()
    &&& p[k].kind != ValueType::Object
    &&& all_objects(p.take(k))
}

/// Checks that every payload can be mapped, naming the shape of the first
/// that cannot.
pub fn check_payloads(p: &Vec<Payload>) -> (r: Result<(), SinkError>)
    ensures
        r is Ok <==> all_objects(p@),
        r is Err ==> exists|k: int|
            first_non_object(p@, k) && r == Err::<(), SinkError>(
                SinkError::Mapping { expected: ValueType::Object, actual: p@[k].kind },
            ),
{
    let mut i: usize = 0;
    while i < p.len()
        invariant
            0 <= i <= p@.len(),
            all_objects(p@.take(i as int)),
        decreases p@.len() - i,
    {
        let kind = p[i].kind;
        if kind != ValueType::Object {
            assert(first_non_object(p@, i as int));
            return Err(SinkError::Mapping { expected: ValueType::Object, actual: kind });
        }
        assert(all_objects(p@.take(i + 1))) by {
            assert forall|j: int| 0 <= j < i + 1 implies (#[trigger] p@.take(i + 1)[j]).kind
                == ValueType::Object by {
                if j < i {
                    assert(p@.take(i + 1)[j] == p@.take(i as int)[j]);
                }
            }
        }
        i = i + 1;
    }
    assert(p@.take(i as int) == p@);
    Ok(())
}

/// The sink core: connection lifecycle, mapping checks, admission through the
/// cap and the outcome of every dispatched event.
pub struct GclSink {
    config: Config,
    state: ConnectionState,
    cap: ConcurrencyCap,
    classifier: Classifier,
}

impl GclSink {
    pub closed spec fn config(&self) -> Config {
        self.config
    }

    pub closed spec fn state(&self) -> ConnectionState {
        self.state
    }

    pub closed spec fn cap(&self) -> ConcurrencyCap {
        self.cap
    }

    /// The connection-loss codes this sink classifies failures by.
    pub closed spec fn table(&self) -> Seq<StatusCode> {
        self.classifier.table()
    }

    pub closed spec fn wf(&self) -> bool {
        &&& self.cap.wf()
        &&& self.cap.limit() == self.config.concurrency
    }

    /// A disconnected sink with an empty cap bounded by the configured
    /// concurrency, classifying failures by the standard table.
    pub fn new(config: Config) -> (r: Self)
        ensures
            r.wf(),
            r.config() == config,
            forall|c: StatusCode| #[trigger] r.table().contains(c) == connection_lost_code(c),
            r.state() == ConnectionState::Disconnected,
            r.cap().limit() == config.concurrency,
            r.cap().outstanding() == Set::<nat>::empty(),
            r.cap().signals() == Seq::<Signal>::empty(),
    {
        GclSink::with_classifier(config, Classifier::standard())
    }

    /// A disconnected sink that classifies failures by `classifier`.
    pub fn with_classifier(config: Config, classifier: Classifier) -> (r: Self)
        ensures
            r.wf(),
            r.config() == config,
            r.table() == classifier.table(),
            r.state() == ConnectionState::Disconnected,
            r.cap().limit() == config.concurrency,
            r.cap().outstanding() == Set::<nat>::empty(),
            r.cap().signals() == Seq::<Signal>::empty(),
    {
        GclSink {
            config,
            state: ConnectionState::Disconnected,
            cap: ConcurrencyCap::new(config.concurrency),
            classifier,
        }
    }

    pub fn connection_state(&self) -> (r: ConnectionState)
        ensures
            r == self.state(),
    {
        self.state
    }

    pub fn in_flight(&self) -> (r: u64)
        requires
            self.wf(),
        ensures
            r == self.cap().outstanding().len(),
    {
        self.cap.in_flight()
    }

    /// Outcomes are reported by the sink itself, once each dispatch ends, so
    /// the runtime does not acknowledge events on its behalf.
    pub fn auto_ack(&self) -> (r: bool)
        ensures
            !r,
    {
        false
    }

    /// Dispatches complete after `on_event` has returned.
    pub fn asynchronous(&self) -> (r: bool)
        ensures
            r,
    {
        true
    }

    /// Starts establishing the transport; returns the time it is allowed.
    pub fn begin_connect(&mut self) -> (timeout_ns: u64)
        requires
            old(self).wf(),
        ensures
            final(self).wf(),
            final(self).state() == ConnectionState::Connecting,
            final(self).config() == old(self).config(),
            final(self).table() == old(self).table(),
            final(self).cap() == old(self).cap(),
            timeout_ns == old(self).config().connect_timeout,
    {
        self.state = ConnectionState::Connecting;
        self.config.connect_timeout
    }

    /// Records whether the transport was established.
    pub fn finish_connect(&mut self, established: bool) -> (r: Result<bool, SinkError>)
        requires
            old(self).wf(),
        ensures
            final(self).wf(),
            final(self).config() == old(self).config(),
            final(self).table() == old(self).table(),
            final(self).cap() == old(self).cap(),
            established ==> r == Ok::<bool, SinkError>(true) && final(self).state()
                == ConnectionState::Connected,
            !established ==> r == Err::<bool, SinkError>(SinkError::Connect) && final(self).state()
                == ConnectionState::Disconnected,
    {
        if established {
            self.state = ConnectionState::Connected;
            Ok(true)
        } else {
            self.state = ConnectionState::Disconnected;
            Err(SinkError::Connect)
        }
    }

    /// Drops the transport; dispatches already admitted still complete.
    pub fn disconnect(&mut self)
        requires
            old(self).wf(),
        ensures
            final(self).wf(),
            final(self).state() == ConnectionState::Disconnected,
            final(self).config() == old(self).config(),
            final(self).table() == old(self).table(),
            final(self).cap() == old(self).cap(),
    {
        self.state = ConnectionState::Disconnected;
    }

    /// Accepts an event for dispatch. Without a connection, or with a payload
    /// that is not an object, the event is rejected and nothing changes. An
    /// accepted event either takes a permit and yields its request, or, when
    /// the cap is full, comes back unchanged.
    pub fn on_event(&mut self, event: Event) -> (r: Result<Dispatch, SinkError>)
        requires
            old(self).wf(),
        ensures
            final(self).wf(),
            final(self).config() == old(self).config(),
            final(self).table() == old(self).table(),
            final(self).state() == old(self).state(),
            old(self).state() != ConnectionState::Connected ==> r == Err::<Dispatch, SinkError>(
                SinkError::ClientNotAvailable,
            ),
            old(self).state() == ConnectionState::Connected && !all_objects(event.payloads@)
                ==> exists|k: int|
                first_non_object(event.payloads@, k) && r == Err::<Dispatch, SinkError>(
                    SinkError::Mapping {
                        expected: ValueType::Object,
                        actual: event.payloads@[k].kind,
                    },
                ),
            r is Err || !old(self).cap().has_room() ==> *final(self) == *old(self),
            old(self).state() == ConnectionState::Connected && all_objects(event.payloads@)
                ==> r is Ok,
            r matches Ok(Dispatch::Blocked(e)) ==> !old(self).cap().has_room() && e == event,
            r matches Ok(Dispatch::Admitted(job)) ==> {
                &&& old(self).cap().has_room()
                &&& job.permit.event() == event.id
                &&& !old(self).cap().outstanding().contains(job.permit.id())
                &&& final(self).cap().outstanding() == old(self).cap().outstanding().insert(
                    job.permit.id(),
                )
                &&& job.signal == (if old(self).cap().limit() > 0
                    && old(self).cap().outstanding().len() + 1 == old(self).cap().limit() {
                    Some(Signal::Trigger)
                } else {
                    None::<Signal>
                })
                &&& final(self).cap().signals() == (match job.signal {
                    Some(s) => old(self).cap().signals().push(s),
                    None => old(self).cap().signals(),
                })
                &&& job.request.event_id == event.id
                &&& job.request.timestamp == stamp_of(event.ingest_ns)
                &&& job.request.entries@ == event.payloads@
                &&& job.request.partial_success == old(self).config().partial_success
                &&& job.request.dry_run == old(self).config().dry_run
                &&& job.request.timeout_ns == old(self).config().request_timeout
            },
            old(self).state() == ConnectionState::Connected && all_objects(event.payloads@)
                ==> (r matches Ok(Dispatch::Admitted(_))) == old(self).cap().has_room(),
    {
        if self.state != ConnectionState::Connected {
            return Err(SinkError::ClientNotAvailable);
        }
        match check_payloads(&event.payloads) {
            Err(e) => {
                return Err(e);
            },
            Ok(()) => {},
        }
        let timestamp = ingest_stamp(event.ingest_ns);
        match self.cap.try_acquire(event.id) {
            None => Ok(Dispatch::Blocked(event)),
            Some(Admission { permit, signal }) => {
                let request = Request {
                    event_id: event.id,
                    timestamp,
                    entries: event.payloads,
                    partial_success: self.config.partial_success,
                    dry_run: self.config.dry_run,
                    timeout_ns: self.config.request_timeout,
                };
                Ok(Dispatch::Admitted(Job { request, permit, signal }))
            },
        }
    }

    /// Ends a dispatch: gives its permit back and produces the one outcome of
    /// its event. The connection state is left alone.
    pub fn complete(&mut self, permit: Permit, result: CallResult, start_ns: u64, now_ns: u64) -> (r:
        Completion)
        requires
            old(self).wf(),
            old(self).cap().outstanding().contains(permit.id()),
        ensures
            final(self).wf(),
            final(self).config() == old(self).config(),
            final(self).table() == old(self).table(),
            final(self).state() == old(self).state(),
            final(self).cap().outstanding() == old(self).cap().outstanding().remove(permit.id()),
            r.resolution == resolution_of(old(self).table(), permit.event(), result, start_ns, now_ns),
            r.signal == (if old(self).cap().paused() {
                Some(Signal::Restore)
            } else {
                None::<Signal>
            }),
            final(self).cap().signals() == (match r.signal {
                Some(s) => old(self).cap().signals().push(s),
                None => old(self).cap().signals(),
            }),
    {
        let resolution = resolve(&self.classifier, permit.event_id(), result, start_ns, now_ns);
        let signal = self.cap.release(permit);
        Completion { resolution, signal }
    }
}

/// Each admitted event is resolved exactly once: completing its dispatch
/// yields one `Ack` or `Fail` naming that event, and takes its permit out of
/// the cap, so no second completion of the same permit can be admitted.
pub proof fn lemma_one_outcome(
    before: &GclSink,
    after: &GclSink,
    permit: &Permit,
    result: CallResult,
    start_ns: u64,
    now_ns: u64,
)
    requires
        before.wf(),
        before.cap().outstanding().contains(permit.id()),
        after.cap().outstanding() == before.cap().outstanding().remove(permit.id()),
    ensures
        !after.cap().outstanding().contains(permit.id()),
        after.cap().outstanding().len() + 1 == before.cap().outstanding().len(),
        match resolution_of(before.table(), permit.event(), result, start_ns, now_ns).outcome {
            Outcome::Ack { event_id, latency_ns: _ } => event_id == permit.event() && result
                == CallResult::Success,
            Outcome::Fail { event_id } => event_id == permit.event() && result
                != CallResult::Success,
        },
{
    lemma_cap_finite(&before.cap);
}

} // verus!
