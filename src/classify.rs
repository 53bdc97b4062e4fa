use vstd::prelude::*;

verus! {

/// The status codes a remote procedure call can end with.
#[derive(Clone, Copy, Debug, PartialEq, Eq, Structural)]
pub enum StatusCode {
    Success,
    Cancelled,
    Unknown,
    InvalidArgument,
    DeadlineExceeded,
    NotFound,
    AlreadyExists,
    PermissionDenied,
    ResourceExhausted,
    FailedPrecondition,
    Aborted,
    OutOfRange,
    Unimplemented,
    Internal,
    Unavailable,
    DataLoss,
    Unauthenticated,
}

/// How a dispatched call ended, as seen by the task that made it.
#[derive(Clone, Copy, Debug, PartialEq, Eq, Structural)]
pub enum CallResult {
    /// The service accepted the request.
    Success,
    /// The service or the transport answered with a failure status.
    Failed(StatusCode),
    /// No answer came before the per-call deadline.
    TimedOut,
}

/// The category a failed call falls into.
#[derive(Clone, Copy, Debug, PartialEq, Eq, Structural)]
pub enum ErrorClass {
    /// The transport may be unhealthy: the event fails and a reconnect is asked for.
    ConnectionLost,
    /// The event fails; the transport is still taken to be healthy.
    Fatal,
}

/// The codes that cast doubt on the transport itself.
pub open spec fn connection_lost_code(c: StatusCode) -> bool {
    match c {
        StatusCode::Aborted | StatusCode::Cancelled | StatusCode::DataLoss
        | StatusCode::DeadlineExceeded | StatusCode::Internal | StatusCode::ResourceExhausted
        | StatusCode::Unavailable | StatusCode::Unknown => true,
        _ => false,
    }
}

/// The class of a failed call under a table of connection-loss codes: a
/// timeout, or a listed code, means connection loss; any other failure is
/// fatal to the event.
pub open spec fn class_of(table: Seq<StatusCode>, r: CallResult) -> ErrorClass {
    match r {
        CallResult::Failed(c) => if table.contains(c) {
            ErrorClass::ConnectionLost
        } else {
            ErrorClass::Fatal
        },
        _ => ErrorClass::ConnectionLost,
    }
}

/// The table that decides which failure codes count as connection loss.
pub struct Classifier {
    lost: Vec<StatusCode>,
}

impl Classifier {
    /// The codes that count as connection loss.
    pub closed spec fn table(&self) -> Seq<StatusCode> {
        self.lost@
    }

    /// A classifier with the given connection-loss codes.
    pub fn with_codes(codes: Vec<StatusCode>) -> (r: Self)
        ensures
            r.table() == codes@,
    {
        Classifier { lost: codes }
    }

    /// The default table: aborted, cancelled, data loss, deadline exceeded,
    /// internal, resource exhausted, unavailable and unknown.
    pub fn standard() -> (r: Self)
        ensures
            forall|c: StatusCode| #[trigger] r.table().contains(c) == connection_lost_code(c),
    {
        let lost = vec![
            StatusCode::Aborted,
            StatusCode::Cancelled,
            StatusCode::DataLoss,
            StatusCode::DeadlineExceeded,
            StatusCode::Internal,
            StatusCode::ResourceExhausted,
            StatusCode::Unavailable,
            StatusCode::Unknown,
        ];
        assert forall|c: StatusCode| #[trigger] lost@.contains(c) == connection_lost_code(c) by {
            if connection_lost_code(c) {
                match c {
                    StatusCode::Aborted => assert(lost@[0] == c),
                    StatusCode::Cancelled => assert(lost@[1] == c),
                    StatusCode::DataLoss => assert(lost@[2] == c),
                    StatusCode::DeadlineExceeded => assert(lost@[3] == c),
                    StatusCode::Internal => assert(lost@[4] == c),
                    StatusCode::ResourceExhausted => assert(lost@[5] == c),
                    StatusCode::Unavailable => assert(lost@[6] == c),
                    _ => assert(lost@[7] == c),
                }
            }
        }
        Classifier { lost }
    }

    /// Whether `c` is listed as a connection-loss code.
    pub fn is_lost(&self, c: StatusCode) -> (r: bool)
        ensures
            r == self.table().contains(c),
    {
        let mut i: usize = 0;
        while i < self.lost.len()
            invariant
                0 <= i <= self.lost@.len(),
                forall|j: int| 0 <= j < i ==> self.lost@[j] != c,
            decreases self.lost@.len() - i,
        {
            if self.lost[i] == c {
                assert(self.lost@[i as int] == c);
                return true;
            }
            i = i + 1;
        }
        false
    }

    /// Classifies a call that did not succeed.
    pub fn classify(&self, r: CallResult) -> (c: ErrorClass)
        requires
            r != CallResult::Success,
        ensures
            c == class_of(self.table(), r),
    {
        match r {
            CallResult::Failed(code) => {
                if self.is_lost(code) {
                    ErrorClass::ConnectionLost
                } else {
                    ErrorClass::Fatal
                }
            },
            _ => ErrorClass::ConnectionLost,
        }
    }
}

/// The report for one dispatched event.
#[derive(Clone, Copy, Debug, PartialEq, Eq, Structural)]
pub enum Outcome {
    /// Delivered; the latency is in nanoseconds.
    Ack { event_id: u64, latency_ns: u64 },
    /// Not delivered.
    Fail { event_id: u64 },
}

/// What to do once a dispatched call has ended.
#[derive(Clone, Copy, Debug, PartialEq, Eq, Structural)]
pub struct Resolution {
    pub outcome: Outcome,
    /// Whether the owning runtime is to be told that the connection was lost.
    pub notify_connection_lost: bool,
}

/// Time from `start_ns` to `now_ns`, never negative.
pub open spec fn elapsed(start_ns: u64, now_ns: u64) -> u64 {
    if now_ns >= start_ns {
        (now_ns - start_ns) as u64
    } else {
        0
    }
}

pub open spec fn resolution_of(
    table: Seq<StatusCode>,
    event_id: u64,
    r: CallResult,
    start_ns: u64,
    now_ns: u64,
) -> Resolution {
    if r == CallResult::Success {
        Resolution {
            outcome: Outcome::Ack { event_id, latency_ns: elapsed(start_ns, now_ns) },
            notify_connection_lost: false,
        }
    } else {
        Resolution {
            outcome: Outcome::Fail { event_id },
            notify_connection_lost: class_of(table, r) == ErrorClass::ConnectionLost,
        }
    }
}

/// Turns the end of a call into exactly one outcome for its event: an `Ack`
/// with the time since `start_ns` on success, else a `Fail`, together with a
/// connection-lost notice for failures classed as connection loss.
pub fn resolve(classifier: &Classifier, event_id: u64, r: CallResult, start_ns: u64, now_ns: u64) -> (res:
    Resolution)
    ensures
        res == resolution_of(classifier.table(), event_id, r, start_ns, now_ns),
{
    match r {
        CallResult::Success => {
            let latency_ns = if now_ns >= start_ns {
                now_ns - start_ns
            } else {
                0
            };
            Resolution { outcome: Outcome::Ack { event_id, latency_ns }, notify_connection_lost: false }
        },
        _ => {
            let class = classifier.classify(r);
            Resolution {
                outcome: Outcome::Fail { event_id },
                notify_connection_lost: class == ErrorClass::ConnectionLost,
            }
        },
    }
}

} // verus!
