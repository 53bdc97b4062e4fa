use vstd::prelude::*;

verus! {

/// Nanoseconds in one second.
pub const NANOS_PER_SEC: u64 = 1_000_000_000;

/// A protobuf timestamp split into whole seconds and the nanoseconds past them.
#[derive(Clone, Copy, Debug, PartialEq, Eq, Structural)]
pub struct Stamp {
    pub seconds: i64,
    pub nanos: i32,
}

/// The canonical form of a timestamp whose nanoseconds lie strictly within
/// one second of zero: a negative remainder borrows one second, saturating at
/// the earliest representable instant.
pub open spec fn normal_form(seconds: i64, nanos: i32) -> Stamp {
    if nanos < 0 {
        if seconds > i64::MIN {
            Stamp { seconds: (seconds - 1) as i64, nanos: (nanos + NANOS_PER_SEC) as i32 }
        } else {
            Stamp { seconds: i64::MIN, nanos: 0 }
        }
    } else {
        Stamp { seconds, nanos }
    }
}

/// Relies on prost_types::Timestamp::normalize: for nanoseconds in
/// (-1e9, 1e9) it leaves a non-negative remainder alone and otherwise borrows
/// one second (or, at `i64::MIN` seconds, sets the remainder to 0).
#[verifier::external_body]
fn normalize(seconds: i64, nanos: i32) -> (r: Stamp)
    requires
        -(NANOS_PER_SEC as int) < nanos < NANOS_PER_SEC as int,
    ensures
        r == normal_form(seconds, nanos),
{
    let mut t = prost_types::Timestamp { seconds, nanos };
    t.normalize();
    Stamp { seconds: t.seconds, nanos: t.nanos }
}

/// The timestamp of an instant given in nanoseconds since the epoch.
pub open spec fn stamp_of(ns: u64) -> Stamp {
    Stamp { seconds: (ns / NANOS_PER_SEC) as i64, nanos: (ns % NANOS_PER_SEC) as i32 }
}

/// Builds the normalized timestamp for an ingest time in nanoseconds.
pub fn ingest_stamp(ns: u64) -> (r: Stamp)
    ensures
        r == stamp_of(ns),
        0 <= r.nanos < NANOS_PER_SEC,
        r.seconds >= 0,
{
    let seconds = (ns / NANOS_PER_SEC) as i64;
    let nanos = (ns % NANOS_PER_SEC) as i32;
    normalize(seconds, nanos)
}

} // verus!
