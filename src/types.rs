use vstd::prelude::*;

verus! {

/// Round newtype.
#[derive(Debug, Clone, Copy, Default, PartialEq, Eq, Structural, Ord, PartialOrd, Hash)]
pub struct Round(pub usize);

/// Time-to-live (ttl) newtype.
#[derive(Debug, Clone, Copy, Default, PartialEq, Eq, Structural, Ord, PartialOrd, Hash)]
pub struct TimeToLive(pub u8);

/// Sequence number newtype.
#[derive(Debug, Clone, Copy, Default, PartialEq, Eq, Structural, Ord, PartialOrd, Hash)]
pub struct Sequence(pub u16);

/// Trace identifier newtype.
#[derive(Debug, Clone, Copy, Default, PartialEq, Eq, Structural, Ord, PartialOrd, Hash)]
pub struct TraceId(pub u16);

/// Max inflight newtype.
#[derive(Debug, Clone, Copy, Default, PartialEq, Eq, Structural, Ord, PartialOrd, Hash)]
pub struct MaxInflight(pub u8);

/// Packet size newtype.
#[derive(Debug, Clone, Copy, Default, PartialEq, Eq, Structural, Ord, PartialOrd, Hash)]
pub struct PacketSize(pub u16);

/// Payload pattern newtype.
#[derive(Debug, Clone, Copy, Default, PartialEq, Eq, Structural, Ord, PartialOrd, Hash)]
pub struct PayloadPattern(pub u8);

/// A point in time, as nanoseconds since the Unix epoch.
#[derive(Debug, Clone, Copy, Default, PartialEq, Eq, Structural, Ord, PartialOrd, Hash)]
pub struct Timestamp(pub u128);

/// A span of time in nanoseconds.
#[derive(Debug, Clone, Copy, Default, PartialEq, Eq, Structural, Ord, PartialOrd, Hash)]
pub struct Duration(pub u128);

/// An IPv4 or IPv6 address, held as its integer value.
#[derive(Debug, Clone, Copy, PartialEq, Eq, Structural, Hash)]
pub enum IpAddr {
    V4(u32),
    V6(u128),
}

/// The span from `start` to `end`; zero where the clock went backwards.
pub open spec fn span_between(start: Timestamp, end: Timestamp) -> int {
    if end.0 >= start.0 {
        end.0 - start.0
    } else {
        0
    }
}

impl Timestamp {
    /// The time elapsed from `earlier` to `self`, zero if `earlier` is later.
    pub fn duration_since(self, earlier: Timestamp) -> (r: Duration)
        ensures
            r.0 == span_between(earlier, self),
    {
        if self.0 >= earlier.0 {
            Duration(self.0 - earlier.0)
        } else {
            Duration(0)
        }
    }

    /// The current time as read from the system clock.
    pub fn now() -> (r: Timestamp) {
        Timestamp(nanos_since_epoch())
    }
}

/// Relies on std's `SystemTime::elapsed` of the Unix epoch to read the system
/// clock; a clock set before the epoch reads as zero.
#[verifier::external_body]
fn nanos_since_epoch() -> u128 {
    match std::time::SystemTime::UNIX_EPOCH.elapsed() {
        Ok(d) => d.as_nanos(),
        Err(_) => 0,
    }
}

/// The address family of `addr` as shown in the status bar.
pub fn target_family(addr: IpAddr) -> (r: &'static str)
    ensures
        r@ == (if addr is V4 { "v4"@ } else { "v6"@ }),
{
    match addr {
        IpAddr::V4(_) => {
            proof { reveal_strlit("v4"); }
            "v4"
        },
        IpAddr::V6(_) => {
            proof { reveal_strlit("v6"); }
            "v6"
        },
    }
}

} // verus!
