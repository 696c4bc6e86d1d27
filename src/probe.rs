use crate::types::{IpAddr, Round, Sequence, TimeToLive, Timestamp};
use vstd::prelude::*;

verus! {

/// The status of a probe.
#[derive(Debug, Clone, Copy, PartialEq, Eq, Structural, Hash)]
pub enum ProbeStatus {
    /// The probe has not been sent.
    NotSent,
    /// The probe has been sent and is awaiting a response.
    Awaited,
    /// The probe has been sent and a response has been received.
    Complete,
}

/// The kind of ICMP packet that answered a probe.
#[derive(Debug, Clone, Copy, PartialEq, Eq, Structural, Hash)]
pub enum IcmpPacketType {
    /// TimeExceeded packet.
    TimeExceeded,
    /// `EchoReply` packet.
    EchoReply,
    /// Unreachable packet.
    Unreachable,
}

/// One outgoing ICMP echo request and the response linked to it, if any.
#[derive(Debug, Clone, Copy, PartialEq, Eq, Structural, Hash)]
pub struct Probe {
    pub sequence: Sequence,
    pub ttl: TimeToLive,
    pub round: Round,
    pub sent: Option<Timestamp>,
    pub received: Option<Timestamp>,
    pub host: Option<IpAddr>,
    pub status: ProbeStatus,
    pub icmp_packet_type: Option<IcmpPacketType>,
}

/// The probe that occupies a slot nothing was ever sent from.
pub open spec fn unsent_probe() -> Probe {
    Probe {
        sequence: Sequence(0),
        ttl: TimeToLive(0),
        round: Round(0),
        sent: None,
        received: None,
        host: None,
        status: ProbeStatus::NotSent,
        icmp_packet_type: None,
    }
}

/// A probe as it stands the moment it is sent.
pub open spec fn sent_probe(sequence: Sequence, ttl: TimeToLive, round: Round, sent: Timestamp) -> Probe {
    Probe {
        sequence,
        ttl,
        round,
        sent: Some(sent),
        received: None,
        host: None,
        status: ProbeStatus::Awaited,
        icmp_packet_type: None,
    }
}

impl Default for Probe {
    fn default() -> (r: Probe)
        ensures
            r == unsent_probe(),
    {
        Probe {
            sequence: Sequence(0),
            ttl: TimeToLive(0),
            round: Round(0),
            sent: None,
            received: None,
            host: None,
            status: ProbeStatus::NotSent,
            icmp_packet_type: None,
        }
    }
}

impl Probe {
    /// A probe awaiting its response, sent at `sent`.
    pub fn new(sequence: Sequence, ttl: TimeToLive, round: Round, sent: Timestamp) -> (r: Probe)
        ensures
            r == sent_probe(sequence, ttl, round, sent),
    {
        Probe {
            sequence,
            ttl,
            round,
            sent: Some(sent),
            received: None,
            host: None,
            status: ProbeStatus::Awaited,
            icmp_packet_type: None,
        }
    }

    pub fn with_status(self, status: ProbeStatus) -> (r: Probe)
        ensures
            r == (Probe { status, ..self }),
    {
        Probe { status, ..self }
    }

    pub fn with_icmp_packet_type(self, icmp_packet_type: IcmpPacketType) -> (r: Probe)
        ensures
            r == (Probe { icmp_packet_type: Some(icmp_packet_type), ..self }),
    {
        Probe { icmp_packet_type: Some(icmp_packet_type), ..self }
    }

    pub fn with_host(self, host: IpAddr) -> (r: Probe)
        ensures
            r == (Probe { host: Some(host), ..self }),
    {
        Probe { host: Some(host), ..self }
    }

    pub fn with_received(self, received: Timestamp) -> (r: Probe)
        ensures
            r == (Probe { received: Some(received), ..self }),
    {
        Probe { received: Some(received), ..self }
    }
}

} // verus!
