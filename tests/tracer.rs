use std::cell::RefCell;
use trippy::probe::{IcmpPacketType, Probe, ProbeStatus};
use trippy::state::TracerState;
use trippy::tracer::{exceeds, IcmpResponse, IcmpTracer, IcmpTracerConfig, ResponseData};
use trippy::types::{
    target_family, Duration, IpAddr, MaxInflight, PacketSize, PayloadPattern, Round, Sequence,
    TimeToLive, Timestamp, TraceId,
};

const MS: u128 = 1_000_000;
const TARGET: IpAddr = IpAddr::V4(0x0808_0808);

fn config() -> IcmpTracerConfig {
    IcmpTracerConfig {
        target_addr: TARGET,
        trace_identifier: TraceId(1234),
        first_ttl: TimeToLive(1),
        max_ttl: TimeToLive(30),
        grace_duration: Duration(50 * MS),
        max_inflight: MaxInflight(24),
        read_timeout: Duration(10 * MS),
        min_round_duration: Duration(100 * MS),
        max_round_duration: Duration(2000 * MS),
        packet_size: PacketSize(84),
        payload_pattern: PayloadPattern(0),
    }
}

fn data(sequence: u16, identifier: u16, addr: IpAddr, at: u128) -> ResponseData {
    ResponseData { recv: Timestamp(at), addr, identifier, sequence }
}

#[test]
fn classify_maps_each_variant() {
    let d = data(33000, 1, TARGET, 0);
    assert_eq!(
        IcmpResponse::TimeExceeded(d).classify(),
        (ProbeStatus::Complete, IcmpPacketType::TimeExceeded, false)
    );
    assert_eq!(
        IcmpResponse::DestinationUnreachable(d).classify(),
        (ProbeStatus::Complete, IcmpPacketType::Unreachable, false)
    );
    assert_eq!(
        IcmpResponse::EchoReply(d).classify(),
        (ProbeStatus::Complete, IcmpPacketType::EchoReply, true)
    );
    assert_eq!(IcmpResponse::EchoReply(d).data(), d);
}

#[test]
fn send_request_respects_inflight_cap() {
    let mut cfg = config();
    cfg.max_inflight = MaxInflight(3);
    let tracer = IcmpTracer::new(&cfg, |_p: &Probe| {});
    let mut st = TracerState::new_at(TimeToLive(1), Timestamp(0));
    let mut sent = Vec::new();
    while let Some(p) = tracer.send_request(&mut st) {
        sent.push(p.ttl.0);
    }
    assert_eq!(sent, vec![1, 2]);
    assert_eq!(st.ttl(), TimeToLive(3));
    // an answer for ttl 1 lets one more go
    tracer.recv_response(&mut st, Some(IcmpResponse::TimeExceeded(data(33000, 1234, IpAddr::V4(1), 5))));
    assert!(tracer.should_send(&st));
    let p = tracer.send_request(&mut st).unwrap();
    assert_eq!(p.ttl, TimeToLive(3));
    assert!(!tracer.should_send(&st));
}

#[test]
fn send_request_stops_at_target_and_max_ttl() {
    let mut cfg = config();
    cfg.max_ttl = TimeToLive(2);
    let tracer = IcmpTracer::new(&cfg, |_p: &Probe| {});
    let mut st = TracerState::new_at(TimeToLive(1), Timestamp(0));
    assert!(tracer.send_request(&mut st).is_some());
    assert!(tracer.send_request(&mut st).is_some());
    assert!(tracer.send_request(&mut st).is_none());

    let tracer = IcmpTracer::new(&config(), |_p: &Probe| {});
    let mut st = TracerState::new_at(TimeToLive(1), Timestamp(0));
    tracer.send_request(&mut st);
    tracer.recv_response(&mut st, Some(IcmpResponse::EchoReply(data(33000, 1234, TARGET, 5))));
    assert!(st.target_found());
    assert!(tracer.send_request(&mut st).is_none());
}

#[test]
fn known_target_ttl_bounds_next_round() {
    let tracer = IcmpTracer::new(&config(), |_p: &Probe| {});
    let mut st = TracerState::new_at(TimeToLive(1), Timestamp(0));
    tracer.send_request(&mut st);
    tracer.send_request(&mut st);
    tracer.recv_response(&mut st, Some(IcmpResponse::EchoReply(data(33001, 1234, TARGET, 5))));
    st.advance_round_at(TimeToLive(1), Timestamp(10));
    assert_eq!(st.target_ttl(), Some(TimeToLive(2)));
    assert!(tracer.send_request(&mut st).is_some());
    assert!(tracer.send_request(&mut st).is_some());
    assert!(tracer.send_request(&mut st).is_none());
}

#[test]
fn foreign_identifier_is_ignored() {
    let tracer = IcmpTracer::new(&config(), |_p: &Probe| {});
    let mut st = TracerState::new_at(TimeToLive(1), Timestamp(0));
    tracer.send_request(&mut st);
    let before = st.probe_at(Sequence(33000));
    tracer.recv_response(&mut st, Some(IcmpResponse::TimeExceeded(data(33000, 999, IpAddr::V4(1), 5))));
    assert_eq!(st.probe_at(Sequence(33000)), before);
    assert_eq!(st.max_received_ttl(), None);
    assert_eq!(st.received_time(), None);
    assert!(!st.target_found());
}

#[test]
fn stale_sequence_is_ignored() {
    let tracer = IcmpTracer::new(&config(), |_p: &Probe| {});
    let mut st = TracerState::new_at(TimeToLive(1), Timestamp(0));
    tracer.send_request(&mut st);
    st.advance_round_at(TimeToLive(1), Timestamp(1));
    tracer.recv_response(&mut st, Some(IcmpResponse::EchoReply(data(33000, 1234, TARGET, 5))));
    assert!(!st.target_found());
    assert_eq!(st.received_time(), None);
    tracer.recv_response(&mut st, None);
    assert_eq!(st.received_time(), None);
}

#[test]
fn unreachable_response_completes_probe() {
    let tracer = IcmpTracer::new(&config(), |_p: &Probe| {});
    let mut st = TracerState::new_at(TimeToLive(1), Timestamp(0));
    tracer.send_request(&mut st);
    let host = IpAddr::V6(1);
    tracer.recv_response(&mut st, Some(IcmpResponse::DestinationUnreachable(data(33000, 1234, host, 7))));
    let p = st.probe_at(Sequence(33000));
    assert_eq!(p.status, ProbeStatus::Complete);
    assert_eq!(p.icmp_packet_type, Some(IcmpPacketType::Unreachable));
    assert_eq!(p.host, Some(host));
    assert_eq!(p.received, Some(Timestamp(7)));
    assert!(!st.target_found());
}

#[test]
fn round_completes_when_target_found() {
    let published = RefCell::new(Vec::new());
    let tracer = IcmpTracer::new(&config(), |p: &Probe| published.borrow_mut().push(*p));
    let mut st = TracerState::new_at(TimeToLive(1), Timestamp(0));
    for _ in 0..5 {
        tracer.send_request(&mut st);
    }
    tracer.recv_response(&mut st, Some(IcmpResponse::TimeExceeded(data(33000, 1234, IpAddr::V4(1), 10 * MS))));
    tracer.recv_response(&mut st, Some(IcmpResponse::EchoReply(data(33002, 1234, TARGET, 20 * MS))));
    // not before the minimum round time and the grace period have passed
    assert!(!tracer.update_round(&mut st, Timestamp(60 * MS)));
    assert!(published.borrow().is_empty());
    assert!(tracer.update_round(&mut st, Timestamp(200 * MS)));
    let got = published.borrow().clone();
    assert_eq!(got.len(), 3);
    assert_eq!(got.iter().map(|p| p.sequence.0).collect::<Vec<_>>(), vec![33000, 33001, 33002]);
    assert_eq!(got[0].ttl, TimeToLive(1));
    assert!(got.iter().all(|p| p.round == Round(0)));
    assert_eq!(st.round(), Round(1));
    assert_eq!(st.target_ttl(), Some(TimeToLive(3)));
    assert_eq!(st.round_start(), Timestamp(200 * MS));
    assert_eq!(st.round_sequence(), Sequence(33005));
}

#[test]
fn round_completes_by_timeout_without_target() {
    let published = RefCell::new(Vec::new());
    let tracer = IcmpTracer::new(&config(), |p: &Probe| published.borrow_mut().push(*p));
    let mut st = TracerState::new_at(TimeToLive(1), Timestamp(0));
    for _ in 0..5 {
        tracer.send_request(&mut st);
    }
    tracer.recv_response(&mut st, Some(IcmpResponse::TimeExceeded(data(33000, 1234, IpAddr::V4(1), 10 * MS))));
    tracer.recv_response(&mut st, Some(IcmpResponse::TimeExceeded(data(33001, 1234, IpAddr::V4(2), 20 * MS))));
    assert_eq!(tracer.round_size(&st), 3);
    assert!(!tracer.update_round(&mut st, Timestamp(1500 * MS)));
    assert!(tracer.update_round(&mut st, Timestamp(2001 * MS)));
    let got = published.borrow().clone();
    assert_eq!(got.len(), 3);
    assert_eq!(got[0].ttl, TimeToLive(1));
    assert_eq!(got[2].ttl, TimeToLive(3));
    assert_eq!(got[2].status, ProbeStatus::Awaited);
    assert_eq!(st.round(), Round(1));
    assert_eq!(st.target_ttl(), None);
}

#[test]
fn round_size_is_capped_by_max_ttl() {
    let mut cfg = config();
    cfg.max_ttl = TimeToLive(3);
    let tracer = IcmpTracer::new(&cfg, |_p: &Probe| {});
    let mut st = TracerState::new_at(TimeToLive(1), Timestamp(0));
    assert_eq!(tracer.round_size(&st), 0);
    assert!(tracer.round_probes(&st).is_empty());
    for _ in 0..3 {
        tracer.send_request(&mut st);
    }
    tracer.recv_response(&mut st, Some(IcmpResponse::TimeExceeded(data(33002, 1234, IpAddr::V4(3), 1))));
    // min(3, 3 - 1) + 1
    assert_eq!(tracer.round_size(&st), 3);
    let probes = tracer.round_probes(&st);
    assert_eq!(probes.len(), 3);
    assert_eq!(probes[2].icmp_packet_type, Some(IcmpPacketType::TimeExceeded));
}

#[test]
fn exceeds_needs_a_start_and_more_than_the_span() {
    assert!(!exceeds(None, Timestamp(100), Duration(1)));
    assert!(exceeds(Some(Timestamp(10)), Timestamp(100), Duration(89)));
    assert!(!exceeds(Some(Timestamp(10)), Timestamp(100), Duration(90)));
    // a clock that went backwards counts as no time
    assert!(!exceeds(Some(Timestamp(200)), Timestamp(100), Duration(0)));
    assert_eq!(Timestamp(100).duration_since(Timestamp(40)), Duration(60));
    assert_eq!(Timestamp(40).duration_since(Timestamp(100)), Duration(0));
}

#[test]
fn settings_are_kept() {
    let tracer = IcmpTracer::new(&config(), |_p: &Probe| {});
    assert_eq!(tracer.settings(), config());
}

#[test]
fn target_family_names() {
    assert_eq!(target_family(IpAddr::V4(1)), "v4");
    assert_eq!(target_family(IpAddr::V6(1)), "v6");
}

#[test]
fn clock_reads_after_the_epoch() {
    let a = Timestamp::now();
    let b = Timestamp::now();
    assert!(a.0 > 0);
    assert!(b.0 >= a.0);
}

#[test]
fn probe_goes_out_at_the_largest_ttl() {
    let mut cfg = config();
    cfg.first_ttl = TimeToLive(254);
    cfg.max_ttl = TimeToLive(254);
    cfg.max_inflight = MaxInflight(255);
    let tracer = IcmpTracer::new(&cfg, |_p: &Probe| {});
    let mut st = TracerState::new_at(TimeToLive(254), Timestamp(0));
    assert!(tracer.should_send(&st));
    let p = tracer.send_request(&mut st).unwrap();
    assert_eq!(p.ttl, TimeToLive(254));
    assert_eq!(st.ttl(), TimeToLive(255));
    assert!(!tracer.should_send(&st));
    assert!(tracer.send_request(&mut st).is_none());
}
