use crate::probe::{IcmpPacketType, Probe, ProbeStatus};
use crate::state::{slot, start_of_round, ProbeUpdate, TracerModel, TracerState, BUFFER_SIZE, MAX_SEQUENCE};
use crate::types::{
    span_between, Duration, IpAddr, MaxInflight, PacketSize, PayloadPattern, Sequence,
    TimeToLive, Timestamp, TraceId,
};
use vstd::prelude::*;

verus! {

/// The settings of a trace.
#[derive(Debug, Clone, Copy, PartialEq, Eq, Structural)]
pub struct IcmpTracerConfig {
    pub target_addr: IpAddr,
    pub trace_identifier: TraceId,
    pub first_ttl: TimeToLive,
    pub max_ttl: TimeToLive,
    pub grace_duration: Duration,
    pub max_inflight: MaxInflight,
    pub read_timeout: Duration,
    pub min_round_duration: Duration,
    pub max_round_duration: Duration,
    pub packet_size: PacketSize,
    pub payload_pattern: PayloadPattern,
}

impl IcmpTracerConfig {
    /// Rounds start at a time-to-live of at least one and no greater than the
    /// largest one allowed, which leaves room to count one past it in a `u8`.
    pub open spec fn wf(self) -> bool {
        1 <= self.first_ttl.0 <= self.max_ttl.0 <= 254
    }
}

/// What an ICMP response carries that the tracer reads.
#[derive(Debug, Clone, Copy, PartialEq, Eq, Structural)]
pub struct ResponseData {
    pub recv: Timestamp,
    pub addr: IpAddr,
    pub identifier: u16,
    pub sequence: u16,
}

/// An ICMP response to one of the probes.
#[derive(Debug, Clone, Copy, PartialEq, Eq, Structural)]
pub enum IcmpResponse {
    TimeExceeded(ResponseData),
    DestinationUnreachable(ResponseData),
    EchoReply(ResponseData),
}

/// The packet type that a response records, and whether it came from the
/// target host.
pub open spec fn response_kind(response: IcmpResponse) -> (IcmpPacketType, bool) {
    match response {
        IcmpResponse::TimeExceeded(_) => (IcmpPacketType::TimeExceeded, false),
        IcmpResponse::DestinationUnreachable(_) => (IcmpPacketType::Unreachable, false),
        IcmpResponse::EchoReply(_) => (IcmpPacketType::EchoReply, true),
    }
}

pub open spec fn response_data(response: IcmpResponse) -> ResponseData {
    match response {
        IcmpResponse::TimeExceeded(d) => d,
        IcmpResponse::DestinationUnreachable(d) => d,
        IcmpResponse::EchoReply(d) => d,
    }
}

impl IcmpResponse {
    pub fn data(&self) -> (r: ResponseData)
        ensures
            r == response_data(*self),
    {
        match self {
            IcmpResponse::TimeExceeded(d) => *d,
            IcmpResponse::DestinationUnreachable(d) => *d,
            IcmpResponse::EchoReply(d) => *d,
        }
    }

    /// The status, packet type and target flag that this response gives the
    /// probe it answers.
    pub fn classify(&self) -> (r: (ProbeStatus, IcmpPacketType, bool))
        ensures
            r.0 == ProbeStatus::Complete,
            (r.1, r.2) == response_kind(*self),
    {
        match self {
            IcmpResponse::TimeExceeded(_) => (ProbeStatus::Complete, IcmpPacketType::TimeExceeded, false),
            IcmpResponse::DestinationUnreachable(_) => (ProbeStatus::Complete, IcmpPacketType::Unreachable, false),
            IcmpResponse::EchoReply(_) => (ProbeStatus::Complete, IcmpPacketType::EchoReply, true),
        }
    }
}

/// Whether the next probe goes out: the target is not found yet, the
/// time-to-live is within bounds, and either it does not pass the target's
/// known time-to-live or, with none known, fewer than `max_inflight` probes
/// beyond the furthest answered one are out.
pub open spec fn can_send(c: IcmpTracerConfig, v: TracerModel) -> bool {
    &&& !v.target_found
    &&& v.ttl.0 <= c.max_ttl.0
    &&& match v.target_ttl {
        Some(t) => v.ttl.0 <= t.0,
        None => v.ttl.0 - (match v.max_received_ttl {
            Some(m) => m.0 as int,
            None => 0,
        }) < c.max_inflight.0,
    }
}

/// The probe that `response` turns the stored probe into.
pub open spec fn answered_probe(v: TracerModel, response: IcmpResponse) -> Probe {
    let d = response_data(response);
    let p = v.probe_at(Sequence(d.sequence));
    Probe {
        status: ProbeStatus::Complete,
        icmp_packet_type: Some(response_kind(response).0),
        host: Some(d.addr),
        received: Some(d.recv),
        ..p
    }
}

/// The response carries this trace's identifier and answers a probe of the
/// current round.
pub open spec fn accepts(c: IcmpTracerConfig, v: TracerModel, response: IcmpResponse) -> bool {
    let d = response_data(response);
    d.identifier == c.trace_identifier.0 && v.in_round(Sequence(d.sequence))
}

/// The state after `response` arrived: recorded if accepted, else ignored.
pub open spec fn after_response(c: IcmpTracerConfig, v: TracerModel, response: IcmpResponse) -> TracerModel {
    let d = response_data(response);
    if accepts(c, v, response) {
        v.after_update(Sequence(d.sequence), answered_probe(v, response), d.recv, response_kind(response).1)
    } else {
        v
    }
}

/// More than `dur` passed between `start`, if known, and `end`.
pub open spec fn spec_exceeds(start: Option<Timestamp>, end: Timestamp, dur: Duration) -> bool {
    match start {
        Some(s) => span_between(s, end) > dur.0,
        None => false,
    }
}

/// The round is over at `now`: the target answered, the minimum round time
/// passed and the line has been quiet for the grace period; or the maximum
/// round time passed.
pub open spec fn round_complete(c: IcmpTracerConfig, v: TracerModel, now: Timestamp) -> bool {
    let elapsed = span_between(v.round_start, now);
    (elapsed > c.min_round_duration.0 && spec_exceeds(v.received_time, now, c.grace_duration)
        && v.target_found) || elapsed > c.max_round_duration.0
}

/// How many probes a completed round publishes: up to the target's
/// time-to-live if known; else up to one past the furthest answered
/// time-to-live, capped by `max_ttl`; else none.
pub open spec fn round_size(c: IcmpTracerConfig, v: TracerModel) -> int {
    let first = c.first_ttl.0 as int;
    match v.target_ttl {
        Some(t) => if t.0 >= first {
            t.0 - first + 1
        } else {
            0
        },
        None => match v.max_received_ttl {
            Some(m) => {
                let size = (if m.0 >= first { m.0 - first } else { 0 }) + 1;
                let max_allowed = c.max_ttl.0 - first;
                (if size < max_allowed { size } else { max_allowed }) + 1
            },
            None => 0,
        },
    }
}

/// The probes that a completed round publishes, in ring order from the
/// round's first sequence.
pub open spec fn published(c: IcmpTracerConfig, v: TracerModel) -> Seq<Probe> {
    v.probes().take(round_size(c, v))
}

/// A round is kept in order by the tracer's own steps: starting the trace,
/// beginning a round, sending a probe that does not wrap the sequence, and
/// recording a response.
pub proof fn lemma_round_order_kept(
    c: IcmpTracerConfig,
    v: TracerModel,
    now: Timestamp,
    response: IcmpResponse,
)
    requires
        v.wf(),
    ensures
        TracerModel::initial(c.first_ttl, now).round_in_order(c.first_ttl),
        v.round.0 < usize::MAX ==> v.after_advance(c.first_ttl, now).round_in_order(c.first_ttl),
        v.round_in_order(c.first_ttl) && v.ttl.0 < 255 && v.sequence.0 < MAX_SEQUENCE
            ==> v.after_next_probe(now).round_in_order(c.first_ttl),
        v.round_in_order(c.first_ttl) ==> after_response(c, v, response).round_in_order(c.first_ttl),
{
    let f = c.first_ttl;
    if v.round_in_order(f) && v.ttl.0 < 255 && v.sequence.0 < MAX_SEQUENCE {
        let w = v.after_next_probe(now);
        let k = v.sent_in_round();
        let rs = v.round_sequence.0 as int;
        assert(w.sent_in_round() == k + 1);
        assert forall|i: int| 0 <= i < w.sent_in_round() implies {
            let p = #[trigger] w.buffer[(w.round_sequence.0 + i) % BUFFER_SIZE as int];
            &&& p.sequence.0 == w.round_sequence.0 + i
            &&& p.ttl.0 == f.0 + i
            &&& p.round == w.round
        } by {
            if i < k {
                assert((rs + i) % 256 != (rs + k) % 256) by {
                    lemma_distinct_slots(rs, i, k);
                }
            }
        }
    }
    if v.round_in_order(f) {
        let w = after_response(c, v, response);
        let d = response_data(response);
        if accepts(c, v, response) {
            let s = d.sequence as int;
            assert forall|i: int| 0 <= i < w.sent_in_round() implies {
                let p = #[trigger] w.buffer[(w.round_sequence.0 + i) % BUFFER_SIZE as int];
                &&& p.sequence.0 == w.round_sequence.0 + i
                &&& p.ttl.0 == f.0 + i
                &&& p.round == w.round
            } by {
                let j = (v.round_sequence.0 + i) % BUFFER_SIZE as int;
                if j == s % 256 {
                    assert(v.buffer[j] == v.probe_at(Sequence(d.sequence)));
                }
            }
        }
    }
}

/// Every slot holds a probe never sent or one of its own sequence: at the
/// start of a trace, and after each step of the tracer, where a recorded
/// probe keeps the slot of the sequence it answers.
pub proof fn lemma_slots_match_kept(
    c: IcmpTracerConfig,
    v: TracerModel,
    now: Timestamp,
    first_ttl: TimeToLive,
    u: ProbeUpdate,
    response: IcmpResponse,
)
    requires
        v.wf(),
    ensures
        TracerModel::initial(first_ttl, now).slots_match(),
        v.slots_match() ==> v.after_next_probe(now).slots_match(),
        v.slots_match() ==> v.after_advance(first_ttl, now).slots_match(),
        v.slots_match() && slot(u.probe.sequence.0) == slot(u.sequence.0) ==> v.after_update(
            u.sequence,
            u.probe,
            u.received_time,
            u.found,
        ).slots_match(),
        v.slots_match() && v.round_in_order(c.first_ttl) ==> after_response(c, v, response).slots_match(),
{
    if v.slots_match() && v.round_in_order(c.first_ttl) && accepts(c, v, response) {
        let s = response_data(response).sequence as int;
        let rs = v.round_sequence.0 as int;
        assert(s >= rs);
        let i = s - rs;
        assert(0 <= i < v.sent_in_round());
        assert(v.buffer[(rs + i) % BUFFER_SIZE as int].sequence.0 == rs + i);
        assert(slot(answered_probe(v, response).sequence.0) == slot(s as u16));
    }
}

proof fn lemma_distinct_slots(a: int, i: int, k: int)
    requires
        0 <= a,
        0 <= i < k < 256,
    ensures
        (a + i) % 256 != (a + k) % 256,
{
    assert((a + i) % 256 != (a + k) % 256) by (nonlinear_arith)
        requires
            0 <= a,
            0 <= i < k < 256,
    ;
}

/// What a completed round publishes: exactly `round_size` probes, with
/// ascending sequences from the round's first, times-to-live counted up from
/// `first_ttl`, all of the current round.
pub open spec fn publishes_in_order(c: IcmpTracerConfig, v: TracerModel) -> bool {
    &&& published(c, v).len() == round_size(c, v)
    &&& forall|i: int|
        0 <= i < published(c, v).len() ==> {
            let p = #[trigger] published(c, v)[i];
            &&& p.sequence.0 == v.round_sequence.0 + i
            &&& p.ttl.0 == c.first_ttl.0 + i
            &&& p.round == v.round
        }
    &&& forall|i: int, j: int|
        0 <= i < j < published(c, v).len() ==> published(c, v)[i].sequence.0 < published(c, v)[j].sequence.0
    &&& published(c, v).len() > 0 ==> published(c, v)[0].ttl == c.first_ttl
}

/// One step of the scheduler within a round: a send attempt at a time, or a
/// response taken from the channel.
pub enum RoundStep {
    Send(Timestamp),
    Receive(IcmpResponse),
}

/// The state after `step`: a probe is created only where one is due.
pub open spec fn after_step(c: IcmpTracerConfig, v: TracerModel, step: RoundStep) -> TracerModel {
    match step {
        RoundStep::Send(now) => if can_send(c, v) {
            v.after_next_probe(now)
        } else {
            v
        },
        RoundStep::Receive(response) => after_response(c, v, response),
    }
}

/// The state after the scheduler's `steps`, in order, from `v`.
pub open spec fn apply_steps(c: IcmpTracerConfig, v: TracerModel, steps: Seq<RoundStep>) -> TracerModel
    decreases steps.len(),
{
    if steps.len() == 0 {
        v
    } else {
        after_step(c, apply_steps(c, v, steps.drop_last()), steps.last())
    }
}

/// `step`, taken at `v`, does not send the last sequence number, after
/// which the numbering wraps.
pub open spec fn send_unwrapped(c: IcmpTracerConfig, v: TracerModel, step: RoundStep) -> bool {
    step is Send && can_send(c, v) ==> v.sequence.0 < MAX_SEQUENCE
}

/// A round that starts fresh or after `advance_round`, runs any sends and
/// responses of the scheduler without wrapping the sequence, and has sent as
/// many probes as it publishes, publishes them in order: `round_size` probes
/// of ascending sequence, the first at `first_ttl`.
pub proof fn lemma_round_published_in_order(
    c: IcmpTracerConfig,
    prev: TracerModel,
    now: Timestamp,
    fresh: bool,
    steps: Seq<RoundStep>,
)
    requires
        c.wf(),
        fresh || (prev.wf() && prev.round.0 < usize::MAX),
        forall|i: int|
            0 <= i < steps.len() ==> send_unwrapped(
                c,
                apply_steps(c, start_of_round(prev, c.first_ttl, now, fresh), steps.take(i)),
                #[trigger] steps[i],
            ),
        round_size(c, apply_steps(c, start_of_round(prev, c.first_ttl, now, fresh), steps))
            <= apply_steps(c, start_of_round(prev, c.first_ttl, now, fresh), steps).sent_in_round(),
    ensures
        publishes_in_order(c, apply_steps(c, start_of_round(prev, c.first_ttl, now, fresh), steps)),
{
    let start = start_of_round(prev, c.first_ttl, now, fresh);
    if fresh {
        assert(start.wf());
        lemma_round_order_kept(c, start, now, arbitrary());
    } else {
        lemma_round_order_kept(c, prev, now, arbitrary());
    }
    lemma_steps_keep_order(c, start, steps);
    lemma_published_round(c, apply_steps(c, start, steps));
}

proof fn lemma_steps_keep_order(c: IcmpTracerConfig, v: TracerModel, steps: Seq<RoundStep>)
    requires
        c.wf(),
        v.wf(),
        v.round_in_order(c.first_ttl),
        forall|i: int|
            0 <= i < steps.len() ==> send_unwrapped(c, apply_steps(c, v, steps.take(i)), #[trigger] steps[i]),
    ensures
        apply_steps(c, v, steps).wf(),
        apply_steps(c, v, steps).round_in_order(c.first_ttl),
    decreases steps.len(),
{
    if steps.len() > 0 {
        let n = steps.len() - 1;
        let pre = steps.drop_last();
        assert forall|i: int| 0 <= i < pre.len() implies send_unwrapped(
            c,
            apply_steps(c, v, pre.take(i)),
            #[trigger] pre[i],
        ) by {
            assert(pre.take(i) =~= steps.take(i));
            assert(pre[i] == steps[i]);
        }
        lemma_steps_keep_order(c, v, pre);
        let w = apply_steps(c, v, pre);
        assert(steps.take(n) =~= pre);
        assert(send_unwrapped(c, w, steps[n]));
        match steps[n] {
            RoundStep::Send(t) => {
                lemma_round_order_kept(c, w, t, arbitrary());
            },
            RoundStep::Receive(r) => {
                lemma_round_order_kept(c, w, w.round_start, r);
            },
        }
    }
}

proof fn lemma_published_round(c: IcmpTracerConfig, v: TracerModel)
    requires
        c.wf(),
        v.wf(),
        v.round_in_order(c.first_ttl),
        round_size(c, v) <= v.sent_in_round(),
    ensures
        publishes_in_order(c, v),
{
    let n = round_size(c, v);
    let rs = v.round_sequence.0 as int;
    assert(n <= 256);
    assert forall|i: int| 0 <= i < n implies {
        let p = #[trigger] published(c, v)[i];
        &&& p.sequence.0 == v.round_sequence.0 + i
        &&& p.ttl.0 == c.first_ttl.0 + i
        &&& p.round == v.round
    } by {
        assert((rs % 256 + i) % 256 == (rs + i) % 256) by {
            vstd::arithmetic::div_mod::lemma_add_mod_noop(rs, i, 256);
            vstd::arithmetic::div_mod::lemma_mod_twice(i, 256);
            vstd::arithmetic::div_mod::lemma_mod_twice(rs, 256);
            vstd::arithmetic::div_mod::lemma_add_mod_noop(rs % 256, i, 256);
        }
        assert(published(c, v)[i] == v.buffer[(rs + i) % 256]);
    }
    if n > 0 {
        assert(published(c, v)[0].ttl.0 == c.first_ttl.0);
    }
}

/// More than `dur` passed between `start`, if known, and `end`; a clock that
/// went backwards counts as no time.
pub fn exceeds(start: Option<Timestamp>, end: Timestamp, dur: Duration) -> (r: bool)
    ensures
        r == spec_exceeds(start, end, dur),
{
    match start {
        Some(start) => end.duration_since(start).0 > dur.0,
        None => false,
    }
}

/// Traces a path to a target, handing each completed round to `publish`.
pub struct IcmpTracer<F> {
    config: IcmpTracerConfig,
    publish: F,
}

impl<F: Fn(&Probe)> IcmpTracer<F> {
    pub closed spec fn config(&self) -> IcmpTracerConfig {
        self.config
    }

    /// The sink each completed round's probes are handed to.
    pub closed spec fn publisher(&self) -> F {
        self.publish
    }

    /// The settings are valid and `publish` accepts every probe.
    pub closed spec fn wf(&self) -> bool {
        &&& self.config.wf()
        &&& forall|p: &Probe| #[trigger] call_requires(self.publish, (p,))
    }

    pub fn new(config: &IcmpTracerConfig, publish: F) -> (r: Self)
        requires
            config.wf(),
            forall|p: &Probe| #[trigger] call_requires(publish, (p,)),
        ensures
            r.wf(),
            r.config() == *config,
            r.publisher() == publish,
    {
        IcmpTracer { config: *config, publish }
    }

    /// The settings the tracer was made with.
    pub fn settings(&self) -> (r: IcmpTracerConfig)
        ensures
            r == self.config(),
    {
        self.config
    }

    /// Whether the next probe goes out now.
    pub fn should_send(&self, st: &TracerState) -> (r: bool)
        ensures
            r == can_send(self.config(), st@),
    {
        if st.target_found() || st.ttl().0 > self.config.max_ttl.0 {
            return false;
        }
        match st.target_ttl() {
            Some(target_ttl) => st.ttl().0 <= target_ttl.0,
            None => {
                let max_received = match st.max_received_ttl() {
                    Some(m) => m.0,
                    None => 0,
                };
                st.ttl().0 < max_received || st.ttl().0 - max_received < self.config.max_inflight.0
            },
        }
    }

    /// Create the next probe if one is due; the caller sends what comes back.
    pub fn send_request(&self, st: &mut TracerState) -> (r: Option<Probe>)
        requires
            self.wf(),
            old(st).wf(),
        ensures
            final(st).wf(),
            can_send(self.config(), old(st)@) ==> r is Some && r->0.sent is Some
                && r->0 == old(st)@.next_probe(r->0.sent->0)
                && final(st)@ == old(st)@.after_next_probe(r->0.sent->0),
            !can_send(self.config(), old(st)@) ==> r is None && final(st)@ == old(st)@,
    {
        if self.should_send(st) {
            Some(st.next_probe())
        } else {
            None
        }
    }

    /// Record what the channel received, if anything: a response that carries
    /// this trace's identifier and answers a probe of the current round
    /// completes that probe; any other is dropped.
    pub fn recv_response(&self, st: &mut TracerState, response: Option<IcmpResponse>)
        requires
            old(st).wf(),
        ensures
            final(st).wf(),
            final(st)@ == match response {
                Some(resp) => after_response(self.config(), old(st)@, resp),
                None => old(st)@,
            },
    {
        if let Some(resp) = response {
            let data = resp.data();
            let sequence = Sequence(data.sequence);
            if self.config.trace_identifier.0 == data.identifier && st.in_round(sequence) {
                let (status, packet_type, found) = resp.classify();
                let probe = st.probe_at(sequence).with_status(status).with_icmp_packet_type(
                    packet_type,
                ).with_host(data.addr).with_received(data.recv);
                st.update_probe(sequence, probe, data.recv, found);
            }
        }
    }

    /// Whether the current round is over at `now`.
    pub fn is_round_complete(&self, st: &TracerState, now: Timestamp) -> (r: bool)
        ensures
            r == round_complete(self.config(), st@, now),
    {
        let round_duration = now.duration_since(st.round_start());
        round_duration.0 > self.config.min_round_duration.0 && exceeds(
            st.received_time(),
            now,
            self.config.grace_duration,
        ) && st.target_found() || round_duration.0 > self.config.max_round_duration.0
    }

    /// How many probes the current round publishes when it completes.
    pub fn round_size(&self, st: &TracerState) -> (r: usize)
        requires
            self.wf(),
        ensures
            r == round_size(self.config(), st@),
            r <= BUFFER_SIZE,
    {
        let first = self.config.first_ttl.0;
        match st.target_ttl() {
            Some(target_ttl) => if target_ttl.0 >= first {
                (target_ttl.0 - first + 1) as usize
            } else {
                0
            },
            None => match st.max_received_ttl() {
                Some(m) => {
                    let size: u8 = if m.0 >= first { m.0 - first } else { 0 } + 1;
                    let max_allowed: u8 = self.config.max_ttl.0 - first;
                    (if size < max_allowed { size } else { max_allowed }) as usize + 1
                },
                None => 0,
            },
        }
    }

    /// The probes of the current round, in ring order from its first
    /// sequence, as many as the round publishes.
    pub fn round_probes(&self, st: &TracerState) -> (r: Vec<Probe>)
        requires
            self.wf(),
            st.wf(),
        ensures
            r@ == published(self.config(), st@),
    {
        let size = self.round_size(st);
        let all = st.probes();
        let mut r: Vec<Probe> = Vec::new();
        let mut i: usize = 0;
        while i < size
            invariant
                size == round_size(self.config(), st@),
                size <= BUFFER_SIZE,
                all@ == st@.probes(),
                i <= size,
                r@ == all@.take(i as int),
            decreases size - i,
        {
            r.push(all[i]);
            i += 1;
            assert(r@ =~= all@.take(i as int));
        }
        r
    }

    /// Hand each probe of the current round to the publisher.
    ///
    /// Each probe of `published`, in order, has been handed to the publisher.
    pub fn publish_trace(&self, st: &TracerState)
        requires
            self.wf(),
            st.wf(),
        ensures
            forall|k: int|
                0 <= k < published(self.config(), st@).len() ==> call_ensures(
                    self.publisher(),
                    (&published(self.config(), st@)[k],),
                    (),
                ),
    {
        let probes = self.round_probes(st);
        let mut i: usize = 0;
        while i < probes.len()
            invariant
                self.wf(),
                i <= probes@.len(),
                probes@ == published(self.config(), st@),
                forall|k: int| 0 <= k < i ==> call_ensures(self.publish, (&probes@[k],), ()),
            decreases probes.len() - i,
        {
            (self.publish)(&probes[i]);
            i += 1;
        }
    }

    /// If the round is over at `now`, publish it and begin the next one.
    /// Returns whether a round was completed.
    pub fn update_round(&self, st: &mut TracerState, now: Timestamp) -> (r: bool)
        requires
            self.wf(),
            old(st).wf(),
            old(st)@.round.0 < usize::MAX,
        ensures
            final(st).wf(),
            r == round_complete(self.config(), old(st)@, now),
            r ==> final(st)@ == old(st)@.after_advance(self.config().first_ttl, now),
            r ==> forall|k: int|
                0 <= k < published(self.config(), old(st)@).len() ==> call_ensures(
                    self.publisher(),
                    (&published(self.config(), old(st)@)[k],),
                    (),
                ),
            !r ==> final(st)@ == old(st)@,
    {
        if self.is_round_complete(st, now) {
            self.publish_trace(st);
            st.advance_round_at(self.config.first_ttl, now);
            true
        } else {
            false
        }
    }
}

} // verus!
