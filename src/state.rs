use crate::probe::{sent_probe, unsent_probe, Probe};
use crate::types::{Round, Sequence, TimeToLive, Timestamp};
use vstd::prelude::*;

verus! {

/// The number of slots in the ring of probes.
///
/// This is also the largest time-to-live that can be traced.
pub const BUFFER_SIZE: u16 = 256;

/// The first sequence number handed out, and the one that follows the last.
pub const MIN_SEQUENCE: u16 = 33000;

/// The last sequence number before the numbering wraps.
pub const MAX_SEQUENCE: u16 = 65535;

/// How many sequence numbers there are between the wraps.
pub const SEQUENCE_SPAN: u16 = 32536;

/// The sequence number that follows `s`.
pub open spec fn next_sequence(s: u16) -> u16 {
    if s == MAX_SEQUENCE {
        MIN_SEQUENCE
    } else {
        (s + 1) as u16
    }
}

/// How many steps of `next_sequence` lead from `from` to `to`, for two
/// sequence numbers of the wrapping range.
pub open spec fn seq_offset(from: u16, to: u16) -> int {
    if to >= from {
        to - from
    } else {
        to + SEQUENCE_SPAN - from
    }
}

/// The slot of the ring that holds the probe of sequence `s`.
pub open spec fn slot(s: u16) -> int {
    s as int % BUFFER_SIZE as int
}

/// What the tracer state holds, with the ring as a sequence of probes.
pub struct TracerModel {
    pub buffer: Seq<Probe>,
    pub sequence: Sequence,
    pub round_sequence: Sequence,
    pub ttl: TimeToLive,
    pub round: Round,
    pub round_start: Timestamp,
    pub target_found: bool,
    pub max_received_ttl: Option<TimeToLive>,
    pub target_ttl: Option<TimeToLive>,
    pub target_seq: Option<Sequence>,
    pub received_time: Option<Timestamp>,
}

impl TracerModel {
    /// The ring has its size and both cursors lie in the wrapping range.
    pub open spec fn wf(self) -> bool {
        &&& self.buffer.len() == BUFFER_SIZE
        &&& self.sequence.0 >= MIN_SEQUENCE
        &&& self.round_sequence.0 >= MIN_SEQUENCE
    }

    /// The state at the start of a trace.
    pub open spec fn initial(first_ttl: TimeToLive, now: Timestamp) -> TracerModel {
        TracerModel {
            buffer: Seq::new(BUFFER_SIZE as nat, |i: int| unsent_probe()),
            sequence: Sequence(MIN_SEQUENCE),
            round_sequence: Sequence(MIN_SEQUENCE),
            ttl: first_ttl,
            round: Round(0),
            round_start: now,
            target_found: false,
            max_received_ttl: None,
            target_ttl: None,
            target_seq: None,
            received_time: None,
        }
    }

    pub open spec fn probe_at(self, s: Sequence) -> Probe {
        self.buffer[slot(s.0)]
    }

    /// The ring read cyclically from the slot where the current round began.
    pub open spec fn probes(self) -> Seq<Probe> {
        Seq::new(
            BUFFER_SIZE as nat,
            |i: int| self.buffer[(slot(self.round_sequence.0) + i) % BUFFER_SIZE as int],
        )
    }

    /// How many probes were sent since the current round began.
    pub open spec fn sent_in_round(self) -> int {
        seq_offset(self.round_sequence.0, self.sequence.0)
    }

    /// `s` lies between the round's first sequence (included) and the next
    /// one to be handed out (excluded), following the wrap.
    pub open spec fn in_round(self, s: Sequence) -> bool {
        &&& s.0 >= MIN_SEQUENCE
        &&& seq_offset(self.round_sequence.0, s.0) < self.sent_in_round()
    }

    /// The probe that the next send creates at time `now`.
    pub open spec fn next_probe(self, now: Timestamp) -> Probe {
        sent_probe(self.sequence, self.ttl, self.round, now)
    }

    /// The state after the next probe was created at time `now`.
    pub open spec fn after_next_probe(self, now: Timestamp) -> TracerModel {
        TracerModel {
            buffer: self.buffer.update(slot(self.sequence.0), self.next_probe(now)),
            sequence: Sequence(next_sequence(self.sequence.0)),
            ttl: TimeToLive((self.ttl.0 + 1) as u8),
            ..self
        }
    }

    /// Whether a response to sequence `s` becomes the new target reply: it
    /// reached the target and no reply of a lower sequence is known.
    pub open spec fn takes_target(self, s: Sequence, found: bool) -> bool {
        found && match (self.target_ttl, self.target_seq) {
            (None, _) => true,
            (Some(_), Some(ts)) => s.0 < ts.0,
            (Some(_), None) => false,
        }
    }

    /// The state after `probe`, a response to sequence `s`, was recorded.
    pub open spec fn after_update(
        self,
        s: Sequence,
        probe: Probe,
        received_time: Timestamp,
        found: bool,
    ) -> TracerModel {
        TracerModel {
            buffer: self.buffer.update(slot(s.0), probe),
            target_found: self.target_found || found,
            max_received_ttl: Some(
                match self.max_received_ttl {
                    Some(m) => if probe.ttl.0 > m.0 {
                        probe.ttl
                    } else {
                        m
                    },
                    None => probe.ttl,
                },
            ),
            target_ttl: if self.takes_target(s, found) {
                Some(probe.ttl)
            } else {
                self.target_ttl
            },
            target_seq: if self.takes_target(s, found) {
                Some(s)
            } else {
                self.target_seq
            },
            received_time: Some(received_time),
            ..self
        }
    }

    /// Every slot of the ring holds a probe never sent, or one whose sequence
    /// belongs to that slot.
    pub open spec fn slots_match(self) -> bool {
        forall|i: int|
            0 <= i < self.buffer.len() ==> #[trigger] self.buffer[i] == unsent_probe() || slot(
                self.buffer[i].sequence.0,
            ) == i
    }

    /// The round has not wrapped, and each probe sent in it still holds, in
    /// its slot, its sequence, a time-to-live counted up from `first_ttl` and
    /// the current round.
    pub open spec fn round_in_order(self, first_ttl: TimeToLive) -> bool {
        &&& self.round_sequence.0 <= self.sequence.0
        &&& self.ttl.0 == first_ttl.0 + self.sent_in_round()
        &&& forall|i: int|
            0 <= i < self.sent_in_round() ==> {
                let p = #[trigger] self.buffer[(self.round_sequence.0 + i) % BUFFER_SIZE as int];
                &&& p.sequence.0 == self.round_sequence.0 + i
                &&& p.ttl.0 == first_ttl.0 + i
                &&& p.round == self.round
            }
    }

    /// The state after a new round began at time `now`.
    pub open spec fn after_advance(self, first_ttl: TimeToLive, now: Timestamp) -> TracerModel {
        TracerModel {
            target_found: false,
            round_sequence: self.sequence,
            received_time: None,
            round_start: now,
            max_received_ttl: None,
            round: Round((self.round.0 + 1) as usize),
            ttl: first_ttl,
            target_seq: None,
            ..self
        }
    }
}

/// Mutable state of the tracing algorithm.
#[derive(Debug)]
pub struct TracerState {
    /// The state of all `Probe` requests and responses.
    buffer: Vec<Probe>,
    /// An increasing sequence number for every echo request.
    sequence: Sequence,
    /// The starting sequence number of the current round.
    round_sequence: Sequence,
    /// The time-to-live for the next echo request to be sent.
    ttl: TimeToLive,
    /// The current round.
    round: Round,
    /// When the current round started.
    round_start: Timestamp,
    /// Was an echo reply received from the target host in this round?
    target_found: bool,
    /// The greatest time-to-live of a probe answered in this round.
    max_received_ttl: Option<TimeToLive>,
    /// The observed time-to-live of the echo reply from the target host.
    target_ttl: Option<TimeToLive>,
    /// The sequence of the echo reply from the target host.
    target_seq: Option<Sequence>,
    /// When the latest response of this round was received.
    received_time: Option<Timestamp>,
}

impl View for TracerState {
    type V = TracerModel;

    closed spec fn view(&self) -> TracerModel {
        TracerModel {
            buffer: self.buffer@,
            sequence: self.sequence,
            round_sequence: self.round_sequence,
            ttl: self.ttl,
            round: self.round,
            round_start: self.round_start,
            target_found: self.target_found,
            max_received_ttl: self.max_received_ttl,
            target_ttl: self.target_ttl,
            target_seq: self.target_seq,
            received_time: self.received_time,
        }
    }
}

impl TracerState {
    pub open spec fn wf(&self) -> bool {
        self@.wf()
    }

    /// A fresh state whose first round starts at `now`.
    pub fn new_at(first_ttl: TimeToLive, now: Timestamp) -> (r: TracerState)
        ensures
            r.wf(),
            r@ == TracerModel::initial(first_ttl, now),
    {
        let mut buffer: Vec<Probe> = Vec::new();
        let mut i: usize = 0;
        while i < BUFFER_SIZE as usize
            invariant
                i <= BUFFER_SIZE,
                buffer@.len() == i,
                forall|j: int| 0 <= j < i ==> buffer@[j] == unsent_probe(),
            decreases BUFFER_SIZE - i,
        {
            buffer.push(Probe::default());
            i += 1;
        }
        let r = TracerState {
            buffer,
            sequence: Sequence(MIN_SEQUENCE),
            round_sequence: Sequence(MIN_SEQUENCE),
            ttl: first_ttl,
            round: Round(0),
            round_start: now,
            target_found: false,
            max_received_ttl: None,
            target_ttl: None,
            target_seq: None,
            received_time: None,
        };
        assert(r@.buffer =~= TracerModel::initial(first_ttl, now).buffer);
        r
    }

    /// A fresh state whose first round starts now.
    pub fn new(first_ttl: TimeToLive) -> (r: TracerState)
        ensures
            r.wf(),
            r@ == TracerModel::initial(first_ttl, r@.round_start),
    {
        TracerState::new_at(first_ttl, Timestamp::now())
    }

    /// One full turn of the ring, starting at the slot of the current round's
    /// first probe.
    pub fn probes(&self) -> (r: Vec<Probe>)
        requires
            self.wf(),
        ensures
            r@ == self@.probes(),
    {
        let start: usize = (self.round_sequence.0 % BUFFER_SIZE) as usize;
        let mut r: Vec<Probe> = Vec::new();
        let mut i: usize = 0;
        while i < BUFFER_SIZE as usize
            invariant
                self.wf(),
                start == slot(self@.round_sequence.0),
                i <= BUFFER_SIZE,
                r@.len() == i,
                forall|j: int| 0 <= j < i ==> r@[j] == self@.probes()[j],
            decreases BUFFER_SIZE - i,
        {
            r.push(self.buffer[(start + i) % BUFFER_SIZE as usize]);
            i += 1;
        }
        assert(r@ =~= self@.probes());
        r
    }

    /// The probe held for sequence `sequence`.
    pub fn probe_at(&self, sequence: Sequence) -> (r: Probe)
        requires
            self.wf(),
        ensures
            r == self@.probe_at(sequence),
    {
        self.buffer[(sequence.0 % BUFFER_SIZE) as usize]
    }

    pub fn sequence(&self) -> (r: Sequence)
        ensures
            r == self@.sequence,
    {
        self.sequence
    }

    pub fn round_sequence(&self) -> (r: Sequence)
        ensures
            r == self@.round_sequence,
    {
        self.round_sequence
    }

    pub fn ttl(&self) -> (r: TimeToLive)
        ensures
            r == self@.ttl,
    {
        self.ttl
    }

    pub fn round(&self) -> (r: Round)
        ensures
            r == self@.round,
    {
        self.round
    }

    pub fn round_start(&self) -> (r: Timestamp)
        ensures
            r == self@.round_start,
    {
        self.round_start
    }

    pub fn target_found(&self) -> (r: bool)
        ensures
            r == self@.target_found,
    {
        self.target_found
    }

    pub fn max_received_ttl(&self) -> (r: Option<TimeToLive>)
        ensures
            r == self@.max_received_ttl,
    {
        self.max_received_ttl
    }

    pub fn target_ttl(&self) -> (r: Option<TimeToLive>)
        ensures
            r == self@.target_ttl,
    {
        self.target_ttl
    }

    pub fn target_seq(&self) -> (r: Option<Sequence>)
        ensures
            r == self@.target_seq,
    {
        self.target_seq
    }

    pub fn received_time(&self) -> (r: Option<Timestamp>)
        ensures
            r == self@.received_time,
    {
        self.received_time
    }

    /// Is `sequence` in the current round?
    pub fn in_round(&self, sequence: Sequence) -> (r: bool)
        requires
            self.wf(),
        ensures
            r == self@.in_round(sequence),
    {
        if sequence.0 < MIN_SEQUENCE {
            return false;
        }
        let sent = offset(self.round_sequence.0, self.sequence.0);
        offset(self.round_sequence.0, sequence.0) < sent
    }

    /// Create the probe at the current sequence and time-to-live, sent at
    /// `now`, and store it in the ring.
    pub fn next_probe_at(&mut self, now: Timestamp) -> (r: Probe)
        requires
            old(self).wf(),
            old(self)@.ttl.0 < 255,
        ensures
            final(self).wf(),
            r == old(self)@.next_probe(now),
            final(self)@ == old(self)@.after_next_probe(now),
    {
        let probe = Probe::new(self.sequence, self.ttl, self.round, now);
        self.buffer.set((self.sequence.0 % BUFFER_SIZE) as usize, probe);
        self.ttl = TimeToLive(self.ttl.0 + 1);
        if self.sequence.0 == MAX_SEQUENCE {
            self.sequence = Sequence(MIN_SEQUENCE);
        } else {
            self.sequence = Sequence(self.sequence.0 + 1);
        }
        probe
    }

    /// Create the probe at the current sequence and time-to-live, sent now,
    /// and store it in the ring.
    pub fn next_probe(&mut self) -> (r: Probe)
        requires
            old(self).wf(),
            old(self)@.ttl.0 < 255,
        ensures
            final(self).wf(),
            r.sent is Some,
            r == old(self)@.next_probe(r.sent->0),
            final(self)@ == old(self)@.after_next_probe(r.sent->0),
    {
        self.next_probe_at(Timestamp::now())
    }

    /// Record `probe`, the response to `sequence` received at `received_time`;
    /// `found` says whether it came from the target host.
    ///
    /// Responses may arrive out of order, and the target may answer several
    /// probes: the target's time-to-live is the one of the reply with the
    /// lowest sequence.
    pub fn update_probe(
        &mut self,
        sequence: Sequence,
        probe: Probe,
        received_time: Timestamp,
        found: bool,
    )
        requires
            old(self).wf(),
        ensures
            final(self).wf(),
            final(self)@ == old(self)@.after_update(sequence, probe, received_time, found),
    {
        match (self.target_ttl, self.target_seq) {
            (None, _) if found => {
                self.target_ttl = Some(probe.ttl);
                self.target_seq = Some(sequence);
            },
            (Some(_), Some(target_seq)) if found && sequence.0 < target_seq.0 => {
                self.target_ttl = Some(probe.ttl);
                self.target_seq = Some(sequence);
            },
            _ => {},
        }
        self.buffer.set((sequence.0 % BUFFER_SIZE) as usize, probe);
        self.max_received_ttl = match self.max_received_ttl {
            Some(max_received_ttl) => if probe.ttl.0 > max_received_ttl.0 {
                Some(probe.ttl)
            } else {
                Some(max_received_ttl)
            },
            None => Some(probe.ttl),
        };
        self.received_time = Some(received_time);
        self.target_found = self.target_found || found;
    }

    /// Begin the next round at `now`, starting again from `first_ttl`.
    pub fn advance_round_at(&mut self, first_ttl: TimeToLive, now: Timestamp)
        requires
            old(self).wf(),
            old(self)@.round.0 < usize::MAX,
        ensures
            final(self).wf(),
            final(self)@ == old(self)@.after_advance(first_ttl, now),
    {
        self.target_found = false;
        self.round_sequence = self.sequence;
        self.received_time = None;
        self.round_start = now;
        self.max_received_ttl = None;
        self.round = Round(self.round.0 + 1);
        self.ttl = first_ttl;
        self.target_seq = None;
    }

    /// Begin the next round now, starting again from `first_ttl`.
    pub fn advance_round(&mut self, first_ttl: TimeToLive)
        requires
            old(self).wf(),
            old(self)@.round.0 < usize::MAX,
        ensures
            final(self).wf(),
            final(self)@ == old(self)@.after_advance(first_ttl, final(self)@.round_start),
    {
        self.advance_round_at(first_ttl, Timestamp::now());
    }
}

/// One call of `update_probe`, as its arguments.
pub struct ProbeUpdate {
    pub sequence: Sequence,
    pub probe: Probe,
    pub received_time: Timestamp,
    pub found: bool,
}

/// A stored probe stays at its slot until a write to that same slot: creating
/// a probe, recording a response or beginning a round elsewhere leaves it.
pub proof fn lemma_stored_probe_kept(
    v: TracerModel,
    p: Probe,
    now: Timestamp,
    s: Sequence,
    probe: Probe,
    received_time: Timestamp,
    found: bool,
    first_ttl: TimeToLive,
)
    requires
        v.wf(),
        v.probe_at(p.sequence) == p,
    ensures
        v.after_next_probe(now).probe_at(v.sequence) == v.next_probe(now),
        slot(v.sequence.0) != slot(p.sequence.0) ==> v.after_next_probe(now).probe_at(p.sequence) == p,
        v.after_update(s, probe, received_time, found).probe_at(s) == probe,
        slot(s.0) != slot(p.sequence.0) ==> v.after_update(s, probe, received_time, found).probe_at(p.sequence) == p,
        v.after_advance(first_ttl, now).probe_at(p.sequence) == p,
{
}

/// Two probes created one after the other have consecutive sequences, with
/// the wrap, and consecutive times-to-live.
pub proof fn lemma_consecutive_probes(v: TracerModel, t1: Timestamp, t2: Timestamp)
    requires
        v.wf(),
        v.ttl.0 < 254,
    ensures
        v.after_next_probe(t1).wf(),
        v.after_next_probe(t1).next_probe(t2).sequence.0 == next_sequence(v.next_probe(t1).sequence.0),
        v.after_next_probe(t1).next_probe(t2).ttl.0 == v.next_probe(t1).ttl.0 + 1,
{
}

/// The state in which a round begins at `now` with `first_ttl`: a fresh
/// state when `fresh`, else the state `prev` once its round ended.
pub open spec fn start_of_round(
    prev: TracerModel,
    first_ttl: TimeToLive,
    now: Timestamp,
    fresh: bool,
) -> TracerModel {
    if fresh {
        TracerModel::initial(first_ttl, now)
    } else {
        prev.after_advance(first_ttl, now)
    }
}

/// One operation on the tracer state, as its arguments.
pub enum TracerOp {
    NextProbe(Timestamp),
    Update(ProbeUpdate),
    Advance(TimeToLive, Timestamp),
}

impl TracerModel {
    /// The state after `op`.
    pub open spec fn apply(self, op: TracerOp) -> TracerModel {
        match op {
            TracerOp::NextProbe(now) => self.after_next_probe(now),
            TracerOp::Update(u) => self.after_update(u.sequence, u.probe, u.received_time, u.found),
            TracerOp::Advance(first_ttl, now) => self.after_advance(first_ttl, now),
        }
    }

    /// Whether `op`, applied to this state, writes slot `k` of the ring.
    pub open spec fn writes_slot(self, op: TracerOp, k: int) -> bool {
        match op {
            TracerOp::NextProbe(_) => slot(self.sequence.0) == k,
            TracerOp::Update(u) => slot(u.sequence.0) == k,
            TracerOp::Advance(_, _) => false,
        }
    }
}

/// The state after the operations `ops` were applied, in order, to `v`.
pub open spec fn apply_ops(v: TracerModel, ops: Seq<TracerOp>) -> TracerModel
    decreases ops.len(),
{
    if ops.len() == 0 {
        v
    } else {
        apply_ops(v, ops.drop_last()).apply(ops.last())
    }
}

/// A probe stored in the ring is read back for its sequence after any
/// operations, as long as none of them wrote its slot.
pub proof fn lemma_stored_probe_survives(v: TracerModel, p: Probe, ops: Seq<TracerOp>)
    requires
        v.wf(),
        v.probe_at(p.sequence) == p,
        forall|i: int|
            0 <= i < ops.len() ==> !apply_ops(v, ops.take(i)).writes_slot(
                #[trigger] ops[i],
                slot(p.sequence.0),
            ),
    ensures
        apply_ops(v, ops).wf(),
        apply_ops(v, ops).probe_at(p.sequence) == p,
    decreases ops.len(),
{
    if ops.len() > 0 {
        let n = ops.len() - 1;
        let pre = ops.drop_last();
        assert forall|i: int| 0 <= i < pre.len() implies !apply_ops(v, pre.take(i)).writes_slot(
            #[trigger] pre[i],
            slot(p.sequence.0),
        ) by {
            assert(pre.take(i) =~= ops.take(i));
            assert(pre[i] == ops[i]);
        }
        lemma_stored_probe_survives(v, p, pre);
        assert(ops.take(n) =~= pre);
        assert(!apply_ops(v, pre).writes_slot(ops[n], slot(p.sequence.0)));
    }
}

/// `op` records a response that reached the target.
pub open spec fn found_update(op: TracerOp) -> bool {
    op is Update && op->Update_0.found
}

/// `ops[i]` records a response that reached the target, no such response in
/// `ops` has a lower sequence, and none before it has the same one.
pub open spec fn is_first_lowest_found(ops: Seq<TracerOp>, i: int) -> bool {
    &&& 0 <= i < ops.len()
    &&& found_update(ops[i])
    &&& forall|j: int|
        0 <= j < ops.len() && #[trigger] found_update(ops[j]) ==> ops[i]->Update_0.sequence.0
            <= ops[j]->Update_0.sequence.0
    &&& forall|j: int|
        0 <= j < i && #[trigger] found_update(ops[j]) ==> ops[i]->Update_0.sequence.0
            < ops[j]->Update_0.sequence.0
}

/// No operation of `ops` begins a new round.
pub open spec fn within_round(ops: Seq<TracerOp>) -> bool {
    forall|i: int| 0 <= i < ops.len() ==> !(#[trigger] ops[i] is Advance)
}

/// From a state with no target time-to-live known, after any probes and
/// responses of one round, in any order, the target's time-to-live and
/// sequence are those of the first response with the lowest sequence among the
/// ones that reached the target; with no such response no target is known.
pub proof fn lemma_target_is_lowest_sequence(v: TracerModel, ops: Seq<TracerOp>)
    requires
        v.target_ttl is None,
        within_round(ops),
    ensures
        (forall|i: int| 0 <= i < ops.len() ==> !(#[trigger] found_update(ops[i])))
            ==> apply_ops(v, ops).target_ttl is None,
        (exists|i: int| 0 <= i < ops.len() && #[trigger] found_update(ops[i])) ==> exists|i: int|
            is_first_lowest_found(ops, i)
                && apply_ops(v, ops).target_ttl == Some(#[trigger] ops[i]->Update_0.probe.ttl)
                && apply_ops(v, ops).target_seq == Some(ops[i]->Update_0.sequence),
    decreases ops.len(),
{
    if ops.len() > 0 {
        let pre = ops.drop_last();
        let n = ops.len() - 1;
        let op = ops.last();
        assert(within_round(pre)) by {
            assert forall|i: int| 0 <= i < pre.len() implies !(#[trigger] pre[i] is Advance) by {
                assert(pre[i] == ops[i]);
            }
        }
        assert(!(ops[n] is Advance));
        lemma_target_is_lowest_sequence(v, pre);
        let w = apply_ops(v, pre);
        if exists|i: int| 0 <= i < pre.len() && #[trigger] found_update(pre[i]) {
            let i = choose|i: int|
                is_first_lowest_found(pre, i) && w.target_ttl == Some(#[trigger] pre[i]->Update_0.probe.ttl)
                    && w.target_seq == Some(pre[i]->Update_0.sequence);
            assert(pre[i] == ops[i]);
            if found_update(op) && op->Update_0.sequence.0 < pre[i]->Update_0.sequence.0 {
                assert(is_first_lowest_found(ops, n)) by {
                    assert forall|j: int| 0 <= j < ops.len() && #[trigger] found_update(ops[j]) implies op->Update_0.sequence.0
                        <= ops[j]->Update_0.sequence.0 by {
                        if j < n {
                            assert(pre[j] == ops[j]);
                        }
                    }
                    assert forall|j: int| 0 <= j < n && #[trigger] found_update(ops[j]) implies op->Update_0.sequence.0
                        < ops[j]->Update_0.sequence.0 by {
                        assert(pre[j] == ops[j]);
                    }
                }
                assert(apply_ops(v, ops).target_ttl == Some(ops[n]->Update_0.probe.ttl));
            } else {
                assert(is_first_lowest_found(ops, i)) by {
                    assert forall|j: int| 0 <= j < ops.len() && #[trigger] found_update(ops[j]) implies ops[i]->Update_0.sequence.0
                        <= ops[j]->Update_0.sequence.0 by {
                        if j < n {
                            assert(pre[j] == ops[j]);
                        }
                    }
                    assert forall|j: int| 0 <= j < i && #[trigger] found_update(ops[j]) implies ops[i]->Update_0.sequence.0
                        < ops[j]->Update_0.sequence.0 by {
                        assert(pre[j] == ops[j]);
                    }
                }
                assert(apply_ops(v, ops).target_ttl == Some(ops[i]->Update_0.probe.ttl));
            }
        } else {
            assert forall|j: int| 0 <= j < pre.len() implies !(#[trigger] found_update(ops[j])) by {
                assert(pre[j] == ops[j]);
                if found_update(ops[j]) {
                    assert(found_update(pre[j]));
                }
            }
            if found_update(op) {
                assert(is_first_lowest_found(ops, n));
                assert(apply_ops(v, ops).target_ttl == Some(ops[n]->Update_0.probe.ttl));
            }
        }
    }
}

/// From the start of a round, fresh or after `advance_round`, and through any
/// probes and responses of that round, the greatest answered time-to-live is
/// the greatest time-to-live among the probes recorded, and none while none was.
pub proof fn lemma_max_received_ttl(
    prev: TracerModel,
    first_ttl: TimeToLive,
    now: Timestamp,
    fresh: bool,
    ops: Seq<TracerOp>,
)
    requires
        within_round(ops),
    ensures
        ({
            let m = apply_ops(start_of_round(prev, first_ttl, now, fresh), ops).max_received_ttl;
            &&& (forall|i: int| 0 <= i < ops.len() ==> !(#[trigger] ops[i] is Update)) ==> m is None
            &&& (exists|i: int| 0 <= i < ops.len() && #[trigger] ops[i] is Update) ==> {
                &&& m is Some
                &&& exists|i: int| 0 <= i < ops.len() && ops[i] is Update && m == Some(#[trigger] ops[i]->Update_0.probe.ttl)
                &&& forall|i: int| 0 <= i < ops.len() && ops[i] is Update ==> (#[trigger] ops[i]->Update_0.probe.ttl).0 <= m.unwrap().0
            }
        }),
{
    lemma_max_received_from(start_of_round(prev, first_ttl, now, fresh), ops);
}

proof fn lemma_max_received_from(start: TracerModel, ops: Seq<TracerOp>)
    requires
        start.max_received_ttl is None,
        within_round(ops),
    ensures
        ({
            let m = apply_ops(start, ops).max_received_ttl;
            &&& (forall|i: int| 0 <= i < ops.len() ==> !(#[trigger] ops[i] is Update)) ==> m is None
            &&& (exists|i: int| 0 <= i < ops.len() && #[trigger] ops[i] is Update) ==> {
                &&& m is Some
                &&& exists|i: int| 0 <= i < ops.len() && ops[i] is Update && m == Some(#[trigger] ops[i]->Update_0.probe.ttl)
                &&& forall|i: int| 0 <= i < ops.len() && ops[i] is Update ==> (#[trigger] ops[i]->Update_0.probe.ttl).0 <= m.unwrap().0
            }
        }),
    decreases ops.len(),
{
    if ops.len() > 0 {
        let pre = ops.drop_last();
        let n = ops.len() - 1;
        assert(within_round(pre)) by {
            assert forall|i: int| 0 <= i < pre.len() implies !(#[trigger] pre[i] is Advance) by {
                assert(pre[i] == ops[i]);
            }
        }
        assert(!(ops[n] is Advance));
        lemma_max_received_from(start, pre);
        let m = apply_ops(start, ops).max_received_ttl;
        let pm = apply_ops(start, pre).max_received_ttl;
        if exists|i: int| 0 <= i < pre.len() && #[trigger] pre[i] is Update {
            let k = choose|i: int| 0 <= i < pre.len() && pre[i] is Update && pm == Some(#[trigger] pre[i]->Update_0.probe.ttl);
            assert(pre[k] == ops[k]);
            assert forall|i: int| 0 <= i < ops.len() && ops[i] is Update implies (#[trigger] ops[i]->Update_0.probe.ttl).0 <= m.unwrap().0 by {
                if i < n {
                    assert(pre[i] == ops[i]);
                    assert(pre[i] is Update);
                }
            }
            if ops[n] is Update && ops[n]->Update_0.probe.ttl.0 > pm.unwrap().0 {
                assert(m == Some(ops[n]->Update_0.probe.ttl));
            } else {
                assert(m == Some(ops[k]->Update_0.probe.ttl));
            }
        } else {
            assert forall|i: int| 0 <= i < n implies !(#[trigger] ops[i] is Update) by {
                assert(pre[i] == ops[i]);
                if ops[i] is Update {
                    assert(pre[i] is Update);
                }
            }
            if ops[n] is Update {
                assert(m == Some(ops[n]->Update_0.probe.ttl));
            }
        }
    }
}

/// Beginning a round twice in a row leaves the round starting at the next
/// sequence, the per-round fields cleared, the round counter two further on
/// and the target's time-to-live as it was.
pub proof fn lemma_advance_twice(
    v: TracerModel,
    ttl1: TimeToLive,
    t1: Timestamp,
    ttl2: TimeToLive,
    t2: Timestamp,
)
    requires
        v.wf(),
        v.round.0 + 2 <= usize::MAX,
    ensures
        ({
            let w = v.after_advance(ttl1, t1).after_advance(ttl2, t2);
            &&& w.wf()
            &&& w.round_sequence == w.sequence
            &&& w.sequence == v.sequence
            &&& w.round.0 == v.round.0 + 2
            &&& !w.target_found
            &&& w.max_received_ttl is None
            &&& w.received_time is None
            &&& w.target_seq is None
            &&& w.target_ttl == v.target_ttl
            &&& w.ttl == ttl2
            &&& w.sent_in_round() == 0
        }),
{
}

/// The distance from `from` to `to` in the wrapping sequence range.
fn offset(from: u16, to: u16) -> (r: u16)
    requires
        from >= MIN_SEQUENCE,
        to >= MIN_SEQUENCE,
    ensures
        r == seq_offset(from, to),
{
    if to >= from {
        to - from
    } else {
        SEQUENCE_SPAN - (from - to)
    }
}

} // verus!
