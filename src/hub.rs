//! The bookkeeping of a bus hub: one physical channel shared by many
//! subscribers.
//!
//! Every frame read from the channel is delivered to every subscriber live
//! at that moment, in the order read; frames that subscribers send wait in
//! one outbound queue until the pump writes them. The hub keeps a single
//! log of inbound frames and, for each subscriber, the position of the next
//! frame it has not taken.
use vstd::prelude::*;

use crate::frame::CANFrame;

verus! {

/// What a hub holds: the frames each subscriber has yet to take (`None`
/// for one that left), indexed by subscriber, and the frames waiting to be
/// written.
pub ghost struct HubModel {
    pub inboxes: Seq<Option<Seq<CANFrame>>>,
    pub outbound: Seq<CANFrame>,
}

/// A new subscriber joins with nothing to take.
pub open spec fn subscribe_spec(h: HubModel) -> HubModel {
    HubModel { inboxes: h.inboxes.push(Some(Seq::empty())), outbound: h.outbound }
}

/// Subscriber `s` leaves; its pending frames are dropped.
pub open spec fn unsubscribe_spec(h: HubModel, s: int) -> HubModel {
    if 0 <= s < h.inboxes.len() {
        HubModel { inboxes: h.inboxes.update(s, None), outbound: h.outbound }
    } else {
        h
    }
}

/// A frame read from the channel is appended to every live inbox.
pub open spec fn publish_spec(h: HubModel, f: CANFrame) -> HubModel {
    HubModel {
        inboxes: Seq::new(
            h.inboxes.len(),
            |s: int|
                match h.inboxes[s] {
                    Some(q) => Some(q.push(f)),
                    None => None,
                },
        ),
        outbound: h.outbound,
    }
}

/// Subscriber `s` takes the oldest frame of its inbox, if it has one.
pub open spec fn receive_spec(h: HubModel, s: int) -> (HubModel, Option<CANFrame>) {
    if 0 <= s < h.inboxes.len() && h.inboxes[s] is Some && h.inboxes[s]->Some_0.len() > 0 {
        let q = h.inboxes[s]->Some_0;
        (HubModel { inboxes: h.inboxes.update(s, Some(q.drop_first())), outbound: h.outbound }, Some(q[0]))
    } else {
        (h, None)
    }
}

/// A frame sent by a subscriber joins the end of the outbound queue.
pub open spec fn send_spec(h: HubModel, f: CANFrame) -> HubModel {
    HubModel { inboxes: h.inboxes, outbound: h.outbound.push(f) }
}

/// The longest inbox among live subscribers, 0 if there is none.
pub open spec fn max_pending(inboxes: Seq<Option<Seq<CANFrame>>>) -> nat
    decreases inboxes.len(),
{
    if inboxes.len() == 0 {
        0
    } else {
        let rest = max_pending(inboxes.drop_last());
        match inboxes.last() {
            Some(q) => if q.len() > rest { q.len() } else { rest },
            None => rest,
        }
    }
}

/// The state of a bus hub.
pub struct BusState {
    log: Vec<CANFrame>,
    cursors: Vec<usize>,
    live: Vec<bool>,
    outbound: Vec<CANFrame>,
}

impl View for BusState {
    type V = HubModel;

    closed spec fn view(&self) -> HubModel {
        HubModel {
            inboxes: Seq::new(
                self.live@.len(),
                |s: int|
                    if self.live@[s] {
                        Some(self.log@.subrange(self.cursors@[s] as int, self.log@.len() as int))
                    } else {
                        None
                    },
            ),
            outbound: self.outbound@,
        }
    }
}

impl BusState {
    /// Every subscriber has a position, and none lies beyond the log.
    pub closed spec fn wf(&self) -> bool {
        &&& self.cursors@.len() == self.live@.len()
        &&& forall|s: int| 0 <= s < self.cursors@.len() ==> self.cursors@[s] <= self.log@.len()
    }

    /// How many inbound frames the hub keeps.
    pub closed spec fn retained(&self) -> nat {
        self.log@.len()
    }

    /// A hub with no subscriber and nothing to write.
    pub fn new() -> (r: BusState)
        ensures
            r@ == (HubModel { inboxes: Seq::empty(), outbound: Seq::empty() }),
            r.retained() == 0,
            r.wf(),
    {
        let r = BusState { log: Vec::new(), cursors: Vec::new(), live: Vec::new(), outbound: Vec::new() };
        assert(r@.inboxes =~= Seq::empty());
        r
    }

    /// Adds a subscriber and returns its number; it will see the frames
    /// published from now on.
    pub fn subscribe(&mut self) -> (id: usize)
        requires
            old(self).wf(),
        ensures
            final(self).wf(),
            final(self)@ == subscribe_spec(old(self)@),
            id == old(self)@.inboxes.len(),
            final(self).retained() == old(self).retained(),
    {
        let id = self.live.len();
        let n = self.log.len();
        self.cursors.push(n);
        self.live.push(true);
        assert(self@.inboxes =~= subscribe_spec(old(self)@).inboxes) by {
            assert(self.log@.subrange(n as int, n as int) =~= Seq::<CANFrame>::empty());
        }
        id
    }

    /// Removes subscriber `id`; its pending frames are dropped. Nothing
    /// happens for a number that was never handed out.
    pub fn unsubscribe(&mut self, id: usize)
        requires
            old(self).wf(),
        ensures
            final(self).wf(),
            final(self)@ == unsubscribe_spec(old(self)@, id as int),
            final(self).retained() == old(self).retained(),
    {
        if id < self.live.len() {
            self.live.set(id, false);
            assert(self@.inboxes =~= unsubscribe_spec(old(self)@, id as int).inboxes);
        }
    }

    /// Delivers a frame read from the channel to every live subscriber.
    pub fn publish(&mut self, f: CANFrame)
        requires
            old(self).wf(),
        ensures
            final(self).wf(),
            final(self)@ == publish_spec(old(self)@, f),
            final(self).retained() == old(self).retained() + 1,
    {
        self.log.push(f);
        assert forall|s: int| 0 <= s < self@.inboxes.len() implies #[trigger] self@.inboxes[s]
            == publish_spec(old(self)@, f).inboxes[s] by {
            if self.live@[s] {
                assert(self.log@.subrange(self.cursors@[s] as int, self.log@.len() as int)
                    =~= old(self).log@.subrange(
                    self.cursors@[s] as int,
                    old(self).log@.len() as int,
                ).push(f));
            }
        }
        assert(self@.inboxes =~= publish_spec(old(self)@, f).inboxes);
    }

    /// Takes the oldest frame that subscriber `id` has not taken yet.
    pub fn receive(&mut self, id: usize) -> (r: Option<CANFrame>)
        requires
            old(self).wf(),
        ensures
            final(self).wf(),
            (final(self)@, r) == receive_spec(old(self)@, id as int),
            final(self).retained() == old(self).retained(),
    {
        if id < self.live.len() && self.live[id] && self.cursors[id] < self.log.len() {
            let c = self.cursors[id];
            let f = self.log[c];
            self.cursors.set(id, c + 1);
            proof {
                let q = old(self)@.inboxes[id as int]->Some_0;
                assert(self.log@.subrange(c + 1, self.log@.len() as int) =~= q.drop_first());
                assert(self@.inboxes =~= old(self)@.inboxes.update(id as int, Some(q.drop_first())));
            }
            Some(f)
        } else {
            None
        }
    }

    /// Queues a frame for the pump to write.
    pub fn send(&mut self, f: CANFrame)
        requires
            old(self).wf(),
        ensures
            final(self).wf(),
            final(self)@ == send_spec(old(self)@, f),
            final(self).retained() == old(self).retained(),
    {
        self.outbound.push(f);
    }

    /// Takes the oldest frame waiting to be written.
    pub fn next_outbound(&mut self) -> (r: Option<CANFrame>)
        requires
            old(self).wf(),
        ensures
            final(self).wf(),
            old(self)@.outbound.len() > 0 ==> r == Some(old(self)@.outbound[0]) && final(self)@
                == (HubModel { inboxes: old(self)@.inboxes, outbound: old(self)@.outbound.drop_first() }),
            old(self)@.outbound.len() == 0 ==> r is None && final(self)@ == old(self)@,
            final(self).retained() == old(self).retained(),
    {
        if self.outbound.len() > 0 {
            let f = self.outbound.remove(0);
            assert(self.outbound@ =~= old(self)@.outbound.drop_first());
            Some(f)
        } else {
            None
        }
    }

    /// Forgets the inbound frames that every live subscriber has taken;
    /// what each subscriber has yet to take does not change.
    pub fn compact(&mut self)
        requires
            old(self).wf(),
        ensures
            final(self).wf(),
            final(self)@ == old(self)@,
            final(self).retained() == max_pending(old(self)@.inboxes),
    {
        let n = self.log.len();
        let mut k: usize = n;
        let mut i: usize = 0;
        while i < self.live.len()
            invariant
                i <= self.live@.len(),
                self.cursors@.len() == self.live@.len(),
                self.outbound@ == old(self).outbound@,
                forall|s: int| 0 <= s < self.cursors@.len() ==> self.cursors@[s] <= n,
                n == self.log@.len(),
                k <= n,
                n - k == max_pending(self@.inboxes.subrange(0, i as int)),
                forall|s: int| 0 <= s < i && self.live@[s] ==> k <= self.cursors@[s],
            decreases self.live@.len() - i,
        {
            proof {
                let sub = self@.inboxes.subrange(0, i as int + 1);
                assert(sub.drop_last() =~= self@.inboxes.subrange(0, i as int));
            }
            if self.live[i] && self.cursors[i] < k {
                k = self.cursors[i];
            }
            i = i + 1;
        }
        assert(self@.inboxes.subrange(0, self.live@.len() as int) =~= self@.inboxes);
        let old_log = Ghost(self.log@);
        let tail = self.log.split_off(k);
        self.log = tail;
        let mut j: usize = 0;
        while j < self.cursors.len()
            invariant
                j <= self.cursors@.len(),
                self.cursors@.len() == self.live@.len(),
                self.live@ == old(self).live@,
                self.outbound@ == old(self).outbound@,
                self.log@ == old_log@.subrange(k as int, n as int),
                old_log@ == old(self).log@,
                n == old_log@.len(),
                k <= n,
                forall|s: int| 0 <= s < self.cursors@.len() ==> old(self).cursors@[s] <= n,
                forall|s: int| 0 <= s < self.live@.len() && self.live@[s] ==> k <= old(self).cursors@[s],
                old(self).cursors@.len() == self.cursors@.len(),
                forall|s: int| 0 <= s < j ==> {
                    if self.live@[s] {
                        self.cursors@[s] == old(self).cursors@[s] - k
                    } else {
                        self.cursors@[s] == 0
                    }
                },
                forall|s: int| j <= s < self.cursors@.len() ==> self.cursors@[s] == old(self).cursors@[s],
            decreases self.cursors@.len() - j,
        {
            if self.live[j] {
                let c = self.cursors[j];
                self.cursors.set(j, c - k);
            } else {
                self.cursors.set(j, 0);
            }
            j = j + 1;
        }
        proof {
            assert forall|s: int| 0 <= s < self@.inboxes.len() implies #[trigger] self@.inboxes[s]
                == old(self)@.inboxes[s] by {
                if self.live@[s] {
                    assert(self.log@.subrange(self.cursors@[s] as int, self.log@.len() as int)
                        =~= old_log@.subrange(old(self).cursors@[s] as int, n as int));
                }
            }
            assert(self@.inboxes =~= old(self)@.inboxes);
            assert(self@.outbound == old(self)@.outbound);
        }
    }
}

/// A frame published reaches every subscriber live at that moment, after
/// the frames it already held; a subscriber that has left stays without
/// an inbox; one that joins afterwards does not see the frame.
pub proof fn lemma_broadcast(h: HubModel, f: CANFrame)
    ensures
        publish_spec(h, f).inboxes.len() == h.inboxes.len(),
        forall|s: int|
            0 <= s < h.inboxes.len() && h.inboxes[s] is Some ==> #[trigger] publish_spec(
                h,
                f,
            ).inboxes[s] == Some(h.inboxes[s]->Some_0.push(f)),
        forall|s: int|
            0 <= s < h.inboxes.len() && h.inboxes[s] is None ==> #[trigger] publish_spec(
                h,
                f,
            ).inboxes[s] is None,
        subscribe_spec(publish_spec(h, f)).inboxes.last() == Some(Seq::<CANFrame>::empty()),
{
}

/// A subscriber takes frames in the order they were published: with an
/// empty inbox, after `f` then `g` are published, it takes `f`, then `g`.
pub proof fn lemma_delivery_order(h: HubModel, s: int, f: CANFrame, g: CANFrame)
    requires
        0 <= s < h.inboxes.len(),
        h.inboxes[s] == Some(Seq::<CANFrame>::empty()),
    ensures
        receive_spec(publish_spec(publish_spec(h, f), g), s).1 == Some(f),
        receive_spec(receive_spec(publish_spec(publish_spec(h, f), g), s).0, s).1 == Some(g),
{
    let h2 = publish_spec(publish_spec(h, f), g);
    assert(h2.inboxes[s] == Some(seq![f, g])) by {
        assert(Seq::<CANFrame>::empty().push(f).push(g) =~= seq![f, g]);
    }
    let h3 = receive_spec(h2, s).0;
    assert(h3.inboxes[s] == Some(seq![g])) by {
        assert(seq![f, g].drop_first() =~= seq![g]);
    }
}

/// Subscriber `s` takes up to `n` frames in turn: the hub afterwards and the
/// frames taken, oldest first.
pub open spec fn take_n(h: HubModel, s: int, n: nat) -> (HubModel, Seq<CANFrame>)
    decreases n,
{
    if n == 0 {
        (h, Seq::empty())
    } else {
        let (h1, first) = receive_spec(h, s);
        let (h2, rest) = take_n(h1, s, (n - 1) as nat);
        match first {
            Some(f) => (h2, seq![f] + rest),
            None => (h2, rest),
        }
    }
}

/// A live subscriber that takes as many frames as its inbox holds gets
/// exactly that inbox, in order, and is left with an empty one.
pub proof fn lemma_take_all(h: HubModel, s: int)
    requires
        0 <= s < h.inboxes.len(),
        h.inboxes[s] is Some,
    ensures
        take_n(h, s, h.inboxes[s]->Some_0.len()).1 == h.inboxes[s]->Some_0,
        take_n(h, s, h.inboxes[s]->Some_0.len()).0.inboxes[s] == Some(Seq::<CANFrame>::empty()),
        take_n(h, s, h.inboxes[s]->Some_0.len()).0.inboxes.len() == h.inboxes.len(),
    decreases h.inboxes[s]->Some_0.len(),
{
    let q = h.inboxes[s]->Some_0;
    if q.len() == 0 {
        assert(q =~= Seq::<CANFrame>::empty());
    } else {
        let h1 = receive_spec(h, s).0;
        assert(h1.inboxes[s] == Some(q.drop_first()));
        lemma_take_all(h1, s);
        assert(seq![q[0]] + q.drop_first() =~= q);
    }
}

/// After a frame is published, every subscriber live at that moment reads,
/// in order, the frames it had not yet taken and then that frame.
pub proof fn lemma_every_live_subscriber_reads_frame(h: HubModel, f: CANFrame, s: int)
    requires
        0 <= s < h.inboxes.len(),
        h.inboxes[s] is Some,
    ensures
        take_n(publish_spec(h, f), s, h.inboxes[s]->Some_0.len() + 1).1 == h.inboxes[s]->Some_0.push(f),
{
    let h2 = publish_spec(h, f);
    assert(h2.inboxes[s] == Some(h.inboxes[s]->Some_0.push(f)));
    lemma_take_all(h2, s);
}

/// A subscriber's read takes nothing from any other subscriber and leaves
/// the outbound queue as it was.
pub proof fn lemma_receive_is_private(h: HubModel, s: int, t: int)
    requires
        0 <= t < h.inboxes.len(),
        t != s,
    ensures
        receive_spec(h, s).0.inboxes[t] == h.inboxes[t],
        receive_spec(h, s).0.inboxes.len() == h.inboxes.len(),
        receive_spec(h, s).0.outbound == h.outbound,
{
}

/// The hub after the frames `gs` are published, in order.
pub open spec fn publish_all(h: HubModel, gs: Seq<CANFrame>) -> HubModel
    decreases gs.len(),
{
    if gs.len() == 0 {
        h
    } else {
        publish_spec(publish_all(h, gs.drop_last()), gs.last())
    }
}

/// A subscriber that joins after frame `f` was published holds, whatever
/// is published afterwards, exactly the frames published after it joined:
/// `f` is never replayed to it.
pub proof fn lemma_no_replay(h: HubModel, f: CANFrame, gs: Seq<CANFrame>)
    ensures
        ({
            let joined = subscribe_spec(publish_spec(h, f));
            let s = h.inboxes.len() as int;
            &&& publish_all(joined, gs).inboxes.len() == h.inboxes.len() + 1
            &&& publish_all(joined, gs).inboxes[s] == Some(gs)
        }),
    decreases gs.len(),
{
    let joined = subscribe_spec(publish_spec(h, f));
    let s = h.inboxes.len() as int;
    if gs.len() == 0 {
        assert(joined.inboxes[s] == Some(Seq::<CANFrame>::empty()));
        assert(gs =~= Seq::<CANFrame>::empty());
    } else {
        lemma_no_replay(h, f, gs.drop_last());
        assert(gs.drop_last().push(gs.last()) =~= gs);
    }
}

/// Where the pump stands in its cycle: reading every frame the channel
/// has, writing every frame queued, resting, or stopped for good.
#[derive(Debug, Clone, Copy, PartialEq, Eq, Structural)]
pub enum PumpPhase {
    Draining,
    Flushing,
    Resting,
    Stopped,
}

/// What the pump's last action came to.
#[derive(Debug, Clone, Copy)]
pub enum PumpEvent {
    /// A frame was read from the channel.
    Received(CANFrame),
    /// The channel had no frame to give (it would block), or the read
    /// failed; either way draining is over for this cycle.
    ReadIdle,
    /// The last write is over, whether it succeeded or failed.
    WriteDone,
    /// The rest between cycles is over.
    Rested,
    /// The hub is shutting down.
    StopRequested,
}

/// What the pump does next.
#[derive(Debug, Clone, Copy)]
pub enum PumpAction {
    /// Read one frame from the channel without blocking.
    Read,
    /// Write this frame to the channel.
    Write(CANFrame),
    /// Rest briefly before the next cycle.
    Rest,
    /// Leave the loop; the channel is not touched again.
    Exit,
}

/// The next queued frame to write, or the rest when the queue is empty.
pub open spec fn flush_spec(h: HubModel) -> (HubModel, PumpPhase, PumpAction) {
    if h.outbound.len() > 0 {
        (
            HubModel { inboxes: h.inboxes, outbound: h.outbound.drop_first() },
            PumpPhase::Flushing,
            PumpAction::Write(h.outbound[0]),
        )
    } else {
        (h, PumpPhase::Resting, PumpAction::Rest)
    }
}

/// One decision of the pump: a frame read is published and the next read
/// follows; once no frame is left to read, or a write is over, the next
/// queued frame is written, or the pump rests when none is; after a rest a
/// new cycle starts with a read. A stop, or a stopped pump, exits.
pub open spec fn pump_spec(h: HubModel, phase: PumpPhase, event: PumpEvent) -> (
    HubModel,
    PumpPhase,
    PumpAction,
) {
    if phase == PumpPhase::Stopped || event is StopRequested {
        (h, PumpPhase::Stopped, PumpAction::Exit)
    } else {
        match event {
            PumpEvent::Received(f) => (publish_spec(h, f), PumpPhase::Draining, PumpAction::Read),
            PumpEvent::ReadIdle => flush_spec(h),
            PumpEvent::WriteDone => flush_spec(h),
            _ => (h, PumpPhase::Draining, PumpAction::Read),
        }
    }
}

impl BusState {
    /// Takes one decision of the pump, given its phase and what its last
    /// action came to, and returns its next phase and action. At the end
    /// of a rest the frames every subscriber has taken are forgotten.
    pub fn pump_step(&mut self, phase: PumpPhase, event: PumpEvent) -> (r: (PumpPhase, PumpAction))
        requires
            old(self).wf(),
        ensures
            final(self).wf(),
            (final(self)@, r.0, r.1) == pump_spec(old(self)@, phase, event),
    {
        if phase == PumpPhase::Stopped {
            return (PumpPhase::Stopped, PumpAction::Exit);
        }
        match event {
            PumpEvent::StopRequested => (PumpPhase::Stopped, PumpAction::Exit),
            PumpEvent::Received(f) => {
                self.publish(f);
                (PumpPhase::Draining, PumpAction::Read)
            },
            PumpEvent::ReadIdle | PumpEvent::WriteDone => match self.next_outbound() {
                Some(f) => (PumpPhase::Flushing, PumpAction::Write(f)),
                None => (PumpPhase::Resting, PumpAction::Rest),
            },
            PumpEvent::Rested => {
                self.compact();
                (PumpPhase::Draining, PumpAction::Read)
            },
        }
    }
}

/// Once a stop is asked for, or the pump has stopped, it exits, stays
/// stopped, and leaves the hub as it was: no read or write follows.
pub proof fn lemma_stop_is_final(h: HubModel, phase: PumpPhase, event: PumpEvent)
    requires
        phase == PumpPhase::Stopped || event is StopRequested,
    ensures
        pump_spec(h, phase, event).0 == h,
        pump_spec(h, phase, event).1 == PumpPhase::Stopped,
        pump_spec(h, phase, event).2 is Exit,
{
}

} // verus!
