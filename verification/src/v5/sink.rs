//! The outbound side of a connection: what is sent, what is in flight, and
//! what becomes of each acknowledgement.
use vstd::prelude::*;

use ntex_util::channel::pool::{Receiver, Sender};

use super::codec;
use super::error::{
    EncodeError, ProtocolError, PublishQos1Error, PublishQos2Error, SendPacketError,
};
use super::shared::{
    drop_tombstones, is_next_id, lemma_free_id, steps, Ack, AckType, MqttShared, SharedView,
};
use crate::channel::{channel, send};
use crate::types::QoS;

verus! {

/// What an acknowledgement that was taken does to those who wait for a send
/// slot: waiters leave the front of the queue until one of them has taken
/// the signal, and the rest keep their places. Those that leave are the one
/// that was told, if any, and before it those that were gone. Nobody is told
/// only if nobody is left.
pub open spec fn woke(before: SharedView, after: SharedView) -> bool {
    &&& before.signalled <= after.signalled <= before.signalled + 1
    &&& before.gone <= after.gone
    &&& (after.signalled - before.signalled) + (after.gone - before.gone) <= before.waiters.len()
    &&& after.waiters == before.waiters.skip(
        (after.signalled - before.signalled) + (after.gone - before.gone),
    )
    &&& after.signalled == before.signalled ==> after.waiters.len() == 0
}

/// Whether `pkt` is the acknowledgement that is due: the first slot of the
/// order queue that is no tombstone carries its id.
pub open spec fn due(s: SharedView, pkt: Ack) -> bool {
    s.head() == Some(pkt.spec_packet_id())
}

/// The kind of acknowledgement that the slot which is due awaits.
pub open spec fn awaited(s: SharedView) -> AckType {
    s.inflight[s.head()->0].1
}

/// The state after an acknowledgement was passed over: the tombstones at
/// the front of the order queue are gone, and nothing else has changed.
pub open spec fn passed_over(s: SharedView) -> SharedView {
    SharedView { order: drop_tombstones(s.order), ..s }
}

/// `after` is `before` once the acknowledgement `pkt`, which was due, has
/// been taken: its slot and the tombstones before it have left the order
/// queue, its entry is no longer in flight, the acknowledgement has been
/// sent on the sending half of the entry, and waiters have been woken.
pub open spec fn taken(before: SharedView, after: SharedView, pkt: Ack) -> bool {
    &&& woke(before, after)
    &&& after == (SharedView {
        order: drop_tombstones(before.order).skip(1),
        inflight: before.inflight.remove(before.head()->0),
        delivered: before.delivered.push((before.inflight[before.head()->0].0, pkt)),
        waiters: after.waiters,
        signalled: after.signalled,
        gone: after.gone,
        ..before
    })
}

/// The tombstones at the front of an order queue are a prefix of it, and
/// what is left starts with an id.
pub proof fn lemma_drop_tombstones(order: Seq<u16>)
    ensures
        drop_tombstones(order).len() <= order.len(),
        drop_tombstones(order) == order.skip(order.len() - drop_tombstones(order).len()),
        forall|i: int| 0 <= i < order.len() - drop_tombstones(order).len() ==> order[i] == 0,
        drop_tombstones(order).len() > 0 ==> drop_tombstones(order)[0] != 0,
        drop_tombstones(drop_tombstones(order)) == drop_tombstones(order),
    decreases order.len(),
{
    if order.len() > 0 && order[0] == 0 {
        let rest = order.skip(1);
        lemma_drop_tombstones(rest);
        let d = drop_tombstones(rest);
        assert(rest.skip(rest.len() - d.len()) =~= order.skip(order.len() - d.len()));
        assert forall|i: int| 0 <= i < order.len() - d.len() implies order[i] == 0 by {
            if i > 0 {
                assert(order[i] == rest[i - 1]);
            }
        }
    } else {
        assert(order.skip(0) =~= order);
    }
}

/// The order queue in which the slot of `id` has become a tombstone.
pub open spec fn tombstoned(order: Seq<u16>, id: u16) -> Seq<u16> {
    Seq::new(
        order.len(),
        |i: int|
            if order[i] == id {
                0u16
            } else {
                order[i]
            },
    )
}

/// `after` is `before` with one more waiter at the back of the queue.
pub open spec fn parked(before: SharedView, after: SharedView) -> bool {
    &&& after.waiters.len() == before.waiters.len() + 1
    &&& after == (SharedView { waiters: before.waiters.push(after.waiters.last()), ..before })
}

/// Whether `wanted` names an id: the caller has set one.
pub open spec fn names_id(wanted: Option<u16>) -> bool {
    wanted matches Some(id) && id != 0
}

/// `after` is `before` with one more packet in flight: under the id `idx`,
/// awaiting `tp`, and last in the order queue. Where the caller named an id,
/// `idx` is that id; else it is the next free id, and the counter has moved
/// to it.
pub open spec fn started(
    before: SharedView,
    after: SharedView,
    wanted: Option<u16>,
    tp: AckType,
    idx: u16,
) -> bool {
    &&& idx != 0
    &&& !before.inflight.contains_key(idx)
    &&& if names_id(wanted) {
        wanted == Some(idx) && after.last_id == before.last_id
    } else {
        is_next_id(before.last_id, before.used(), idx) && after.last_id == idx
    }
    &&& after.inflight.contains_key(idx)
    &&& after.inflight[idx].1 == tp
    &&& after == (SharedView {
        last_id: after.last_id,
        inflight: before.inflight.insert(idx, after.inflight[idx]),
        order: before.order.push(idx),
        ..before
    })
}

/// No packet can be put in flight, because the id `idx` that the caller
/// named is in use.
pub open spec fn refused(before: SharedView, wanted: Option<u16>, idx: u16) -> bool {
    &&& names_id(wanted)
    &&& wanted == Some(idx)
    &&& before.inflight.contains_key(idx)
}

/// Taking the first slot off the order queue, with its entry if it is no
/// tombstone, keeps the queues in order.
pub proof fn lemma_pop_keeps_wf(before: SharedView, after: SharedView)
    requires
        before.wf(),
        before.order.len() > 0,
        after.order == before.order.skip(1),
        after.inflight == before.inflight.remove(before.order[0]),
        after.cap == before.cap,
    ensures
        after.wf(),
{
    assert forall|id: u16| after.inflight.contains_key(id) implies after.order.contains(id) by {
        assert(before.order.contains(id));
        let i = choose|i: int| 0 <= i < before.order.len() && before.order[i] == id;
        assert(after.order[i - 1] == id);
    }
    assert forall|i: int| 0 <= i < after.order.len() && after.order[i] != 0 implies after.inflight.contains_key(
        #[trigger] after.order[i],
    ) by {
        assert(after.order[i] == before.order[i + 1]);
    }
    assert forall|i: int, j: int|
        0 <= i < j < after.order.len() && after.order[i] != 0 implies after.order[i]
        != after.order[j] by {
        assert(after.order[i] == before.order[i + 1]);
        assert(after.order[j] == before.order[j + 1]);
    }
}

/// What `MqttSink::ready` answers.
pub enum SinkReady {
    /// The answer is known: whether the connection is alive.
    Now(bool),
    /// No slot is free: the answer comes on this channel, as a signal when
    /// a slot is free, or as the end of the channel when the connection is
    /// closed first.
    Wait(Receiver<()>),
}

/// Publish packet builder.
pub struct PublishBuilder {
    packet: codec::Publish,
}

impl View for PublishBuilder {
    type V = codec::Publish;

    closed spec fn view(&self) -> codec::Publish {
        self.packet
    }
}

/// Subscribe packet builder.
pub struct SubscribeBuilder {
    id: u16,
    packet: codec::Subscribe,
}

impl SubscribeBuilder {
    /// The packet id that the caller has set, or 0.
    pub closed spec fn id(&self) -> u16 {
        self.id
    }

    /// The packet as built so far.
    pub closed spec fn packet(&self) -> codec::Subscribe {
        self.packet
    }
}

/// Unsubscribe packet builder.
pub struct UnsubscribeBuilder {
    id: u16,
    packet: codec::Unsubscribe,
}

impl UnsubscribeBuilder {
    /// The packet id that the caller has set, or 0.
    pub closed spec fn id(&self) -> u16 {
        self.id
    }

    /// The packet as built so far.
    pub closed spec fn packet(&self) -> codec::Unsubscribe {
        self.packet
    }
}

/// The outbound side of one connection.
pub struct MqttSink(MqttShared);

impl View for MqttSink {
    type V = SharedView;

    closed spec fn view(&self) -> SharedView {
        self.0@
    }
}

impl MqttSink {
    /// The sink of a connection that was just opened, with the peer's
    /// Receive Maximum.
    pub fn new(cap: u16) -> (sink: Self)
        ensures
            sink@.wf(),
            sink@.open,
            sink@.cap == cap,
            sink@.last_id == 0,
            sink@.inflight == Map::<u16, (Sender<Ack>, AckType)>::empty(),
            sink@.order == Seq::<u16>::empty(),
            sink@.waiters == Seq::<Sender<()>>::empty(),
            sink@.signalled == 0,
            sink@.gone == 0,
            sink@.delivered == Seq::<(Sender<Ack>, Ack)>::empty(),
    {
        MqttSink(MqttShared::new(cap))
    }

    /// Check connection status.
    pub fn is_open(&self) -> (open: bool)
        ensures
            open == self@.open,
    {
        self.0.open
    }

    /// The receive credit that is left: how many further packets may be in
    /// flight.
    pub fn credit(&self) -> (n: usize)
        ensures
            n == self@.credit(),
    {
        let cap: usize = self.0.cap as usize;
        let used: usize = self.0.inflight.len();
        if used <= cap {
            cap - used
        } else {
            0
        }
    }

    /// Takes an acknowledgement that the peer sent.
    ///
    /// Tombstones at the front of the order queue are dropped. If the slot
    /// that is then due does not carry the id of `pkt`, or no slot is left,
    /// the acknowledgement is passed over. If it carries the id but awaits
    /// another kind of acknowledgement, the peer has broken the protocol.
    /// Else the slot and its entry leave the queues, the acknowledgement goes
    /// to the one who awaits it, and the first waiter that still listens is
    /// told that a send slot is free.
    pub fn pkt_ack(&mut self, pkt: Ack) -> (r: Result<(), ProtocolError>)
        requires
            old(self)@.wf(),
        ensures
            final(self)@.wf(),
            !due(old(self)@, pkt) ==> r is Ok && final(self)@ == passed_over(old(self)@),
            due(old(self)@, pkt) && !pkt.spec_is_match(awaited(old(self)@)) ==> {
                &&& r matches Err(ProtocolError::Unexpected(tp, name))
                &&& tp == pkt.spec_packet_type()
                &&& name@ == awaited(old(self)@).spec_name()
                &&& final(self)@ == passed_over(old(self)@)
            },
            due(old(self)@, pkt) && pkt.spec_is_match(awaited(old(self)@)) ==> {
                &&& r is Ok
                &&& taken(old(self)@, final(self)@, pkt)
                &&& !final(self)@.inflight.contains_key(pkt.spec_packet_id())
                &&& old(self)@.waiters.len() > 0 <==> final(self)@.waiters.len() < old(
                    self,
                )@.waiters.len()
            },
    {
        proof {
            lemma_drop_tombstones(self@.order);
        }
        // errored publishes leave no acknowledgement behind
        while self.0.inflight_order.len() > 0 && self.0.inflight_order[0] == 0
            invariant
                self@.wf(),
                self@.open == old(self)@.open,
                self@.cap == old(self)@.cap,
                self@.last_id == old(self)@.last_id,
                self@.inflight == old(self)@.inflight,
                self@.waiters == old(self)@.waiters,
                self@.signalled == old(self)@.signalled,
                self@.gone == old(self)@.gone,
                self@.delivered == old(self)@.delivered,
                drop_tombstones(self@.order) == drop_tombstones(old(self)@.order),
            decreases self@.order.len(),
        {
            let ghost before = self@;
            self.0.inflight_order.pop_front();
            proof {
                assert(self@.order =~= before.order.skip(1));
                assert(self@.inflight =~= before.inflight.remove(0u16));
                lemma_pop_keeps_wf(before, self@);
            }
        }
        // check ack order
        if self.0.inflight_order.len() == 0 {
            return Ok(());
        }
        let idx: u16 = self.0.inflight_order[0];
        if idx != pkt.packet_id() {
            return Ok(());
        }
        // get publish ack channel: the slot is no tombstone, so it has its entry
        assert(self@.order[0] == idx && self@.inflight.contains_key(idx));
        let tp: AckType = match self.0.inflight.get(&idx) {
            Some(entry) => entry.1,
            None => {
                return Ok(());
            },
        };
        if !pkt.is_match(tp) {
            return Err(ProtocolError::Unexpected(pkt.packet_type(), tp.name()));
        }
        let ghost before = self@;
        let ghost handed = before.delivered.push((before.inflight[idx].0, pkt));
        self.0.inflight_order.pop_front();
        match self.0.inflight.remove(&idx) {
            Some(entry) => {
                self.0.delivered = Ghost(self.0.delivered@.push((entry.0, pkt)));
                // a receiver that is gone is no error
                let _ = send(entry.0, pkt);
            },
            None => {},
        }
        proof {
            assert(self@.order =~= before.order.skip(1));
            lemma_pop_keeps_wf(before, self@);
            assert(self@.waiters == old(self)@.waiters.skip(0));
        }
        // wake up queued request (receive max limit)
        let ghost waiting = self@.waiters;
        loop
            invariant_except_break
                self@.signalled == old(self)@.signalled,
                self@.gone - old(self)@.gone <= waiting.len(),
                self@.waiters == waiting.skip(self@.gone - old(self)@.gone),
            invariant
                self@.wf(),
                self@.open == old(self)@.open,
                self@.cap == old(self)@.cap,
                self@.last_id == old(self)@.last_id,
                self@.order == before.order.skip(1),
                self@.inflight == old(self)@.inflight.remove(idx),
                self@.delivered == handed,
                waiting == old(self)@.waiters,
                old(self)@.gone <= self@.gone,
            ensures
                self@.wf(),
                self@.open == old(self)@.open,
                self@.cap == old(self)@.cap,
                self@.last_id == old(self)@.last_id,
                self@.order == before.order.skip(1),
                self@.inflight == old(self)@.inflight.remove(idx),
                self@.delivered == handed,
                woke(old(self)@, self@),
            decreases self@.waiters.len(),
        {
            let ghost left = self@.gone - old(self)@.gone;
            match self.0.waiters.pop_front() {
                Some(tx) => {
                    proof {
                        assert(self@.waiters =~= waiting.skip(left + 1));
                    }
                    if send(tx, ()) {
                        self.0.signalled = Ghost((self.0.signalled@ + 1) as nat);
                        break ;
                    }
                    self.0.gone = Ghost((self.0.gone@ + 1) as nat);
                },
                None => {
                    break ;
                },
            }
        }
        Ok(())
    }

    /// Waits for a send slot.
    ///
    /// On a closed connection the answer is `false` at once; where credit is
    /// left it is `true` at once; else the caller joins the waiters and gets
    /// the receiving half on which the next free slot is announced.
    pub fn ready(&mut self) -> (r: SinkReady)
        requires
            old(self)@.wf(),
        ensures
            final(self)@.wf(),
            !old(self)@.open ==> r == SinkReady::Now(false) && final(self)@ == old(self)@,
            old(self)@.open && old(self)@.has_credit() ==> r == SinkReady::Now(true)
                && final(self)@ == old(self)@,
            old(self)@.open && !old(self)@.has_credit() ==> r is Wait && parked(
                old(self)@,
                final(self)@,
            ),
    {
        if self.0.open {
            if !self.0.has_credit() {
                return SinkReady::Wait(self.park());
            }
            SinkReady::Now(true)
        } else {
            SinkReady::Now(false)
        }
    }

    /// Joins the waiters: a new channel's sending half goes to the back of
    /// the queue, and its receiving half to the caller.
    fn park(&mut self) -> (rx: Receiver<()>)
        requires
            old(self)@.wf(),
        ensures
            final(self)@.wf(),
            parked(old(self)@, final(self)@),
    {
        let (tx, rx) = channel(&self.0.pool.waiters);
        self.0.waiters.push_back(tx);
        proof {
            assert(self@.order == old(self)@.order);
            assert(self@.inflight == old(self)@.inflight);
            assert(self@.waiters.last() == tx);
        }
        rx
    }

    /// Notes that the transport has closed: the connection is no longer
    /// open. What is in flight and who waits stay as they are until the
    /// connection is closed on this side too.
    pub fn disconnected(&mut self)
        ensures
            final(self)@ == (SharedView { open: false, ..old(self)@ }),
    {
        self.0.open = false;
    }

    /// Closes the connection with the default DISCONNECT packet.
    ///
    /// If the connection was open, the packet to send before the transport
    /// is shut down is returned. In any case nothing is in flight and nobody
    /// waits afterwards: every sending half is dropped, which those who
    /// await the other half see as a disconnect.
    pub fn close(&mut self) -> (pkt: Option<codec::Packet>)
        ensures
            final(self)@ == old(self)@.closed(),
            final(self)@.wf(),
            old(self)@.open ==> (pkt matches Some(codec::Packet::Disconnect(d)) && d.is_plain(
                codec::DisconnectReasonCode::NormalDisconnection,
            )),
            !old(self)@.open ==> pkt is None,
    {
        let pkt = if self.is_open() {
            Some(
                codec::Packet::Disconnect(
                    codec::Disconnect::new(codec::DisconnectReasonCode::NormalDisconnection),
                ),
            )
        } else {
            None
        };
        self.drop_sink();
        pkt
    }

    /// Closes the connection with the DISCONNECT packet `pkt`.
    ///
    /// If the connection was open, the packet is handed back to be sent
    /// before the transport is shut down. In any case nothing is in flight
    /// and nobody waits afterwards.
    pub fn close_with_reason(&mut self, pkt: codec::Disconnect) -> (out: Option<codec::Packet>)
        ensures
            final(self)@ == old(self)@.closed(),
            final(self)@.wf(),
            old(self)@.open ==> out == Some(codec::Packet::Disconnect(pkt)),
            !old(self)@.open ==> out is None,
    {
        let out = if self.is_open() {
            Some(codec::Packet::Disconnect(pkt))
        } else {
            None
        };
        self.drop_sink();
        out
    }

    /// The packet of a keep-alive probe.
    pub fn ping(&self) -> (pkt: codec::Packet)
        ensures
            pkt == codec::Packet::PingRequest,
    {
        codec::Packet::PingRequest
    }

    /// Closes the connection without a DISCONNECT packet: nothing is in
    /// flight and nobody waits afterwards.
    pub fn drop_sink(&mut self)
        ensures
            final(self)@ == old(self)@.closed(),
            final(self)@.wf(),
    {
        self.0.waiters.clear();
        self.0.inflight.clear();
        self.0.inflight_order.clear();
        self.0.open = false;
        proof {
            assert(self@.inflight =~= Map::<u16, (Sender<Ack>, AckType)>::empty());
        }
    }

    /// Gives up the packet in flight under `idx`, whose encoding failed: its
    /// entry leaves the queues and its slot in the order queue becomes a
    /// tombstone, so that the acknowledgements of the packets around it
    /// still find their slots.
    pub fn tombstone(&mut self, idx: u16)
        requires
            old(self)@.wf(),
        ensures
            final(self)@.wf(),
            final(self)@ == (SharedView {
                inflight: old(self)@.inflight.remove(idx),
                order: tombstoned(old(self)@.order, idx),
                ..old(self)@
            }),
    {
        if idx == 0 {
            proof {
                assert(self@.inflight.remove(idx) =~= self@.inflight);
                assert(tombstoned(self@.order, idx) =~= self@.order);
            }
            return ;
        }
        self.0.inflight.remove(&idx);
        let n: usize = self.0.inflight_order.len();
        let mut i: usize = 0;
        while i < n
            invariant
                0 <= i <= n,
                n == self@.order.len(),
                n == old(self)@.order.len(),
                idx != 0,
                self@.open == old(self)@.open,
                self@.cap == old(self)@.cap,
                self@.last_id == old(self)@.last_id,
                self@.waiters == old(self)@.waiters,
                self@.signalled == old(self)@.signalled,
                self@.gone == old(self)@.gone,
                self@.delivered == old(self)@.delivered,
                self@.inflight == old(self)@.inflight.remove(idx),
                forall|j: int| 0 <= j < i ==> self@.order[j] == tombstoned(old(self)@.order, idx)[j],
                forall|j: int| i <= j < n ==> self@.order[j] == old(self)@.order[j],
            decreases n - i,
        {
            if self.0.inflight_order[i] == idx {
                self.0.inflight_order.remove(i);
                self.0.inflight_order.insert(i, 0);
            }
            i = i + 1;
        }
        proof {
            let after = tombstoned(old(self)@.order, idx);
            assert(self@.order =~= after);
            assert forall|id: u16| self@.inflight.contains_key(id) implies self@.order.contains(
                id,
            ) by {
                assert(old(self)@.order.contains(id));
                let k = choose|k: int| 0 <= k < old(self)@.order.len() && old(self)@.order[k] == id;
                assert(after[k] == id);
            }
        }
    }

    /// Puts a packet in flight while credit is left: under `wanted` if that
    /// is an id, else under the next free id. Returns the id and the
    /// receiving half on which the acknowledgement will come, or the id
    /// that the caller named and that is in use.
    pub(crate) fn start(&mut self, wanted: Option<u16>, tp: AckType) -> (r: Result<
        (u16, Receiver<Ack>),
        u16,
    >)
        requires
            old(self)@.wf(),
            old(self)@.has_credit(),
        ensures
            final(self)@.wf(),
            match r {
                Ok((idx, _)) => started(old(self)@, final(self)@, wanted, tp, idx),
                Err(idx) => refused(old(self)@, wanted, idx) && final(self)@ == old(self)@,
            },
    {
        let caller: u16 = match wanted {
            Some(id) => id,
            None => 0,
        };
        let idx: u16 = if caller != 0 {
            if self.0.inflight.contains_key(&caller) {
                return Err(caller);
            }
            caller
        } else {
            // credit is left, so fewer than 65 535 ids are in use
            proof {
                lemma_free_id(self@.used());
            }
            self.0.next_id()
        };
        // ack channel
        let (tx, rx) = channel(&self.0.pool.queue);
        let ghost before = self@;
        self.0.inflight.insert(idx, (tx, tp));
        self.0.inflight_order.push_back(idx);
        proof {
            assert(self@.inflight == old(self)@.inflight.insert(idx, (tx, tp)));
            assert forall|id: u16| self@.inflight.contains_key(id) implies self@.order.contains(
                id,
            ) by {
                if id == idx {
                    assert(self@.order[before.order.len() as int] == idx);
                } else {
                    assert(before.order.contains(id));
                    let k = choose|k: int| 0 <= k < before.order.len() && before.order[k] == id;
                    assert(self@.order[k] == id);
                }
            }
        }
        Ok((idx, rx))
    }

    /// Create publish packet builder.
    pub fn publish(&self, topic: String, payload: Vec<u8>) -> (b: PublishBuilder)
        ensures
            b@.topic == topic,
            b@.payload == payload,
            !b@.dup,
            !b@.retain,
            b@.qos == QoS::AtMostOnce,
            b@.packet_id is None,
            b@.properties.is_unset(),
    {
        PublishBuilder {
            packet: codec::Publish {
                payload,
                dup: false,
                retain: false,
                topic,
                qos: QoS::AtMostOnce,
                packet_id: None,
                properties: codec::PublishProperties::new(),
            },
        }
    }

    /// Create subscribe packet builder, with the subscription identifier if
    /// there is one.
    pub fn subscribe(&self, id: Option<u32>) -> (b: SubscribeBuilder)
        ensures
            b.id() == 0,
            b.packet().id == id,
            b.packet().packet_id == 1,
            b.packet().user_properties@.len() == 0,
            b.packet().topic_filters@.len() == 0,
    {
        SubscribeBuilder {
            id: 0,
            packet: codec::Subscribe {
                id,
                packet_id: 1,
                user_properties: Vec::new(),
                topic_filters: Vec::new(),
            },
        }
    }

    /// Create unsubscribe packet builder.
    pub fn unsubscribe(&self) -> (b: UnsubscribeBuilder)
        ensures
            b.id() == 0,
            b.packet().packet_id == 1,
            b.packet().user_properties@.len() == 0,
            b.packet().topic_filters@.len() == 0,
    {
        UnsubscribeBuilder {
            id: 0,
            packet: codec::Unsubscribe {
                packet_id: 1,
                user_properties: Vec::new(),
                topic_filters: Vec::new(),
            },
        }
    }
}

/// How a send that needs a slot has begun.
pub enum Admission<S, B> {
    /// No slot was free. The caller has joined the waiters: it awaits the
    /// receiving half and then goes on with the builder, which is handed
    /// back for that.
    Parked(Receiver<()>, B),
    /// The packet is in flight: it is to be encoded, and its
    /// acknowledgement awaited.
    Started(S),
}

/// How the wait for an acknowledgement ended.
pub enum AckEvent {
    /// The acknowledgement came.
    Ack(Ack),
    /// The sending half was dropped: the connection is closed.
    Closed,
    /// The time allowed for the acknowledgement ran out.
    Timeout,
}

/// The packet with its quality of service set to `qos`.
pub open spec fn with_qos(packet: codec::Publish, qos: QoS) -> codec::Publish {
    codec::Publish { qos, ..packet }
}

/// The packet at its `n`-th transmission, the first being number 0: a
/// retransmission is marked as a duplicate.
pub open spec fn attempt(packet: codec::Publish, n: nat) -> codec::Publish {
    if n == 0 {
        packet
    } else {
        codec::Publish { dup: true, ..packet }
    }
}

/// The PUBREL that answers the PUBREC `pkt`.
pub open spec fn release_of(pkt: codec::PublishAck) -> codec::PublishAck2 {
    codec::PublishAck2 {
        packet_id: pkt.packet_id,
        reason_code: codec::PublishAck2Reason::Success,
        properties: pkt.properties,
        reason_string: pkt.reason_string,
    }
}

impl PublishBuilder {
    /// Set packet id.
    ///
    /// If the packet id is not set, it is generated when the packet is
    /// sent. An id is either set for every packet or for none: else ids
    /// may collide. 0 is no packet id.
    pub fn packet_id(self, id: u16) -> (b: Self)
        requires
            id != 0,
        ensures
            b@ == (codec::Publish { packet_id: Some(id), ..self@ }),
    {
        let mut b = self;
        b.packet.packet_id = Some(id);
        b
    }

    /// This might be re-delivery of an earlier attempt to send the packet.
    pub fn dup(self, val: bool) -> (b: Self)
        ensures
            b@ == (codec::Publish { dup: val, ..self@ }),
    {
        let mut b = self;
        b.packet.dup = val;
        b
    }

    /// Set retain flag.
    pub fn retain(self) -> (b: Self)
        ensures
            b@ == (codec::Publish { retain: true, ..self@ }),
    {
        let mut b = self;
        b.packet.retain = true;
        b
    }

    /// Set publish packet properties: `f` changes them in place.
    pub fn properties<F>(self, f: F) -> (b: Self) where F: FnOnce(&mut codec::PublishProperties)
        requires
            forall|p: &mut codec::PublishProperties| *p == self@.properties ==> f.requires((p,)),
        ensures
            b@ == (codec::Publish { properties: b@.properties, ..self@ }),
            exists|p: &mut codec::PublishProperties|
                *p == self@.properties && *final(p) == b@.properties && #[trigger] f.ensures(
                    (p,),
                    (),
                ),
    {
        let mut b = self;
        f(&mut b.packet.properties);
        b
    }

    /// Set publish packet properties: `f` changes them in place.
    pub fn set_properties<F>(&mut self, f: F) where F: FnOnce(&mut codec::PublishProperties)
        requires
            forall|p: &mut codec::PublishProperties|
                *p == old(self)@.properties ==> f.requires((p,)),
        ensures
            final(self)@ == (codec::Publish { properties: final(self)@.properties, ..old(self)@ }),
            exists|p: &mut codec::PublishProperties|
                *p == old(self)@.properties && *final(p) == final(self)@.properties
                    && #[trigger] f.ensures((p,), ()),
    {
        f(&mut self.packet.properties);
    }

    /// Send publish packet with QoS 0: on an open connection the packet to
    /// encode is handed out; nothing is put in flight.
    pub fn send_at_most_once(self, sink: &MqttSink) -> (r: Result<codec::Publish, SendPacketError>)
        ensures
            sink@.open ==> r == Ok::<codec::Publish, SendPacketError>(self@),
            !sink@.open ==> r == Err::<codec::Publish, SendPacketError>(
                SendPacketError::Disconnected,
            ),
    {
        if sink.is_open() {
            Ok(self.packet)
        } else {
            Err(SendPacketError::Disconnected)
        }
    }

    /// Send publish packet with QoS 1.
    ///
    /// On a closed connection the send fails. Where no credit is left the
    /// caller joins the waiters. Else the packet is put in flight under the
    /// id that the caller has set, or under the next free id; it fails if
    /// the id that the caller has set is in use.
    pub fn send_at_least_once(self, sink: &mut MqttSink) -> (r: Result<
        Admission<Qos1Delivery, PublishBuilder>,
        PublishQos1Error,
    >)
        requires
            old(sink)@.wf(),
        ensures
            final(sink)@.wf(),
            qos1_admission(self@, old(sink)@, final(sink)@, r),
    {
        let mut b = self;
        b.packet.qos = QoS::AtLeastOnce;
        if !sink.is_open() {
            return Err(PublishQos1Error::Disconnected);
        }
        // handle client receive maximum
        if !sink.0.has_credit() {
            return Ok(Admission::Parked(sink.park(), b));
        }
        // packet id
        let mut packet = b.packet;
        match sink.start(packet.packet_id, AckType::Publish) {
            Ok((idx, rx)) => {
                packet.packet_id = Some(idx);
                Ok(Admission::Started(Qos1Delivery { packet, rx, idx }))
            },
            Err(idx) => Err(PublishQos1Error::PacketIdInUse(idx)),
        }
    }

    /// Goes on with a QoS 1 publish after the wait for a slot.
    ///
    /// `signalled` tells how the wait ended: `false` if the connection was
    /// closed instead, and the publish fails as disconnected. Else the send
    /// starts over: the slot may have been taken in the meantime, and then
    /// the caller joins the waiters again.
    pub fn send_at_least_once_inner(self, sink: &mut MqttSink, signalled: bool) -> (r: Result<
        Admission<Qos1Delivery, PublishBuilder>,
        PublishQos1Error,
    >)
        requires
            old(sink)@.wf(),
        ensures
            final(sink)@.wf(),
            !signalled ==> {
                &&& r matches Err(PublishQos1Error::Disconnected)
                &&& final(sink)@ == old(sink)@
            },
            signalled ==> qos1_admission(self@, old(sink)@, final(sink)@, r),
    {
        if !signalled {
            return Err(PublishQos1Error::Disconnected);
        }
        self.send_at_least_once(sink)
    }

    /// Send publish packet with QoS 2.
    ///
    /// On a closed connection the send fails. Where no credit is left the
    /// caller joins the waiters. Else the packet is put in flight under the
    /// id that the caller has set, or under the next free id, and the
    /// exchange starts in its first phase, in which the PUBREC is awaited;
    /// it fails if the id that the caller has set is in use.
    pub fn send_exactly_once(self, sink: &mut MqttSink) -> (r: Result<
        Admission<Qos2Delivery, PublishBuilder>,
        PublishQos2Error,
    >)
        requires
            old(sink)@.wf(),
        ensures
            final(sink)@.wf(),
            qos2_admission(self@, old(sink)@, final(sink)@, r),
    {
        let mut b = self;
        b.packet.qos = QoS::ExactlyOnce;
        if !sink.is_open() {
            return Err(PublishQos2Error::Disconnected);
        }
        // handle client receive maximum
        if !sink.0.has_credit() {
            return Ok(Admission::Parked(sink.park(), b));
        }
        // packet id
        let mut packet = b.packet;
        match sink.start(packet.packet_id, AckType::Publish) {
            Ok((idx, rx)) => {
                packet.packet_id = Some(idx);
                Ok(Admission::Started(Qos2Delivery { packet, release: None, rx, idx }))
            },
            Err(idx) => Err(PublishQos2Error::PacketIdInUse(idx)),
        }
    }

    /// Goes on with a QoS 2 publish after the wait for a slot.
    ///
    /// `signalled` tells how the wait ended: `false` if the connection was
    /// closed instead, and the publish fails as disconnected. Else the send
    /// starts over: the slot may have been taken in the meantime, and then
    /// the caller joins the waiters again.
    pub fn send_exactly_once_inner(self, sink: &mut MqttSink, signalled: bool) -> (r: Result<
        Admission<Qos2Delivery, PublishBuilder>,
        PublishQos2Error,
    >)
        requires
            old(sink)@.wf(),
        ensures
            final(sink)@.wf(),
            !signalled ==> {
                &&& r matches Err(PublishQos2Error::Disconnected)
                &&& final(sink)@ == old(sink)@
            },
            signalled ==> qos2_admission(self@, old(sink)@, final(sink)@, r),
    {
        if !signalled {
            return Err(PublishQos2Error::Disconnected);
        }
        self.send_exactly_once(sink)
    }
}

/// How a QoS 1 publish of `packet` begins: it fails on a closed connection;
/// without credit the caller joins the waiters, and gets the builder back
/// with the quality of service set; with credit the packet is in flight,
/// unless the id that the caller has set is in use.
pub open spec fn qos1_admission(
    packet: codec::Publish,
    before: SharedView,
    after: SharedView,
    r: Result<Admission<Qos1Delivery, PublishBuilder>, PublishQos1Error>,
) -> bool {
    if !before.open {
        r matches Err(PublishQos1Error::Disconnected) && after == before
    } else if !before.has_credit() {
        &&& r matches Ok(Admission::Parked(_, b))
        &&& b@ == with_qos(packet, QoS::AtLeastOnce)
        &&& parked(before, after)
    } else {
        match r {
            Ok(Admission::Started(d)) => in_flight(
                before,
                after,
                with_qos(packet, QoS::AtLeastOnce),
                AckType::Publish,
                d@,
                d.id(),
            ),
            Ok(Admission::Parked(_, _)) => false,
            Err(e) => {
                &&& e matches PublishQos1Error::PacketIdInUse(idx)
                &&& refused(before, packet.packet_id, idx)
                &&& after == before
            },
        }
    }
}

/// How a QoS 2 publish of `packet` begins: as a QoS 1 publish does, and in
/// its first phase.
pub open spec fn qos2_admission(
    packet: codec::Publish,
    before: SharedView,
    after: SharedView,
    r: Result<Admission<Qos2Delivery, PublishBuilder>, PublishQos2Error>,
) -> bool {
    if !before.open {
        r matches Err(PublishQos2Error::Disconnected) && after == before
    } else if !before.has_credit() {
        &&& r matches Ok(Admission::Parked(_, b))
        &&& b@ == with_qos(packet, QoS::ExactlyOnce)
        &&& parked(before, after)
    } else {
        match r {
            Ok(Admission::Started(d)) => d.release() is None && in_flight(
                before,
                after,
                with_qos(packet, QoS::ExactlyOnce),
                AckType::Publish,
                d@,
                d.id(),
            ),
            Ok(Admission::Parked(_, _)) => false,
            Err(e) => {
                &&& e matches PublishQos2Error::PacketIdInUse(idx)
                &&& refused(before, packet.packet_id, idx)
                &&& after == before
            },
        }
    }
}

/// The publish `sent` is in flight under `idx`: `after` is `before` with
/// that entry, which awaits `tp`, and `sent` is `packet` with `idx` as its
/// packet id.
pub open spec fn in_flight(
    before: SharedView,
    after: SharedView,
    packet: codec::Publish,
    tp: AckType,
    sent: codec::Publish,
    idx: u16,
) -> bool {
    &&& started(before, after, packet.packet_id, tp, idx)
    &&& sent == (codec::Publish { packet_id: Some(idx), ..packet })
}

/// A QoS 1 publish in flight.
pub struct Qos1Delivery {
    packet: codec::Publish,
    rx: Receiver<Ack>,
    idx: u16,
}

/// What is to be done next for a QoS 1 publish.
pub enum Qos1Step {
    /// The packet is to be encoded again, and its acknowledgement awaited.
    Send(Qos1Delivery),
    /// The publish has ended.
    Done(Result<codec::PublishAck, PublishQos1Error>),
}

impl View for Qos1Delivery {
    type V = codec::Publish;

    /// The packet as it is to be encoded next.
    closed spec fn view(&self) -> codec::Publish {
        self.packet
    }
}

impl Qos1Delivery {
    /// The id under which the packet is in flight.
    pub closed spec fn id(&self) -> u16 {
        self.idx
    }

    /// The receiving half on which the acknowledgement comes.
    pub closed spec fn channel(&self) -> Receiver<Ack> {
        self.rx
    }

    /// The packet as it is to be encoded next.
    pub fn packet(&self) -> (p: &codec::Publish)
        ensures
            *p == self@,
    {
        &self.packet
    }

    /// The id under which the packet is in flight.
    pub fn packet_id(&self) -> (id: u16)
        ensures
            id == self.id(),
    {
        self.idx
    }

    /// The receiving half on which the acknowledgement comes.
    pub fn receiver(&self) -> (rx: &Receiver<Ack>)
        ensures
            *rx == self.channel(),
    {
        &self.rx
    }

    /// The encoder refused the packet: the publish is given up, and its
    /// slot becomes a tombstone.
    pub fn encode_failed(self, sink: &mut MqttSink, err: EncodeError) -> (e: PublishQos1Error)
        requires
            old(sink)@.wf(),
        ensures
            e == PublishQos1Error::Encode(err),
            final(sink)@.wf(),
            final(sink)@ == (SharedView {
                inflight: old(sink)@.inflight.remove(self.id()),
                order: tombstoned(old(sink)@.order, self.id()),
                ..old(sink)@
            }),
    {
        sink.tombstone(self.idx);
        PublishQos1Error::Encode(err)
    }

    /// Decides what follows the wait for the acknowledgement.
    ///
    /// After a timeout the packet is sent again, marked as a duplicate. An
    /// acknowledgement ends the publish: it is the result if its reason code
    /// is success, and the failure otherwise. A closed channel ends it as
    /// disconnected.
    pub fn on_event(self, ev: AckEvent) -> (step: Qos1Step)
        requires
            ev matches AckEvent::Ack(a) ==> a is Publish,
        ensures
            match ev {
                AckEvent::Timeout => {
                    &&& step matches Qos1Step::Send(d)
                    &&& d@ == attempt(self@, 1)
                    &&& d.id() == self.id()
                    &&& d.channel() == self.channel()
                },
                AckEvent::Closed => step == Qos1Step::Done(Err(PublishQos1Error::Disconnected)),
                AckEvent::Ack(a) => step == Qos1Step::Done(
                    if a->Publish_0.reason_code is Success {
                        Ok(a->Publish_0)
                    } else {
                        Err(PublishQos1Error::Fail(a->Publish_0))
                    },
                ),
            },
    {
        match ev {
            AckEvent::Ack(pkt) => {
                let pkt = pkt.publish();
                match pkt.reason_code {
                    codec::PublishAckReason::Success => Qos1Step::Done(Ok(pkt)),
                    _ => Qos1Step::Done(Err(PublishQos1Error::Fail(pkt))),
                }
            },
            AckEvent::Closed => Qos1Step::Done(Err(PublishQos1Error::Disconnected)),
            AckEvent::Timeout => {
                let mut d = self;
                d.packet.dup = true;
                Qos1Step::Send(d)
            },
        }
    }
}

/// A QoS 2 publish in flight, in one of its two phases: until the PUBREC
/// has come the PUBLISH is sent, after that the PUBREL.
pub struct Qos2Delivery {
    packet: codec::Publish,
    release: Option<codec::PublishAck2>,
    rx: Receiver<Ack>,
    idx: u16,
}

/// A QoS 2 publish between its phases: the PUBREC has come, and the second
/// phase waits for a slot.
pub struct Qos2Release {
    packet: codec::Publish,
    release: codec::PublishAck2,
    idx: u16,
}

/// What is to be done next for a QoS 2 publish.
pub enum Qos2Step {
    /// The packet of the current phase is to be encoded, and its
    /// acknowledgement awaited.
    Send(Qos2Delivery),
    /// No slot is free for the second phase. The caller has joined the
    /// waiters: it awaits the receiving half and then goes on with
    /// `Qos2Release::resume`.
    Parked(Receiver<()>, Qos2Release),
    /// The publish has ended.
    Done(Result<codec::PublishAck2, PublishQos2Error>),
}

impl View for Qos2Delivery {
    type V = codec::Publish;

    /// The PUBLISH packet as the first phase encodes it next.
    closed spec fn view(&self) -> codec::Publish {
        self.packet
    }
}

/// How the second phase of a QoS 2 publish begins, for the PUBLISH
/// `packet`, its PUBREL `release` and its id: without credit the caller
/// joins the waiters; with credit the id is put in flight again, now
/// awaiting the PUBCOMP, and the PUBREL is to be sent, unless the id is in
/// use by then.
pub open spec fn release_entered(
    packet: codec::Publish,
    release: codec::PublishAck2,
    id: u16,
    before: SharedView,
    after: SharedView,
    step: Qos2Step,
) -> bool {
    if !before.has_credit() {
        &&& step matches Qos2Step::Parked(_, w)
        &&& w.packet() == packet
        &&& w.release() == release
        &&& w.id() == id
        &&& parked(before, after)
    } else if before.inflight.contains_key(id) {
        &&& after == before
        &&& step == Qos2Step::Done(Err(PublishQos2Error::PacketIdInUse(id)))
    } else {
        &&& step matches Qos2Step::Send(d)
        &&& d@ == packet
        &&& d.release() == Some(release)
        &&& d.id() == id
        &&& started(before, after, Some(id), AckType::Publish2, id)
    }
}

impl Qos2Release {
    /// The PUBLISH packet of the first phase.
    pub closed spec fn packet(&self) -> codec::Publish {
        self.packet
    }

    /// The PUBREL that the second phase sends.
    pub closed spec fn release(&self) -> codec::PublishAck2 {
        self.release
    }

    /// The id of the publish.
    pub closed spec fn id(&self) -> u16 {
        self.idx
    }

    /// The id of the publish.
    pub fn packet_id(&self) -> (id: u16)
        ensures
            id == self.id(),
    {
        self.idx
    }

    /// Begins the second phase, if a slot is free for it.
    fn enter(self, sink: &mut MqttSink) -> (step: Qos2Step)
        requires
            old(sink)@.wf(),
        ensures
            final(sink)@.wf(),
            release_entered(
                self.packet(),
                self.release(),
                self.id(),
                old(sink)@,
                final(sink)@,
                step,
            ),
    {
        proof {
            use_type_invariant(&self);
        }
        // handle client receive maximum
        if !sink.0.has_credit() {
            return Qos2Step::Parked(sink.park(), self);
        }
        match sink.start(Some(self.idx), AckType::Publish2) {
            Ok((idx, rx)) => Qos2Step::Send(
                Qos2Delivery { packet: self.packet, release: Some(self.release), rx, idx },
            ),
            Err(idx) => Qos2Step::Done(Err(PublishQos2Error::PacketIdInUse(idx))),
        }
    }

    /// Goes on with the second phase after the wait for a slot.
    ///
    /// `signalled` tells how the wait ended: `false` if the connection was
    /// closed instead, and the publish ends as disconnected. Else the
    /// second phase begins, if a slot is still free; if it was taken in the
    /// meantime, the caller joins the waiters again.
    pub fn resume(self, sink: &mut MqttSink, signalled: bool) -> (step: Qos2Step)
        requires
            old(sink)@.wf(),
        ensures
            final(sink)@.wf(),
            !signalled ==> {
                &&& final(sink)@ == old(sink)@
                &&& step == Qos2Step::Done(Err(PublishQos2Error::Disconnected))
            },
            signalled ==> release_entered(
                self.packet(),
                self.release(),
                self.id(),
                old(sink)@,
                final(sink)@,
                step,
            ),
    {
        if !signalled {
            return Qos2Step::Done(Err(PublishQos2Error::Disconnected));
        }
        self.enter(sink)
    }

    #[verifier::type_invariant]
    spec fn inv(self) -> bool {
        self.idx != 0
    }
}

impl Qos2Delivery {
    /// The id under which the packet is in flight.
    pub closed spec fn id(&self) -> u16 {
        self.idx
    }

    /// The receiving half on which the acknowledgement comes.
    pub closed spec fn channel(&self) -> Receiver<Ack> {
        self.rx
    }

    /// The PUBREL of the second phase; none while the first phase lasts.
    pub closed spec fn release(&self) -> Option<codec::PublishAck2> {
        self.release
    }

    /// The PUBLISH packet as the first phase encodes it next.
    pub fn packet(&self) -> (p: &codec::Publish)
        ensures
            *p == self@,
    {
        &self.packet
    }

    /// The PUBREL that the second phase encodes; none while the first
    /// phase lasts.
    pub fn release_packet(&self) -> (p: &Option<codec::PublishAck2>)
        ensures
            *p == self.release(),
    {
        &self.release
    }

    /// The id under which the packet is in flight.
    pub fn packet_id(&self) -> (id: u16)
        ensures
            id == self.id(),
    {
        self.idx
    }

    /// The receiving half on which the acknowledgement comes.
    pub fn receiver(&self) -> (rx: &Receiver<Ack>)
        ensures
            *rx == self.channel(),
    {
        &self.rx
    }

    /// The encoder refused the packet: the publish is given up, and its
    /// slot becomes a tombstone.
    pub fn encode_failed(self, sink: &mut MqttSink, err: EncodeError) -> (e: PublishQos2Error)
        requires
            old(sink)@.wf(),
        ensures
            e == PublishQos2Error::Encode(err),
            final(sink)@.wf(),
            final(sink)@ == (SharedView {
                inflight: old(sink)@.inflight.remove(self.id()),
                order: tombstoned(old(sink)@.order, self.id()),
                ..old(sink)@
            }),
    {
        sink.tombstone(self.idx);
        PublishQos2Error::Encode(err)
    }

    /// Decides what follows the wait for the acknowledgement.
    ///
    /// In the first phase a timeout has the PUBLISH sent again, marked as a
    /// duplicate. A PUBREC whose reason code is not success ends the
    /// publish as failed: nothing is put in flight and no PUBREL is sent.
    /// A PUBREC with success starts the second phase, if a slot is free for
    /// it: the id is put in flight again, now awaiting the PUBCOMP, and the
    /// PUBREL is to be sent; if the id is in use by then, the publish
    /// fails; without a free slot the caller joins the waiters. In the
    /// second phase a timeout has the PUBREL sent again; the PUBCOMP ends
    /// the publish: it is the result if its reason code is success, and the
    /// failure otherwise. In both phases a closed channel ends the publish
    /// as disconnected.
    pub fn on_event(self, sink: &mut MqttSink, ev: AckEvent) -> (step: Qos2Step)
        requires
            old(sink)@.wf(),
            ev matches AckEvent::Ack(a) ==> if self.release() is None {
                a is Publish
            } else {
                a is Publish2
            },
        ensures
            final(sink)@.wf(),
            match ev {
                AckEvent::Timeout => {
                    &&& final(sink)@ == old(sink)@
                    &&& step matches Qos2Step::Send(d)
                    &&& d@ == (if self.release() is None {
                        attempt(self@, 1)
                    } else {
                        self@
                    })
                    &&& d.release() == self.release()
                    &&& d.id() == self.id()
                    &&& d.channel() == self.channel()
                },
                AckEvent::Closed => {
                    &&& final(sink)@ == old(sink)@
                    &&& step == Qos2Step::Done(Err(PublishQos2Error::Disconnected))
                },
                AckEvent::Ack(a) => if self.release() is Some {
                    &&& final(sink)@ == old(sink)@
                    &&& step == Qos2Step::Done(
                        if a->Publish2_0.reason_code is Success {
                            Ok(a->Publish2_0)
                        } else {
                            Err(PublishQos2Error::Fail(a))
                        },
                    )
                } else if !(a->Publish_0.reason_code is Success) {
                    &&& final(sink)@ == old(sink)@
                    &&& step == Qos2Step::Done(Err(PublishQos2Error::Fail(a)))
                } else {
                    release_entered(
                        self@,
                        release_of(a->Publish_0),
                        self.id(),
                        old(sink)@,
                        final(sink)@,
                        step,
                    )
                },
            },
    {
        proof {
            use_type_invariant(&self);
        }
        match ev {
            AckEvent::Ack(pkt) => {
                if self.release.is_none() {
                    let pkt = pkt.publish();
                    match pkt.reason_code {
                        codec::PublishAckReason::Success => {},
                        _ => {
                            return Qos2Step::Done(
                                Err(PublishQos2Error::Fail(Ack::Publish(pkt))),
                            );
                        },
                    }
                    let release = codec::PublishAck2 {
                        packet_id: pkt.packet_id,
                        reason_code: codec::PublishAck2Reason::Success,
                        properties: pkt.properties,
                        reason_string: pkt.reason_string,
                    };
                    Qos2Release { packet: self.packet, release, idx: self.idx }.enter(sink)
                } else {
                    let pkt = pkt.publish2();
                    match pkt.reason_code {
                        codec::PublishAck2Reason::Success => Qos2Step::Done(Ok(pkt)),
                        _ => Qos2Step::Done(Err(PublishQos2Error::Fail(Ack::Publish2(pkt)))),
                    }
                }
            },
            AckEvent::Closed => Qos2Step::Done(Err(PublishQos2Error::Disconnected)),
            AckEvent::Timeout => {
                if self.release.is_none() {
                    Qos2Step::Send(
                        Qos2Delivery {
                            packet: codec::Publish {
                                dup: true,
                                retain: self.packet.retain,
                                qos: self.packet.qos,
                                topic: self.packet.topic,
                                packet_id: self.packet.packet_id,
                                payload: self.packet.payload,
                                properties: self.packet.properties,
                            },
                            release: self.release,
                            rx: self.rx,
                            idx: self.idx,
                        },
                    )
                } else {
                    Qos2Step::Send(self)
                }
            },
        }
    }

    #[verifier::type_invariant]
    spec fn inv(self) -> bool {
        self.idx != 0
    }
}

/// A subscribe or unsubscribe packet in flight.
pub struct Pending<P> {
    packet: P,
    rx: Receiver<Ack>,
    idx: u16,
}

impl<P> View for Pending<P> {
    type V = P;

    /// The packet as it is to be encoded.
    closed spec fn view(&self) -> P {
        self.packet
    }
}

impl<P> Pending<P> {
    /// The id under which the packet is in flight.
    pub closed spec fn id(&self) -> u16 {
        self.idx
    }

    /// The receiving half on which the acknowledgement comes.
    pub closed spec fn channel(&self) -> Receiver<Ack> {
        self.rx
    }

    /// The packet as it is to be encoded.
    pub fn packet(&self) -> (p: &P)
        ensures
            *p == self@,
    {
        &self.packet
    }

    /// The id under which the packet is in flight.
    pub fn packet_id(&self) -> (id: u16)
        ensures
            id == self.id(),
    {
        self.idx
    }

    /// The receiving half on which the acknowledgement comes.
    pub fn receiver(&self) -> (rx: &Receiver<Ack>)
        ensures
            *rx == self.channel(),
    {
        &self.rx
    }

    /// The encoder refused the packet: it is given up, and its slot becomes
    /// a tombstone.
    pub fn encode_failed(self, sink: &mut MqttSink, err: EncodeError) -> (e: SendPacketError)
        requires
            old(sink)@.wf(),
        ensures
            e == SendPacketError::Encode(err),
            final(sink)@.wf(),
            final(sink)@ == (SharedView {
                inflight: old(sink)@.inflight.remove(self.id()),
                order: tombstoned(old(sink)@.order, self.id()),
                ..old(sink)@
            }),
    {
        sink.tombstone(self.idx);
        SendPacketError::Encode(err)
    }
}

impl SubscribeBuilder {
    /// Set packet id. 0 is no packet id.
    pub fn packet_id(self, id: u16) -> (b: Self)
        requires
            id != 0,
        ensures
            b.id() == id,
            b.packet() == self.packet(),
    {
        let mut b = self;
        b.id = id;
        b
    }

    /// Add topic filter.
    pub fn topic_filter(self, filter: String, opts: codec::SubscriptionOptions) -> (b: Self)
        ensures
            b.id() == self.id(),
            b.packet() == (codec::Subscribe {
                topic_filters: b.packet().topic_filters,
                ..self.packet()
            }),
            b.packet().topic_filters@ == self.packet().topic_filters@.push((filter, opts)),
    {
        let mut b = self;
        b.packet.topic_filters.push((filter, opts));
        b
    }

    /// Add user property.
    pub fn property(self, key: String, value: String) -> (b: Self)
        ensures
            b.id() == self.id(),
            b.packet() == (codec::Subscribe {
                user_properties: b.packet().user_properties,
                ..self.packet()
            }),
            b.packet().user_properties@ == self.packet().user_properties@.push((key, value)),
    {
        let mut b = self;
        b.packet.user_properties.push((key, value));
        b
    }

    /// Send subscribe packet.
    ///
    /// On a closed connection the send fails. Where no credit is left the
    /// caller joins the waiters. Else the packet is put in flight under the
    /// id that the caller has set, or under the next free id; it fails if
    /// the id that the caller has set is in use.
    pub fn send(self, sink: &mut MqttSink) -> (r: Result<
        Admission<Pending<codec::Subscribe>, SubscribeBuilder>,
        SendPacketError,
    >)
        requires
            old(sink)@.wf(),
        ensures
            final(sink)@.wf(),
            !old(sink)@.open ==> {
                &&& r matches Err(SendPacketError::Disconnected)
                &&& final(sink)@ == old(sink)@
            },
            old(sink)@.open && !old(sink)@.has_credit() ==> {
                &&& r matches Ok(Admission::Parked(_, b))
                &&& b.id() == self.id()
                &&& b.packet() == self.packet()
                &&& parked(old(sink)@, final(sink)@)
            },
            old(sink)@.open && old(sink)@.has_credit() ==> match r {
                Ok(Admission::Started(d)) => {
                    &&& started(old(sink)@, final(sink)@, Some(self.id()), AckType::Subscribe, d.id())
                    &&& d@ == (codec::Subscribe { packet_id: d.id(), ..self.packet() })
                },
                Ok(Admission::Parked(_, _)) => false,
                Err(e) => {
                    &&& e matches SendPacketError::PacketIdInUse(idx)
                    &&& refused(old(sink)@, Some(self.id()), idx)
                    &&& final(sink)@ == old(sink)@
                },
            },
    {
        if !sink.is_open() {
            return Err(SendPacketError::Disconnected);
        }
        // handle client receive maximum
        if !sink.0.has_credit() {
            return Ok(Admission::Parked(sink.park(), self));
        }
        // allocate packet id
        let mut packet = self.packet;
        match sink.start(Some(self.id), AckType::Subscribe) {
            Ok((idx, rx)) => {
                packet.packet_id = idx;
                Ok(Admission::Started(Pending { packet, rx, idx }))
            },
            Err(idx) => Err(SendPacketError::PacketIdInUse(idx)),
        }
    }

    /// Goes on with the subscribe packet after the wait for a slot.
    ///
    /// `signalled` tells how the wait ended: `false` if the connection was
    /// closed instead, and the send fails as disconnected. Else the send
    /// starts over: the slot may have been taken in the meantime, and then
    /// the caller joins the waiters again.
    pub fn send_inner(self, sink: &mut MqttSink, signalled: bool) -> (r: Result<
        Admission<Pending<codec::Subscribe>, SubscribeBuilder>,
        SendPacketError,
    >)
        requires
            old(sink)@.wf(),
        ensures
            final(sink)@.wf(),
            !signalled || !old(sink)@.open ==> {
                &&& r matches Err(SendPacketError::Disconnected)
                &&& final(sink)@ == old(sink)@
            },
            signalled && old(sink)@.open && !old(sink)@.has_credit() ==> {
                &&& r matches Ok(Admission::Parked(_, b))
                &&& b.id() == self.id()
                &&& b.packet() == self.packet()
                &&& parked(old(sink)@, final(sink)@)
            },
            signalled && old(sink)@.open && old(sink)@.has_credit() ==> match r {
                Ok(Admission::Started(d)) => {
                    &&& started(old(sink)@, final(sink)@, Some(self.id()), AckType::Subscribe, d.id())
                    &&& d@ == (codec::Subscribe { packet_id: d.id(), ..self.packet() })
                },
                Ok(Admission::Parked(_, _)) => false,
                Err(e) => {
                    &&& e matches SendPacketError::PacketIdInUse(idx)
                    &&& refused(old(sink)@, Some(self.id()), idx)
                    &&& final(sink)@ == old(sink)@
                },
            },
    {
        if !signalled {
            return Err(SendPacketError::Disconnected);
        }
        self.send(sink)
    }
}

impl Pending<codec::Subscribe> {
    /// Decides what the wait for the acknowledgement ended with: the
    /// acknowledgement if it came, a disconnect if the channel was closed
    /// instead.
    pub fn on_response(self, resp: Option<Ack>) -> (r: Result<codec::SubscribeAck, SendPacketError>)
        requires
            resp matches Some(a) ==> a is Subscribe,
        ensures
            r == (match resp {
                Some(a) => Ok(a->Subscribe_0),
                None => Err(SendPacketError::Disconnected),
            }),
    {
        match resp {
            Some(pkt) => Ok(pkt.subscribe()),
            None => Err(SendPacketError::Disconnected),
        }
    }
}

impl UnsubscribeBuilder {
    /// Set packet id. 0 is no packet id.
    pub fn packet_id(self, id: u16) -> (b: Self)
        requires
            id != 0,
        ensures
            b.id() == id,
            b.packet() == self.packet(),
    {
        let mut b = self;
        b.id = id;
        b
    }

    /// Add topic filter.
    pub fn topic_filter(self, filter: String) -> (b: Self)
        ensures
            b.id() == self.id(),
            b.packet() == (codec::Unsubscribe {
                topic_filters: b.packet().topic_filters,
                ..self.packet()
            }),
            b.packet().topic_filters@ == self.packet().topic_filters@.push(filter),
    {
        let mut b = self;
        b.packet.topic_filters.push(filter);
        b
    }

    /// Add user property.
    pub fn property(self, key: String, value: String) -> (b: Self)
        ensures
            b.id() == self.id(),
            b.packet() == (codec::Unsubscribe {
                user_properties: b.packet().user_properties,
                ..self.packet()
            }),
            b.packet().user_properties@ == self.packet().user_properties@.push((key, value)),
    {
        let mut b = self;
        b.packet.user_properties.push((key, value));
        b
    }

    /// Send unsubscribe packet.
    ///
    /// On a closed connection the send fails. Where no credit is left the
    /// caller joins the waiters. Else the packet is put in flight under the
    /// id that the caller has set, or under the next free id; it fails if
    /// the id that the caller has set is in use.
    pub fn send(self, sink: &mut MqttSink) -> (r: Result<
        Admission<Pending<codec::Unsubscribe>, UnsubscribeBuilder>,
        SendPacketError,
    >)
        requires
            old(sink)@.wf(),
        ensures
            final(sink)@.wf(),
            !old(sink)@.open ==> {
                &&& r matches Err(SendPacketError::Disconnected)
                &&& final(sink)@ == old(sink)@
            },
            old(sink)@.open && !old(sink)@.has_credit() ==> {
                &&& r matches Ok(Admission::Parked(_, b))
                &&& b.id() == self.id()
                &&& b.packet() == self.packet()
                &&& parked(old(sink)@, final(sink)@)
            },
            old(sink)@.open && old(sink)@.has_credit() ==> match r {
                Ok(Admission::Started(d)) => {
                    &&& started(old(sink)@, final(sink)@, Some(self.id()), AckType::Unsubscribe, d.id())
                    &&& d@ == (codec::Unsubscribe { packet_id: d.id(), ..self.packet() })
                },
                Ok(Admission::Parked(_, _)) => false,
                Err(e) => {
                    &&& e matches SendPacketError::PacketIdInUse(idx)
                    &&& refused(old(sink)@, Some(self.id()), idx)
                    &&& final(sink)@ == old(sink)@
                },
            },
    {
        if !sink.is_open() {
            return Err(SendPacketError::Disconnected);
        }
        // handle client receive maximum
        if !sink.0.has_credit() {
            return Ok(Admission::Parked(sink.park(), self));
        }
        // allocate packet id
        let mut packet = self.packet;
        match sink.start(Some(self.id), AckType::Unsubscribe) {
            Ok((idx, rx)) => {
                packet.packet_id = idx;
                Ok(Admission::Started(Pending { packet, rx, idx }))
            },
            Err(idx) => Err(SendPacketError::PacketIdInUse(idx)),
        }
    }

    /// Goes on with the unsubscribe packet after the wait for a slot.
    ///
    /// `signalled` tells how the wait ended: `false` if the connection was
    /// closed instead, and the send fails as disconnected. Else the send
    /// starts over: the slot may have been taken in the meantime, and then
    /// the caller joins the waiters again.
    pub fn send_inner(self, sink: &mut MqttSink, signalled: bool) -> (r: Result<
        Admission<Pending<codec::Unsubscribe>, UnsubscribeBuilder>,
        SendPacketError,
    >)
        requires
            old(sink)@.wf(),
        ensures
            final(sink)@.wf(),
            !signalled || !old(sink)@.open ==> {
                &&& r matches Err(SendPacketError::Disconnected)
                &&& final(sink)@ == old(sink)@
            },
            signalled && old(sink)@.open && !old(sink)@.has_credit() ==> {
                &&& r matches Ok(Admission::Parked(_, b))
                &&& b.id() == self.id()
                &&& b.packet() == self.packet()
                &&& parked(old(sink)@, final(sink)@)
            },
            signalled && old(sink)@.open && old(sink)@.has_credit() ==> match r {
                Ok(Admission::Started(d)) => {
                    &&& started(old(sink)@, final(sink)@, Some(self.id()), AckType::Unsubscribe, d.id())
                    &&& d@ == (codec::Unsubscribe { packet_id: d.id(), ..self.packet() })
                },
                Ok(Admission::Parked(_, _)) => false,
                Err(e) => {
                    &&& e matches SendPacketError::PacketIdInUse(idx)
                    &&& refused(old(sink)@, Some(self.id()), idx)
                    &&& final(sink)@ == old(sink)@
                },
            },
    {
        if !signalled {
            return Err(SendPacketError::Disconnected);
        }
        self.send(sink)
    }
}

impl Pending<codec::Unsubscribe> {
    /// Decides what the wait for the acknowledgement ended with: the
    /// acknowledgement if it came, a disconnect if the channel was closed
    /// instead.
    pub fn on_response(self, resp: Option<Ack>) -> (r: Result<codec::UnsubscribeAck, SendPacketError>)
        requires
            resp matches Some(a) ==> a is Unsubscribe,
        ensures
            r == (match resp {
                Some(a) => Ok(a->Unsubscribe_0),
                None => Err(SendPacketError::Disconnected),
            }),
    {
        match resp {
            Some(pkt) => Ok(pkt.unsubscribe()),
            None => Err(SendPacketError::Disconnected),
        }
    }
}

/// Whatever the queues hold, no id in flight is 0, and no two slots of the
/// order queue carry the same id.
pub proof fn lemma_ids_in_flight(s: SharedView, i: int, j: int)
    requires
        s.wf(),
        0 <= i < s.order.len(),
        0 <= j < s.order.len(),
        i != j,
        s.order[i] != 0,
    ensures
        s.order[i] != s.order[j],
        s.inflight.contains_key(s.order[i]),
        !s.inflight.contains_key(0),
{
}

/// Ids allocated one after the other, while the first packet is still in
/// flight, differ from each other, and neither is 0; both packets are in
/// flight afterwards.
pub proof fn lemma_ids_distinct(
    first: SharedView,
    second: SharedView,
    third: SharedView,
    tp1: AckType,
    tp2: AckType,
    id1: u16,
    id2: u16,
)
    requires
        first.wf(),
        started(first, second, None, tp1, id1),
        started(second, third, None, tp2, id2),
    ensures
        id1 != 0,
        id2 != 0,
        id1 != id2,
        third.inflight.contains_key(id1),
        third.inflight.contains_key(id2),
{
}

/// A publish without an id of the caller's that finds the connection open
/// and credit left is put in flight, whatever else is in flight: under an
/// id that is not 0 and that nothing in flight has. It gains exactly that
/// entry, which awaits the acknowledgement of a publish, and it never fails
/// for an id in use.
pub proof fn lemma_publish_id_is_fresh(
    packet: codec::Publish,
    before: SharedView,
    after: SharedView,
    r: Result<Admission<Qos1Delivery, PublishBuilder>, PublishQos1Error>,
)
    requires
        before.wf(),
        before.open,
        before.has_credit(),
        !names_id(packet.packet_id),
        qos1_admission(packet, before, after, r),
    ensures
        r matches Ok(Admission::Started(d)) && d.id() != 0 && !before.inflight.contains_key(d.id())
            && after.inflight.dom() == before.inflight.dom().insert(d.id()) && after.inflight[d.id()].1
            == AckType::Publish && after.inflight.len() == before.inflight.len() + 1
            && after.inflight.len() <= after.cap && after.order == before.order.push(d.id()),
{
}

/// A QoS 2 publish keeps its id: the id under which the first phase was in
/// flight is the id of the PUBREL and the id under which the second phase
/// is put in flight, and no id is allocated for the second phase.
pub proof fn lemma_release_keeps_id(
    packet: codec::Publish,
    ack: codec::PublishAck,
    id: u16,
    before: SharedView,
    after: SharedView,
    step: Qos2Step,
)
    requires
        before.wf(),
        id != 0,
        ack.packet_id == id,
        release_entered(packet, release_of(ack), id, before, after, step),
        step is Send,
    ensures
        step->Send_0.id() == id,
        step->Send_0.release() matches Some(release) && release.packet_id == id,
        after.last_id == before.last_id,
        after.inflight.contains_key(id),
        after.inflight[id].1 == AckType::Publish2,
        after.inflight.len() <= after.cap,
{
}

/// The id to allocate is determined by the id allocated last and the ids
/// in use.
pub proof fn lemma_next_id_unique(last: u16, used: Set<u16>, id1: u16, id2: u16)
    requires
        is_next_id(last, used, id1),
        is_next_id(last, used, id2),
    ensures
        id1 == id2,
{
    if steps(last, id1) < steps(last, id2) {
        assert(used.contains(id1));
    }
    if steps(last, id2) < steps(last, id1) {
        assert(used.contains(id2));
    }
}

/// A publish that its builder has not marked as a duplicate is sent
/// without the mark the first time and with it every time after; each
/// timeout leads from one transmission to the next.
pub proof fn lemma_retransmission_is_dup(packet: codec::Publish, n: nat)
    requires
        !packet.dup,
    ensures
        attempt(packet, n).dup <==> n > 0,
        attempt(attempt(packet, n), 1) == attempt(packet, n + 1),
{
}

/// A packet that is put in flight while credit is left does not exceed the
/// peer's Receive Maximum.
pub proof fn lemma_admission_keeps_cap(
    before: SharedView,
    after: SharedView,
    wanted: Option<u16>,
    tp: AckType,
    idx: u16,
)
    requires
        before.wf(),
        before.has_credit(),
        started(before, after, wanted, tp, idx),
    ensures
        after.inflight.len() == before.inflight.len() + 1,
        after.inflight.len() <= after.cap,
        after.credit() == before.credit() - 1,
{
}

/// A tombstone does not get in the way of the acknowledgements that
/// follow: once the packet that is due has been given up, the slot that is
/// due is the one that came after it.
pub proof fn lemma_tombstone_is_skipped(s: SharedView, id: u16)
    requires
        s.wf(),
        s.order.len() > 0,
        s.order[0] == id,
        id != 0,
    ensures
        drop_tombstones(tombstoned(s.order, id)) == drop_tombstones(s.order.skip(1)),
{
    let after = tombstoned(s.order, id);
    assert(after[0] == 0);
    assert(after.skip(1) =~= s.order.skip(1)) by {
        assert forall|i: int| 0 <= i < s.order.len() - 1 implies after.skip(1)[i] == s.order.skip(
            1,
        )[i] by {
            assert(s.order[i + 1] != s.order[0]);
        }
    }
}

/// On a closed connection nothing is in flight and nobody waits, whatever
/// was before.
pub proof fn lemma_closed_is_empty(s: SharedView)
    requires
        s.cap <= 65535,
    ensures
        s.closed().wf(),
        !s.closed().open,
        forall|id: u16| !s.closed().inflight.contains_key(id),
        s.closed().order.len() == 0,
        s.closed().waiters.len() == 0,
        s.closed().credit() == s.cap,
{
}

} // verus!
