//! State that the halves of one connection share.
use vstd::prelude::*;
use std::collections::HashMap;
use std::collections::VecDeque;

use ntex_util::channel::pool::{Pool, Receiver, Sender};

use super::codec;
use crate::types::{PUBACK, PUBCOMP, SUBACK, UNSUBACK};

verus! {

/// Kind of acknowledgement that a packet in flight waits for.
#[derive(Debug, Clone, Copy, PartialEq, Eq, Structural)]
pub enum AckType {
    Publish,
    Publish2,
    Subscribe,
    Unsubscribe,
}

impl AckType {
    /// The name under which a protocol error reports this kind.
    pub open spec fn spec_name(self) -> Seq<char> {
        match self {
            AckType::Publish => "Publish"@,
            AckType::Publish2 => "Publish2"@,
            AckType::Subscribe => "Subscribe"@,
            AckType::Unsubscribe => "Unsubscribe"@,
        }
    }

    /// The name under which a protocol error reports this kind.
    pub fn name(&self) -> (s: &'static str)
        ensures
            s@ == self.spec_name(),
    {
        match self {
            AckType::Publish => "Publish",
            AckType::Publish2 => "Publish2",
            AckType::Subscribe => "Subscribe",
            AckType::Unsubscribe => "Unsubscribe",
        }
    }
}

/// An acknowledgement from the peer, whatever its kind.
#[derive(Debug, Clone, PartialEq, Eq)]
pub enum Ack {
    Publish(codec::PublishAck),
    Publish2(codec::PublishAck2),
    Subscribe(codec::SubscribeAck),
    Unsubscribe(codec::UnsubscribeAck),
}

impl Ack {
    /// Type byte of the packet that carried the acknowledgement.
    pub open spec fn spec_packet_type(self) -> u8 {
        match self {
            Ack::Publish(_) => PUBACK,
            Ack::Publish2(_) => PUBCOMP,
            Ack::Subscribe(_) => SUBACK,
            Ack::Unsubscribe(_) => UNSUBACK,
        }
    }

    /// Packet id that the acknowledgement answers.
    pub open spec fn spec_packet_id(self) -> u16 {
        match self {
            Ack::Publish(pkt) => pkt.packet_id,
            Ack::Publish2(pkt) => pkt.packet_id,
            Ack::Subscribe(pkt) => pkt.packet_id,
            Ack::Unsubscribe(pkt) => pkt.packet_id,
        }
    }

    /// Whether the acknowledgement is of the kind `tp`.
    pub open spec fn spec_is_match(self, tp: AckType) -> bool {
        match (self, tp) {
            (Ack::Publish(_), AckType::Publish) => true,
            (Ack::Publish2(_), AckType::Publish2) => true,
            (Ack::Subscribe(_), AckType::Subscribe) => true,
            (Ack::Unsubscribe(_), AckType::Unsubscribe) => true,
            _ => false,
        }
    }

    /// Type byte of the packet that carried the acknowledgement.
    pub fn packet_type(&self) -> (t: u8)
        ensures
            t == self.spec_packet_type(),
    {
        match self {
            Ack::Publish(_) => PUBACK,
            Ack::Publish2(_) => PUBCOMP,
            Ack::Subscribe(_) => SUBACK,
            Ack::Unsubscribe(_) => UNSUBACK,
        }
    }

    /// Packet id that the acknowledgement answers.
    pub fn packet_id(&self) -> (id: u16)
        ensures
            id == self.spec_packet_id(),
    {
        match self {
            Ack::Publish(pkt) => pkt.packet_id,
            Ack::Publish2(pkt) => pkt.packet_id,
            Ack::Subscribe(pkt) => pkt.packet_id,
            Ack::Unsubscribe(pkt) => pkt.packet_id,
        }
    }

    /// Whether the acknowledgement is of the kind `tp`.
    pub fn is_match(&self, tp: AckType) -> (m: bool)
        ensures
            m == self.spec_is_match(tp),
    {
        match (self, tp) {
            (Ack::Publish(_), AckType::Publish) => true,
            (Ack::Publish2(_), AckType::Publish2) => true,
            (Ack::Subscribe(_), AckType::Subscribe) => true,
            (Ack::Unsubscribe(_), AckType::Unsubscribe) => true,
            _ => false,
        }
    }

    /// The PUBACK or PUBREC inside.
    pub fn publish(self) -> (pkt: codec::PublishAck)
        requires
            self is Publish,
        ensures
            self == Ack::Publish(pkt),
    {
        match self {
            Ack::Publish(pkt) => pkt,
            _ => unreached(),
        }
    }

    /// The PUBCOMP inside.
    pub fn publish2(self) -> (pkt: codec::PublishAck2)
        requires
            self is Publish2,
        ensures
            self == Ack::Publish2(pkt),
    {
        match self {
            Ack::Publish2(pkt) => pkt,
            _ => unreached(),
        }
    }

    /// The SUBACK inside.
    pub fn subscribe(self) -> (pkt: codec::SubscribeAck)
        requires
            self is Subscribe,
        ensures
            self == Ack::Subscribe(pkt),
    {
        match self {
            Ack::Subscribe(pkt) => pkt,
            _ => unreached(),
        }
    }

    /// The UNSUBACK inside.
    pub fn unsubscribe(self) -> (pkt: codec::UnsubscribeAck)
        requires
            self is Unsubscribe,
        ensures
            self == Ack::Unsubscribe(pkt),
    {
        match self {
            Ack::Unsubscribe(pkt) => pkt,
            _ => unreached(),
        }
    }
}

/// The id that follows `id` in allocation order: 1 follows 65 535, and 0 is
/// never reached.
pub open spec fn succ_id(id: u16) -> u16 {
    if id == u16::MAX { 1u16 } else { (id + 1) as u16 }
}

/// Number of allocation steps that lead from `last` to the non-zero id `id`:
/// 1 for the id that follows `last`, 65 535 for `last` itself.
pub open spec fn steps(last: u16, id: u16) -> int {
    if id > last { id - last } else { id - last + 65535 }
}

/// `id` is the id to allocate after `last` while the ids in `used` are
/// taken: it is free and not 0, and every id that comes before it in
/// allocation order is taken.
pub open spec fn is_next_id(last: u16, used: Set<u16>, id: u16) -> bool {
    &&& id != 0
    &&& !used.contains(id)
    &&& forall|k: u16| k != 0 && steps(last, k) < steps(last, id) ==> used.contains(k)
}

/// Where the id that follows the id allocated last is free, it is the id to
/// allocate.
pub proof fn lemma_next_id_follows(last: u16, used: Set<u16>)
    requires
        !used.contains(succ_id(last)),
    ensures
        is_next_id(last, used, succ_id(last)),
{
    assert(steps(last, succ_id(last)) == 1);
}

/// The order queue without the tombstones at its front.
pub open spec fn drop_tombstones(order: Seq<u16>) -> Seq<u16>
    decreases order.len(),
{
    if order.len() > 0 && order[0] == 0 {
        drop_tombstones(order.skip(1))
    } else {
        order
    }
}

/// What one connection's shared state holds.
pub struct SharedView {
    /// Whether the connection is open.
    pub open: bool,
    /// The peer's Receive Maximum.
    pub cap: nat,
    /// The id that was allocated last; 0 before the first allocation.
    pub last_id: u16,
    /// The packets in flight by id: for each the sending half of the channel
    /// on which its acknowledgement is awaited, and the kind awaited.
    pub inflight: Map<u16, (Sender<Ack>, AckType)>,
    /// The ids in flight in the order in which they were sent; 0 stands for
    /// a slot whose packet was given up.
    pub order: Seq<u16>,
    /// Those that wait for a send slot, first come first.
    pub waiters: Seq<Sender<()>>,
    /// How many waiters have been told so far that a send slot is free.
    pub signalled: nat,
    /// How many waiters were gone when their turn came: they were to be
    /// told, and their receiving half no longer existed.
    pub gone: nat,
    /// The acknowledgements handed over so far, in the order of their
    /// coming: each with the sending half on which it was sent.
    pub delivered: Seq<(Sender<Ack>, Ack)>,
}

impl SharedView {
    /// The ids that are in use.
    pub open spec fn used(self) -> Set<u16> {
        self.inflight.dom()
    }

    /// The invariant of the queues: no more is in flight than the peer's
    /// Receive Maximum allows, which is at most 65 535; id 0 is never in
    /// flight; what is in flight has exactly one slot in the order queue;
    /// every slot that is no tombstone belongs to a packet in flight.
    pub open spec fn wf(self) -> bool {
        &&& self.cap <= 65535
        &&& self.inflight.dom().finite()
        &&& self.inflight.len() <= self.cap
        &&& !self.inflight.contains_key(0u16)
        &&& forall|i: int|
            0 <= i < self.order.len() && self.order[i] != 0 ==> self.inflight.contains_key(
                #[trigger] self.order[i],
            )
        &&& forall|i: int, j: int|
            0 <= i < j < self.order.len() && self.order[i] != 0 ==> self.order[i] != self.order[j]
        &&& forall|id: u16| self.inflight.contains_key(id) ==> self.order.contains(id)
    }

    /// Whether a further packet may be sent.
    pub open spec fn has_credit(self) -> bool {
        self.inflight.len() < self.cap
    }

    /// How many further packets may be sent.
    pub open spec fn credit(self) -> nat {
        if self.inflight.len() <= self.cap {
            (self.cap - self.inflight.len()) as nat
        } else {
            0
        }
    }

    /// The slot whose acknowledgement is due next, if there is one.
    pub open spec fn head(self) -> Option<u16> {
        let order = drop_tombstones(self.order);
        if order.len() == 0 {
            None
        } else {
            Some(order[0])
        }
    }

    /// The state once the connection is closed: nothing in flight, nobody
    /// waiting.
    pub open spec fn closed(self) -> SharedView {
        SharedView {
            open: false,
            inflight: Map::empty(),
            order: Seq::empty(),
            waiters: Seq::empty(),
            ..self
        }
    }
}

/// There are 65 535 ids other than 0.
pub proof fn lemma_count_ids()
    ensures
        Set::new(|k: u16| k != 0).finite(),
        Set::new(|k: u16| k != 0).len() == 65535,
{
    let all = Set::new(|k: u16| k != 0);
    let ints = vstd::set_lib::set_int_range(1, 65536);
    let f = |i: int| i as u16;
    assert(all =~= ints.map(f)) by {
        assert forall|k: u16| all.contains(k) implies ints.map(f).contains(k) by {
            assert(ints.contains(k as int));
            assert(f(k as int) == k);
        }
    }
    vstd::set_lib::lemma_int_range(1, 65536);
    assert(vstd::relations::injective_on(f, ints));
    vstd::set_lib::lemma_map_size(ints, all, f);
}

/// Among fewer than 65 535 ids in use, some id other than 0 is free.
pub proof fn lemma_free_id(used: Set<u16>)
    requires
        used.finite(),
        used.len() < 65535,
    ensures
        exists|k: u16| k != 0 && !used.contains(k),
{
    if forall|k: u16| k != 0 ==> used.contains(k) {
        let all = Set::new(|k: u16| k != 0);
        lemma_count_ids();
        assert(all.subset_of(used));
        vstd::set_lib::lemma_len_subset(all, used);
    }
}

/// The pools from which the one-shot channels of a connection are taken.
pub(crate) struct MqttSinkPool {
    pub(crate) queue: Pool<Ack>,
    pub(crate) waiters: Pool<()>,
}

/// The state of one connection: its capacity, its id counter and its queues.
pub(crate) struct MqttShared {
    pub(crate) open: bool,
    pub(crate) cap: u16,
    pub(crate) inflight_idx: u16,
    pub(crate) inflight: HashMap<u16, (Sender<Ack>, AckType)>,
    pub(crate) inflight_order: VecDeque<u16>,
    pub(crate) waiters: VecDeque<Sender<()>>,
    pub(crate) signalled: Ghost<nat>,
    pub(crate) gone: Ghost<nat>,
    pub(crate) delivered: Ghost<Seq<(Sender<Ack>, Ack)>>,
    pub(crate) pool: MqttSinkPool,
}

impl MqttShared {
    pub(crate) open spec fn view(&self) -> SharedView {
        SharedView {
            open: self.open,
            cap: self.cap as nat,
            last_id: self.inflight_idx,
            inflight: self.inflight@,
            order: self.inflight_order@,
            waiters: self.waiters@,
            signalled: self.signalled@,
            gone: self.gone@,
            delivered: self.delivered@,
        }
    }

    /// The state of a connection that was just opened.
    pub(crate) fn new(cap: u16) -> (shared: Self)
        ensures
            shared@.wf(),
            shared@.open,
            shared@.cap == cap,
            shared@.last_id == 0,
            shared@.inflight == Map::<u16, (Sender<Ack>, AckType)>::empty(),
            shared@.order == Seq::<u16>::empty(),
            shared@.waiters == Seq::<Sender<()>>::empty(),
            shared@.signalled == 0,
            shared@.gone == 0,
            shared@.delivered == Seq::<(Sender<Ack>, Ack)>::empty(),
    {
        MqttShared {
            open: true,
            cap,
            inflight_idx: 0,
            inflight: HashMap::new(),
            inflight_order: VecDeque::new(),
            waiters: VecDeque::new(),
            signalled: Ghost(0),
            gone: Ghost(0),
            delivered: Ghost(Seq::empty()),
            pool: MqttSinkPool { queue: crate::channel::pool(), waiters: crate::channel::pool() },
        }
    }

    /// Whether a further packet may be sent: fewer are in flight than the
    /// peer's Receive Maximum allows.
    pub(crate) fn has_credit(&self) -> (r: bool)
        ensures
            r == self@.has_credit(),
    {
        self.inflight.len() < self.cap as usize
    }

    /// The next free id: the first one after the id allocated last, in
    /// allocation order, that is not in flight.
    pub(crate) fn next_id(&mut self) -> (id: u16)
        requires
            exists|k: u16| k != 0 && !old(self)@.used().contains(k),
        ensures
            is_next_id(old(self)@.last_id, old(self)@.used(), id),
            final(self)@ == (SharedView { last_id: id, ..old(self)@ }),
    {
        let ghost free: u16 = choose|k: u16| k != 0 && !self@.used().contains(k);
        let ghost last: u16 = self.inflight_idx;
        let mut cand: u16 = if self.inflight_idx == u16::MAX {
            1
        } else {
            self.inflight_idx + 1
        };
        while self.inflight.contains_key(&cand)
            invariant
                cand != 0,
                free != 0,
                !self@.used().contains(free),
                *self == *old(self),
                last == self.inflight_idx,
                steps(last, cand) <= steps(last, free),
                forall|k: u16|
                    k != 0 && steps(last, k) < steps(last, cand) ==> self@.used().contains(k),
            decreases steps(last, free) - steps(last, cand),
        {
            cand = if cand == u16::MAX {
                1
            } else {
                cand + 1
            };
        }
        self.inflight_idx = cand;
        cand
    }
}

} // verus!
