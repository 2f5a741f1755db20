//! Which streams a connection is serving.

use std::collections::HashSet;

use slab::Slab;
use vstd::prelude::*;

use crate::config::RammuxRole;
use crate::stream_id::{initiator_of, slot_value, StreamId, MAX_STREAM_ID};

verus! {

/// `slab::Slab`: values in numbered slots, where a freed slot is used again.
#[verifier::external_type_specification]
#[verifier::external_body]
#[verifier::reject_recursive_types(T)]
pub struct ExSlab<T>(slab::Slab<T>);

/// The occupied slots of a slab and what they hold.
pub uninterp spec fn slab_slots(s: slab::Slab<u32>) -> Map<usize, u32>;

/// The slots of a slab that were freed, in the order in which they are used
/// again.
pub uninterp spec fn slab_free(s: slab::Slab<u32>) -> Seq<usize>;

/// The slot that the next value of a slab goes to: the first one that was freed,
/// or else a new one behind those there are.
pub open spec fn next_slot(slots: Map<usize, u32>, free: Seq<usize>) -> int {
    if free.len() > 0 {
        free[0] as int
    } else {
        slots.len() as int
    }
}

/// No slot occupied.
pub open spec fn no_slots() -> Map<usize, u32> {
    Map::empty()
}

/// `Slab::new` has no slot occupied, and none that was freed.
#[verifier::external_body]
fn slab_new() -> (r: Slab<u32>)
    ensures
        slab_slots(r) == no_slots(),
        slab_free(r) == Seq::<usize>::empty(),
{
    Slab::new()
}

/// `Slab::len` counts the occupied slots.
#[verifier::external_body]
fn slab_len(s: &Slab<u32>) -> (r: usize)
    ensures
        r == slab_slots(*s).len(),
{
    s.len()
}

/// `Slab::vacant_key` names the slot that the next value goes to: the one that
/// was freed last, or else the one behind all there are.
#[verifier::external_body]
fn slab_vacant_key(s: &Slab<u32>) -> (r: usize)
    ensures
        r == next_slot(slab_slots(*s), slab_free(*s)),
{
    s.vacant_key()
}

/// `Slab::insert` puts a value into the vacant slot and returns the slot. It
/// may add one slot behind those it has, which panics where the memory for
/// them would exceed `isize::MAX` bytes: a slot takes at most 16.
#[verifier::external_body]
fn slab_insert(s: &mut Slab<u32>, value: u32) -> (r: usize)
    requires
        slab_slots(*old(s)).len() + slab_free(*old(s)).len() <= MAX_STREAM_ID,
    ensures
        r == next_slot(slab_slots(*old(s)), slab_free(*old(s))),
        slab_slots(*final(s)) == slab_slots(*old(s)).insert(r, value),
        slab_free(*final(s)) == if slab_free(*old(s)).len() > 0 {
            slab_free(*old(s)).drop_first()
        } else {
            slab_free(*old(s))
        },
{
    s.insert(value)
}

/// `Slab::contains` says whether a slot is occupied.
#[verifier::external_body]
fn slab_contains(s: &Slab<u32>, key: usize) -> (r: bool)
    ensures
        r == slab_slots(*s).contains_key(key),
{
    s.contains(key)
}

/// `Slab::remove` empties an occupied slot, which is the next to be used again.
/// It panics on a vacant one.
#[verifier::external_body]
fn slab_remove(s: &mut Slab<u32>, key: usize) -> (r: u32)
    requires
        slab_slots(*old(s)).contains_key(key),
    ensures
        r == slab_slots(*old(s))[key],
        slab_slots(*final(s)) == slab_slots(*old(s)).remove(key),
        slab_free(*final(s)) == seq![key] + slab_free(*old(s)),
{
    s.remove(key)
}

/// The active streams of a connection, by ID.
pub struct ActiveStreams {
    /// Outbound streams: the value of the ID in the slot that it comes from.
    ///
    /// We control the IDs of outbound streams, so we can use a [`Slab`]
    /// allocator. It gives us two things for free:
    /// 1. Faster access by ID.
    /// 2. Automatic reuse of freed IDs.
    outbound: Slab<u32>,
    /// Inbound streams: the values of their IDs, which we do not control.
    inbound: HashSet<u32>,
}

/// An [`ActiveStreams`] as a mathematical value.
#[verifier::ext_equal]
pub ghost struct StreamsView {
    pub outbound: Map<usize, u32>,
    pub inbound: Set<u32>,
    pub free: Seq<usize>,
}

/// How many IDs each side has to start streams with.
pub const IDS_PER_ROLE: u32 = 0x0080_0000;

impl View for ActiveStreams {
    type V = StreamsView;

    closed spec fn view(&self) -> StreamsView {
        StreamsView {
            outbound: slab_slots(self.outbound),
            inbound: self.inbound@,
            free: slab_free(self.outbound),
        }
    }
}

impl StreamsView {
    /// How many slots there are for outbound streams.
    pub open spec fn slots(self) -> int {
        (self.outbound.len() + self.free.len()) as int
    }

    /// The slot that the next outbound stream goes to.
    pub open spec fn next(self) -> int {
        next_slot(self.outbound, self.free)
    }

    /// Every slot is either occupied or free.
    pub open spec fn tidy(self) -> bool {
        &&& self.outbound.dom().finite()
        &&& forall|k: usize| #[trigger] self.outbound.contains_key(k) ==> k < self.slots()
        &&& forall|i: int|
            0 <= i < self.free.len() ==> #[trigger] self.free[i] < self.slots()
                && !self.outbound.contains_key(self.free[i])
        &&& self.free.no_duplicates()
    }

    /// Every stream stands where its ID says, as seen from the given role, and
    /// there are no more than the limits allow, nor slots for more.
    pub open spec fn valid(self, role: RammuxRole, max_outbound: u32, max_inbound: u32) -> bool {
        &&& self.tidy()
        &&& self.inbound.finite()
        &&& self.slots() <= max_outbound
        &&& self.slots() <= IDS_PER_ROLE
        &&& self.inbound.len() <= max_inbound
        &&& forall|k: usize| #[trigger]
            self.outbound.contains_key(k) ==> self.outbound[k] == slot_value(k as int, role)
                && self.outbound[k] <= MAX_STREAM_ID
        &&& forall|v: u32| #[trigger]
            self.inbound.contains(v) ==> v <= MAX_STREAM_ID && initiator_of(v) != role
    }

    /// Whether the stream with the given ID is active.
    pub open spec fn contains(self, id: StreamId, role: RammuxRole) -> bool {
        if initiator_of(id@) == role {
            self.outbound.contains_key((id@ / 2) as usize)
        } else {
            self.inbound.contains(id@)
        }
    }

    /// Without the stream with the given ID.
    pub open spec fn without(self, id: StreamId, role: RammuxRole) -> Self {
        if initiator_of(id@) == role {
            let slot = (id@ / 2) as usize;
            if self.outbound.contains_key(slot) {
                StreamsView {
                    outbound: self.outbound.remove(slot),
                    free: seq![slot] + self.free,
                    ..self
                }
            } else {
                self
            }
        } else {
            StreamsView { inbound: self.inbound.remove(id@), ..self }
        }
    }

    /// With an outbound stream in the next slot.
    pub open spec fn with_outbound(self, id: StreamId) -> Self {
        StreamsView {
            outbound: self.outbound.insert(self.next() as usize, id@),
            free: if self.free.len() > 0 {
                self.free.drop_first()
            } else {
                self.free
            },
            ..self
        }
    }
}

/// The next slot is not occupied, and taking it leaves the others in place.
pub proof fn next_slot_is_vacant(v: StreamsView, id: StreamId)
    requires
        v.tidy(),
        v.slots() <= IDS_PER_ROLE,
    ensures
        0 <= v.next() <= v.slots(),
        v.next() <= v.outbound.len() || v.free.len() > 0,
        v.free.len() > 0 ==> v.next() < v.slots(),
        !v.outbound.contains_key(v.next() as usize),
        v.with_outbound(id).tidy(),
        v.with_outbound(id).slots() == if v.free.len() > 0 {
            v.slots()
        } else {
            v.slots() + 1
        },
{
    let next = v.next() as usize;
    let after = v.with_outbound(id);
    if v.free.len() > 0 {
        assert(!v.outbound.contains_key(v.free[0]));
        assert forall|i: int| 0 <= i < after.free.len() implies #[trigger] after.free[i]
            < after.slots() && !after.outbound.contains_key(after.free[i]) by {
            assert(after.free[i] == v.free[i + 1]);
        }
        assert(after.free.no_duplicates()) by {
            assert forall|i: int, j: int|
                0 <= i < after.free.len() && 0 <= j < after.free.len() && i
                    != j implies after.free[i] != after.free[j] by {
                assert(after.free[i] == v.free[i + 1] && after.free[j] == v.free[j + 1]);
            }
        }
    }
}

impl ActiveStreams {
    /// No streams.
    pub fn new() -> (r: Self)
        ensures
            r@ == (StreamsView {
                outbound: no_slots(),
                inbound: Set::empty(),
                free: Seq::empty(),
            }),
    {
        ActiveStreams { outbound: slab_new(), inbound: HashSet::new() }
    }

    /// Number of outbound streams.
    pub fn outbound_len(&self) -> (r: usize)
        ensures
            r == self@.outbound.len(),
    {
        slab_len(&self.outbound)
    }

    /// Number of inbound streams.
    pub fn inbound_len(&self) -> (r: usize)
        ensures
            r == self@.inbound.len(),
    {
        self.inbound.len()
    }

    /// The slot that the next outbound stream goes to.
    pub fn vacant_slot(&self) -> (r: usize)
        ensures
            r == self@.next(),
    {
        slab_vacant_key(&self.outbound)
    }

    /// Whether the stream with the given ID is active.
    pub fn contains(&self, id: StreamId, role: RammuxRole) -> (r: bool)
        ensures
            r == self@.contains(id, role),
    {
        if id.initiated_by() == role {
            slab_contains(&self.outbound, id.slab_idx())
        } else {
            self.inbound.contains(&id.value())
        }
    }

    /// Adds an outbound stream, whose ID is that of the vacant slot.
    pub fn start_outbound(&mut self, id: StreamId)
        requires
            old(self)@.slots() <= IDS_PER_ROLE,
        ensures
            final(self)@ == old(self)@.with_outbound(id),
    {
        slab_insert(&mut self.outbound, id.value());
    }

    /// Adds an inbound stream.
    pub fn start_inbound(&mut self, id: StreamId)
        ensures
            final(self)@ == (StreamsView {
                inbound: old(self)@.inbound.insert(id@),
                ..old(self)@
            }),
    {
        self.inbound.insert(id.value());
    }

    /// Removes the stream with the given ID, if it is active.
    pub fn remove(&mut self, id: StreamId, role: RammuxRole)
        ensures
            final(self)@ == old(self)@.without(id, role),
    {
        if id.initiated_by() == role {
            let slot: usize = id.slab_idx();
            if slab_contains(&self.outbound, slot) {
                slab_remove(&mut self.outbound, slot);
            }
        } else {
            let value: u32 = id.value();
            self.inbound.remove(&value);
        }
    }
}

} // verus!
