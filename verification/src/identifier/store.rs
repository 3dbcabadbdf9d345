use crate::identifier::Identifier;
use crate::peer::{RadiusPeer, RemoteAddress};
use crate::radius::container::RadiusPacketContainer;
use vstd::prelude::*;

verus! {

/// Where a slot of the store is kept: an identifier and the address of the peer it was
/// handed out to.
#[derive(Debug, Copy, Clone, PartialEq, Eq, Structural)]
pub struct IdentifierStoreIndex {
    pub identifier: Identifier,
    pub remote_address: RemoteAddress,
}

/// Marks what a store slot can hold.
pub trait IdentifierStoreValue {}

/// A slot of the store: the value kept for an identifier, if any, and when it last changed.
pub struct IdentifierStoreSlot<V> {
    value: Option<V>,
    changed_at: u64,
}

/// A slot as a mathematical value.
pub struct IdentifierStoreSlotView<V> {
    pub value: Option<V>,
    pub changed_at: u64,
}

impl<V> View for IdentifierStoreSlot<V> {
    type V = IdentifierStoreSlotView<V>;

    closed spec fn view(&self) -> IdentifierStoreSlotView<V> {
        IdentifierStoreSlotView { value: self.value, changed_at: self.changed_at }
    }
}

impl<V: IdentifierStoreValue> IdentifierStoreSlot<V> {
    pub fn get(&self) -> (value: Option<&V>)
        ensures
            match value {
                Some(v) => self@.value == Some(*v),
                None => self@.value is None,
            },
    {
        self.value.as_ref()
    }

    /// Keeps `value` in the slot, changed at time `now`.
    pub fn set(&mut self, value: V, now: u64)
        ensures
            final(self)@ == (IdentifierStoreSlotView { value: Some(value), changed_at: now }),
    {
        self.value = Some(value);
        self.changed_at = now;
    }

    /// Takes the value out of the slot, leaving it empty; the time stays.
    pub fn take(&mut self) -> (value: Option<V>)
        ensures
            value == old(self)@.value,
            final(self)@ == (IdentifierStoreSlotView { value: None, ..old(self)@ }),
    {
        let mut value = None;
        std::mem::swap(&mut value, &mut self.value);
        value
    }

    pub fn changed_at(&self) -> (changed_at: u64)
        ensures
            changed_at == self@.changed_at,
    {
        self.changed_at
    }
}

/// The index of an identifier handed out to the peer of a container.
pub open spec fn store_index(identifier: Identifier, peer: RadiusPeer) -> IdentifierStoreIndex {
    match peer {
        RadiusPeer::Udp { remote_address } => IdentifierStoreIndex { identifier, remote_address },
    }
}

/// A slot is kept per identifier and per peer address: the index holds the identifier and the
/// peer's remote address, so two requests share a slot only when both the identifier and the
/// peer are the same. A slot taken for one peer leaves that identifier free for any other.
pub proof fn lemma_store_index_separates_peers<V>(
    slots: Map<IdentifierStoreIndex, IdentifierStoreSlotView<V>>,
    identifier: Identifier,
    other_identifier: Identifier,
    peer: RadiusPeer,
    other_peer: RadiusPeer,
    slot: IdentifierStoreSlotView<V>,
)
    ensures
        store_index(identifier, peer).identifier == identifier,
        match peer {
            RadiusPeer::Udp { remote_address } => store_index(identifier, peer).remote_address
                == remote_address,
        },
        store_index(identifier, peer) == store_index(other_identifier, other_peer) <==> (identifier
            == other_identifier && peer == other_peer),
        peer != other_peer && !slots.contains_key(store_index(identifier, other_peer))
            ==> !slots.insert(store_index(identifier, peer), slot).contains_key(
            store_index(identifier, other_peer),
        ),
{
}

/// Whether the cleanup keeps a slot at time `now`: it holds a value and changed less than
/// the allocation timeout before `now`.
pub open spec fn slot_is_live<V>(slot: IdentifierStoreSlotView<V>, now: u64, allocation_timeout: u64) -> bool {
    slot.value is Some && slot.changed_at + allocation_timeout > now
}

/// Values kept per identifier and peer, with a timeout after which the cleanup drops them.
///
/// Times and the allocation timeout are nanoseconds on one monotonic clock.
pub struct IdentifierStore<V> {
    slots: Vec<(IdentifierStoreIndex, IdentifierStoreSlot<V>)>,
    allocation_timeout: u64,
}

/// The position at which a sequence of slots keeps `index`.
pub open spec fn position_of<V>(
    slots: Seq<(IdentifierStoreIndex, IdentifierStoreSlot<V>)>,
    index: IdentifierStoreIndex,
) -> int {
    choose|i: int| 0 <= i < slots.len() && slots[i].0 == index
}

/// No index stands twice in a sequence of slots.
pub open spec fn indexes_distinct<V>(slots: Seq<(IdentifierStoreIndex, IdentifierStoreSlot<V>)>) -> bool {
    forall|i: int, j: int|
        0 <= i < slots.len() && 0 <= j < slots.len() && i != j ==> #[trigger] slots[i].0
            != #[trigger] slots[j].0
}

/// The slots as a map from their indexes.
pub open spec fn slots_map<V>(slots: Seq<(IdentifierStoreIndex, IdentifierStoreSlot<V>)>) -> Map<
    IdentifierStoreIndex,
    IdentifierStoreSlotView<V>,
> {
    Map::new(
        |index: IdentifierStoreIndex| exists|i: int| 0 <= i < slots.len() && slots[i].0 == index,
        |index: IdentifierStoreIndex| slots[position_of(slots, index)].1@,
    )
}

/// With distinct indexes, the slot kept at position `i` is the one the map gives for its
/// index.
pub proof fn lemma_slots_map_at<V>(slots: Seq<(IdentifierStoreIndex, IdentifierStoreSlot<V>)>, i: int)
    requires
        indexes_distinct(slots),
        0 <= i < slots.len(),
    ensures
        slots_map(slots).contains_key(slots[i].0),
        position_of(slots, slots[i].0) == i,
        slots_map(slots)[slots[i].0] == slots[i].1@,
{
    let p = position_of(slots, slots[i].0);
    assert(0 <= p < slots.len() && slots[p].0 == slots[i].0);
}

/// Replacing the slot at a position keeps the indexes distinct, and the map gives the new
/// slot for that position's index.
pub proof fn lemma_slots_map_update<V>(
    slots: Seq<(IdentifierStoreIndex, IdentifierStoreSlot<V>)>,
    position: int,
    slot: IdentifierStoreSlot<V>,
)
    requires
        indexes_distinct(slots),
        0 <= position < slots.len(),
    ensures
        indexes_distinct(slots.update(position, (slots[position].0, slot))),
        slots_map(slots.update(position, (slots[position].0, slot))) == slots_map(slots).insert(
            slots[position].0,
            slot@,
        ),
{
    let index = slots[position].0;
    let after = slots.update(position, (index, slot));
    assert forall|i: int, j: int|
        0 <= i < after.len() && 0 <= j < after.len() && i != j implies #[trigger] after[i].0
        != #[trigger] after[j].0 by {
        assert(after[i].0 == slots[i].0 && after[j].0 == slots[j].0);
    }
    let expected = slots_map(slots).insert(index, slot@);
    assert forall|k: IdentifierStoreIndex| #[trigger] slots_map(after).contains_key(k) <==> expected.contains_key(k) by {
        if slots_map(after).contains_key(k) {
            let i = choose|i: int| 0 <= i < after.len() && after[i].0 == k;
            assert(slots[i].0 == k);
        }
        if slots_map(slots).contains_key(k) {
            let i = choose|i: int| 0 <= i < slots.len() && slots[i].0 == k;
            assert(after[i].0 == k);
        }
        if k == index {
            assert(after[position].0 == k);
        }
    }
    assert forall|k: IdentifierStoreIndex| #[trigger] slots_map(after).contains_key(k) implies slots_map(after)[k] == expected[k] by {
        let i = choose|i: int| 0 <= i < after.len() && after[i].0 == k;
        assert(slots[i].0 == k);
        lemma_slots_map_at(after, i);
        lemma_slots_map_at(slots, i);
    }
    assert(slots_map(after) =~= expected);
}

/// What the store's operations leave behind, read back: a slot just opened is empty and
/// changed at the time it was opened, a closed slot is gone, and the cleanup keeps no slot
/// that holds no value or has timed out.
pub proof fn lemma_store_reads_back<V>(
    slots: Map<IdentifierStoreIndex, IdentifierStoreSlotView<V>>,
    index: IdentifierStoreIndex,
    now: u64,
    allocation_timeout: u64,
)
    ensures
        !slots.contains_key(index) ==> slots.insert(
            index,
            IdentifierStoreSlotView { value: None, changed_at: now },
        )[index] == (IdentifierStoreSlotView::<V> { value: None, changed_at: now }),
        !slots.remove(index).contains_key(index),
        ({
            let cleaned = Map::new(
                |k: IdentifierStoreIndex|
                    slots.contains_key(k) && slot_is_live(slots[k], now, allocation_timeout),
                |k: IdentifierStoreIndex| slots[k],
            );
            forall|k: IdentifierStoreIndex| #[trigger]
                cleaned.contains_key(k) ==> cleaned[k].value is Some && cleaned[k].changed_at
                    + allocation_timeout > now
        }),
{
}

impl<V> View for IdentifierStore<V> {
    type V = Map<IdentifierStoreIndex, IdentifierStoreSlotView<V>>;

    closed spec fn view(&self) -> Map<IdentifierStoreIndex, IdentifierStoreSlotView<V>> {
        slots_map(self.slots@)
    }
}

impl<V> IdentifierStore<V> {
    /// No two slots share an index.
    pub closed spec fn well_formed(&self) -> bool {
        indexes_distinct(self.slots@)
    }
}

impl<V: IdentifierStoreValue> IdentifierStore<V> {
    /// The timeout after which the cleanup drops a slot that has not changed.
    pub closed spec fn spec_allocation_timeout(&self) -> u64 {
        self.allocation_timeout
    }

    pub fn new(allocation_timeout: u64) -> (store: Self)
        ensures
            store.well_formed(),
            store@ == Map::<IdentifierStoreIndex, IdentifierStoreSlotView<V>>::empty(),
            store.spec_allocation_timeout() == allocation_timeout,
    {
        let store = Self { slots: Vec::new(), allocation_timeout };
        assert(store@ =~= Map::<IdentifierStoreIndex, IdentifierStoreSlotView<V>>::empty());
        store
    }

    pub fn allocation_timeout(&self) -> (allocation_timeout: u64)
        ensures
            allocation_timeout == self.spec_allocation_timeout(),
    {
        self.allocation_timeout
    }

    /// How many slots the store keeps.
    pub fn len(&self) -> (length: usize)
        requires
            self.well_formed(),
        ensures
            length == self@.len(),
    {
        proof {
            self.lemma_len();
        }
        self.slots.len()
    }

    proof fn lemma_len(&self)
        requires
            indexes_distinct(self.slots@),
        ensures
            self@.dom().finite(),
            self@.len() == self.slots@.len(),
        decreases self.slots@.len(),
    {
        let slots = self.slots@;
        let keys = Seq::new(slots.len(), |i: int| slots[i].0);
        assert forall|i: int, j: int| 0 <= i < keys.len() && 0 <= j < keys.len() && i != j implies keys[i] != keys[j] by {
            assert(keys[i] == slots[i].0 && keys[j] == slots[j].0);
        }
        assert(self@.dom() =~= keys.to_set()) by {
            assert forall|index: IdentifierStoreIndex| self@.dom().contains(index) implies keys.to_set().contains(index) by {
                let i = choose|i: int| 0 <= i < slots.len() && slots[i].0 == index;
                assert(keys[i] == index);
            }
            assert forall|index: IdentifierStoreIndex| keys.to_set().contains(index) implies self@.dom().contains(index) by {
                let i = choose|i: int| 0 <= i < keys.len() && keys[i] == index;
                assert(slots[i].0 == index);
            }
        }
        keys.unique_seq_to_set();
    }

    /// The position of `index` among the slots, if the store keeps it.
    fn find(&self, index: IdentifierStoreIndex) -> (position: Option<usize>)
        ensures
            match position {
                Some(p) => p < self.slots@.len() && self.slots@[p as int].0 == index,
                None => !self@.contains_key(index),
            },
    {
        let mut i: usize = 0;
        while i < self.slots.len()
            invariant
                i <= self.slots@.len(),
                forall|j: int| 0 <= j < i ==> #[trigger] self.slots@[j].0 != index,
            decreases self.slots@.len() - i,
        {
            if self.slots[i].0 == index {
                return Some(i);
            }
            i = i + 1;
        }
        None
    }

    /// Opens an empty slot for the identifier and the peer of the container, changed at
    /// `now`; fails, changing nothing, where that slot is open already.
    pub fn allocate(
        &mut self,
        identifier: Identifier,
        packet_container: &RadiusPacketContainer,
        now: u64,
    ) -> (result: Result<(), ()>)
        requires
            old(self).well_formed(),
        ensures
            final(self).well_formed(),
            final(self).spec_allocation_timeout() == old(self).spec_allocation_timeout(),
            old(self)@.contains_key(store_index(identifier, packet_container@.peer)) ==> result
                is Err && final(self)@ == old(self)@,
            !old(self)@.contains_key(store_index(identifier, packet_container@.peer)) ==> result
                is Ok && final(self)@ == old(self)@.insert(
                store_index(identifier, packet_container@.peer),
                IdentifierStoreSlotView { value: None, changed_at: now },
            ),
    {
        let index = IdentifierStoreIndex {
            identifier,
            remote_address: packet_container.remote_address(),
        };
        assert(index == store_index(identifier, packet_container@.peer));
        match self.find(index) {
            Some(position) => {
                proof {
                    lemma_slots_map_at(self.slots@, position as int);
                }
                Err(())
            },
            None => {
                let ghost before = self.slots@;
                let slot = IdentifierStoreSlot { value: None, changed_at: now };
                self.slots.push((index, slot));
                proof {
                    let after = self.slots@;
                    assert(indexes_distinct(after)) by {
                        assert forall|i: int, j: int|
                            0 <= i < after.len() && 0 <= j < after.len() && i != j implies #[trigger] after[i].0
                            != #[trigger] after[j].0 by {
                            if i < before.len() && j < before.len() {
                                assert(after[i] == before[i] && after[j] == before[j]);
                            } else if i < before.len() {
                                assert(after[i] == before[i]);
                                assert(slots_map(before).contains_key(before[i].0)) by {
                                    assert(0 <= i < before.len() && before[i].0 == before[i].0);
                                }
                            } else {
                                assert(after[j] == before[j]);
                                assert(slots_map(before).contains_key(before[j].0)) by {
                                    assert(0 <= j < before.len() && before[j].0 == before[j].0);
                                }
                            }
                        }
                    }
                    assert(slots_map(after) =~= slots_map(before).insert(
                        index,
                        IdentifierStoreSlotView { value: None, changed_at: now },
                    )) by {
                        assert forall|k: IdentifierStoreIndex| #[trigger] slots_map(after).contains_key(k) <==> slots_map(before).insert(index, IdentifierStoreSlotView { value: None, changed_at: now }).contains_key(k) by {
                            if slots_map(before).contains_key(k) {
                                let i = choose|i: int| 0 <= i < before.len() && before[i].0 == k;
                                assert(after[i] == before[i]);
                            }
                            if k == index {
                                assert(after[before.len() as int].0 == index);
                            }
                            if slots_map(after).contains_key(k) && k != index {
                                let i = choose|i: int| 0 <= i < after.len() && after[i].0 == k;
                                assert(i < before.len());
                                assert(after[i] == before[i]);
                            }
                        }
                        assert forall|k: IdentifierStoreIndex| #[trigger] slots_map(after).contains_key(k) implies slots_map(after)[k] == slots_map(before).insert(index, IdentifierStoreSlotView { value: None, changed_at: now })[k] by {
                            if k == index {
                                lemma_slots_map_at(after, before.len() as int);
                            } else {
                                let i = choose|i: int| 0 <= i < after.len() && after[i].0 == k;
                                assert(i < before.len());
                                assert(after[i] == before[i]);
                                lemma_slots_map_at(after, i);
                                lemma_slots_map_at(before, i);
                            }
                        }
                    }
                }
                Ok(())
            },
        }
    }

    /// Closes the slot of the identifier and the peer of the container and hands it back;
    /// `None`, changing nothing, where no such slot is open.
    pub fn deallocate(
        &mut self,
        identifier: Identifier,
        packet_container: &RadiusPacketContainer,
    ) -> (slot: Option<IdentifierStoreSlot<V>>)
        requires
            old(self).well_formed(),
        ensures
            final(self).well_formed(),
            final(self).spec_allocation_timeout() == old(self).spec_allocation_timeout(),
            match slot {
                Some(s) => old(self)@.contains_key(store_index(identifier, packet_container@.peer))
                    && s@ == old(self)@[store_index(identifier, packet_container@.peer)]
                    && final(self)@ == old(self)@.remove(
                    store_index(identifier, packet_container@.peer),
                ),
                None => !old(self)@.contains_key(store_index(identifier, packet_container@.peer))
                    && final(self)@ == old(self)@,
            },
    {
        let index = IdentifierStoreIndex {
            identifier,
            remote_address: packet_container.remote_address(),
        };
        match self.find(index) {
            Some(position) => {
                let ghost before = self.slots@;
                proof {
                    lemma_slots_map_at(before, position as int);
                }
                let (_, slot) = self.slots.swap_remove(position);
                proof {
                    let after = self.slots@;
                    let last = before.len() - 1;
                    assert(after =~= before.update(position as int, before[last]).drop_last());
                    assert forall|i: int| 0 <= i < after.len() implies #[trigger] after[i] == before[
                        if i == position { last } else { i }
                    ] by {}
                    assert(indexes_distinct(after)) by {
                        assert forall|i: int, j: int|
                            0 <= i < after.len() && 0 <= j < after.len() && i != j implies #[trigger] after[i].0
                            != #[trigger] after[j].0 by {
                            let bi = if i == position { last } else { i };
                            let bj = if j == position { last } else { j };
                            assert(after[i] == before[bi] && after[j] == before[bj]);
                        }
                    }
                    let removed = slots_map(before).remove(index);
                    assert forall|k: IdentifierStoreIndex| #[trigger] slots_map(after).contains_key(k) <==> removed.contains_key(k) by {
                        if slots_map(after).contains_key(k) {
                            let i = choose|i: int| 0 <= i < after.len() && after[i].0 == k;
                            let bi = if i == position { last } else { i };
                            assert(after[i] == before[bi]);
                            assert(bi != position);
                        }
                        if removed.contains_key(k) {
                            let b = choose|b: int| 0 <= b < before.len() && before[b].0 == k;
                            assert(b != position);
                            if b == last {
                                assert(after[position as int] == before[b]);
                            } else {
                                assert(after[b] == before[b]);
                            }
                        }
                    }
                    assert forall|k: IdentifierStoreIndex| #[trigger] slots_map(after).contains_key(k) implies slots_map(after)[k] == removed[k] by {
                        let i = choose|i: int| 0 <= i < after.len() && after[i].0 == k;
                        let bi = if i == position { last } else { i };
                        assert(after[i] == before[bi]);
                        lemma_slots_map_at(after, i);
                        lemma_slots_map_at(before, bi);
                    }
                    assert(slots_map(after) =~= removed);
                }
                Some(slot)
            },
            None => None,
        }
    }

    /// The slot of the identifier and the peer of the container, where it is open.
    pub fn get(&self, identifier: Identifier, packet_container: &RadiusPacketContainer) -> (slot:
        Option<&IdentifierStoreSlot<V>>)
        requires
            self.well_formed(),
        ensures
            match slot {
                Some(s) => self@.contains_key(store_index(identifier, packet_container@.peer))
                    && s@ == self@[store_index(identifier, packet_container@.peer)],
                None => !self@.contains_key(store_index(identifier, packet_container@.peer)),
            },
    {
        let index = IdentifierStoreIndex {
            identifier,
            remote_address: packet_container.remote_address(),
        };
        match self.find(index) {
            Some(position) => {
                proof {
                    lemma_slots_map_at(self.slots@, position as int);
                }
                Some(&self.slots[position].1)
            },
            None => None,
        }
    }

    /// The slot of the identifier and the peer of the container, to change in place, where it
    /// is open.
    pub fn get_mut(
        &mut self,
        identifier: Identifier,
        packet_container: &RadiusPacketContainer,
    ) -> (slot: Option<&mut IdentifierStoreSlot<V>>)
        requires
            old(self).well_formed(),
        ensures
            final(self).well_formed(),
            final(self).spec_allocation_timeout() == old(self).spec_allocation_timeout(),
            match slot {
                Some(s) => old(self)@.contains_key(store_index(identifier, packet_container@.peer))
                    && s@ == old(self)@[store_index(identifier, packet_container@.peer)]
                    && final(self)@ == old(self)@.insert(
                    store_index(identifier, packet_container@.peer),
                    final(s)@,
                ),
                None => !old(self)@.contains_key(store_index(identifier, packet_container@.peer))
                    && final(self)@ == old(self)@,
            },
    {
        let index = IdentifierStoreIndex {
            identifier,
            remote_address: packet_container.remote_address(),
        };
        match self.find(index) {
            Some(position) => {
                proof {
                    lemma_slots_map_at(self.slots@, position as int);
                    assert forall|slot: IdentifierStoreSlot<V>|
                        indexes_distinct(#[trigger] self.slots@.update(position as int, (index, slot)))
                            && slots_map(self.slots@.update(position as int, (index, slot)))
                            == slots_map(self.slots@).insert(index, slot@) by {
                        lemma_slots_map_update(self.slots@, position as int, slot);
                    }
                }
                let entry = &mut self.slots[position];
                Some(&mut entry.1)
            },
            None => None,
        }
    }

    /// Drops, as of time `now`, the slots that hold no value and those that have not changed
    /// for the allocation timeout.
    pub fn cleanup(&mut self, now: u64)
        requires
            old(self).well_formed(),
        ensures
            final(self).well_formed(),
            final(self).spec_allocation_timeout() == old(self).spec_allocation_timeout(),
            final(self)@ == Map::new(
                |index: IdentifierStoreIndex|
                    old(self)@.contains_key(index) && slot_is_live(
                        old(self)@[index],
                        now,
                        old(self).spec_allocation_timeout(),
                    ),
                |index: IdentifierStoreIndex| old(self)@[index],
            ),
    {
        let ghost before = self.slots@;
        let timeout = self.allocation_timeout;
        let mut remaining: Vec<(IdentifierStoreIndex, IdentifierStoreSlot<V>)> = Vec::new();
        std::mem::swap(&mut remaining, &mut self.slots);
        let mut kept: Vec<(IdentifierStoreIndex, IdentifierStoreSlot<V>)> = Vec::new();
        let ghost mut origin: Seq<int> = Seq::empty();
        while remaining.len() > 0
            invariant
                indexes_distinct(before),
                remaining@.len() <= before.len(),
                remaining@ == before.take(remaining@.len() as int),
                kept@.len() == origin.len(),
                forall|i: int|
                    0 <= i < origin.len() ==> remaining@.len() <= #[trigger] origin[i] < before.len()
                        && kept@[i] == before[origin[i]],
                forall|i: int, j: int| 0 <= i < j < origin.len() ==> #[trigger] origin[i] > #[trigger] origin[j],
                forall|i: int| 0 <= i < kept@.len() ==> slot_is_live(#[trigger] kept@[i].1@, now, timeout),
                forall|b: int|
                    remaining@.len() <= b < before.len() && slot_is_live(#[trigger] before[b].1@, now, timeout)
                        ==> exists|i: int| 0 <= i < origin.len() && origin[i] == b,
            decreases remaining@.len(),
        {
            let ghost n = remaining@.len() - 1;
            let entry = remaining.pop().unwrap();
            assert(remaining@ =~= before.take(n));
            assert(entry == before[n]);
            let live = match &entry.1.value {
                Some(_) => entry.1.changed_at as u128 + timeout as u128 > now as u128,
                None => false,
            };
            assert(live == slot_is_live(before[n].1@, now, timeout));
            let ghost old_origin = origin;
            if live {
                kept.push(entry);
                proof {
                    origin = origin.push(n);
                    assert(origin[origin.len() - 1] == n);
                }
            }
            proof {
                assert forall|b: int|
                    remaining@.len() <= b < before.len() && slot_is_live(#[trigger] before[b].1@, now, timeout)
                        implies exists|i: int| 0 <= i < origin.len() && origin[i] == b by {
                    if b == n {
                        assert(origin[origin.len() - 1] == n);
                    } else {
                        let i = choose|i: int| 0 <= i < old_origin.len() && old_origin[i] == b;
                        assert(origin[i] == b);
                    }
                }
            }
        }
        proof {
            let result = kept@;
            assert(indexes_distinct(result)) by {
                assert forall|i: int, j: int|
                    0 <= i < result.len() && 0 <= j < result.len() && i != j implies #[trigger] result[i].0
                    != #[trigger] result[j].0 by {
                    assert(origin[i] != origin[j]) by {
                        if i < j {
                            assert(origin[i] > origin[j]);
                        } else {
                            assert(origin[j] > origin[i]);
                        }
                    }
                    assert(result[i] == before[origin[i]] && result[j] == before[origin[j]]);
                }
            }
            let target = Map::new(
                |index: IdentifierStoreIndex|
                    slots_map(before).contains_key(index) && slot_is_live(
                        slots_map(before)[index],
                        now,
                        timeout,
                    ),
                |index: IdentifierStoreIndex| slots_map(before)[index],
            );
            assert forall|k: IdentifierStoreIndex| #[trigger] slots_map(result).contains_key(k) <==> target.contains_key(k) by {
                if slots_map(result).contains_key(k) {
                    let i = choose|i: int| 0 <= i < result.len() && result[i].0 == k;
                    assert(result[i] == before[origin[i]]);
                    lemma_slots_map_at(before, origin[i]);
                    assert(slot_is_live(result[i].1@, now, timeout));
                }
                if target.contains_key(k) {
                    let b = choose|b: int| 0 <= b < before.len() && before[b].0 == k;
                    lemma_slots_map_at(before, b);
                    assert(slot_is_live(before[b].1@, now, timeout));
                    let i = choose|i: int| 0 <= i < origin.len() && origin[i] == b;
                    assert(result[i] == before[b]);
                }
            }
            assert forall|k: IdentifierStoreIndex| #[trigger] slots_map(result).contains_key(k) implies slots_map(result)[k] == target[k] by {
                let i = choose|i: int| 0 <= i < result.len() && result[i].0 == k;
                assert(result[i] == before[origin[i]]);
                lemma_slots_map_at(result, i);
                lemma_slots_map_at(before, origin[i]);
            }
            assert(slots_map(result) =~= target);
        }
        self.slots = kept;
    }
}

} // verus!
