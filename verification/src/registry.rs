//! A table keyed by identity, the shape that both process-wide registries
//! share. Each identity has at most one slot.
//!
//! The table is a list of slots that is searched by comparing names, so that
//! what a lookup finds follows from the list alone and every operation can be
//! proved against the map that the list stands for.

use crate::identity::Identity;
use vstd::prelude::*;

verus! {

/// One identity and what is kept for it.
pub struct Slot<V> {
    pub identity: Identity,
    pub value: V,
}

/// The slots of a table. No identity occurs twice.
pub struct Registry<V> {
    slots: Vec<Slot<V>>,
}

/// Whether some slot is kept for `identity`.
pub open spec fn has_slot<V>(slots: Seq<Slot<V>>, identity: Seq<char>) -> bool {
    exists|i: int| 0 <= i < slots.len() && (#[trigger] slots[i]).identity@ == identity
}

/// The position of a slot kept for `identity`.
pub open spec fn slot_position<V>(slots: Seq<Slot<V>>, identity: Seq<char>) -> int {
    choose|i: int| 0 <= i < slots.len() && (#[trigger] slots[i]).identity@ == identity
}

/// Whether no identity occurs twice.
pub open spec fn distinct_slots<V>(slots: Seq<Slot<V>>) -> bool {
    forall|i: int, j: int|
        0 <= i < j < slots.len() ==> (#[trigger] slots[i]).identity@ != (#[trigger] slots[j]).identity@
}

/// The table that a list of slots stands for.
pub open spec fn slots_map<V>(slots: Seq<Slot<V>>) -> Map<Seq<char>, V> {
    Map::new(
        |identity: Seq<char>| has_slot(slots, identity),
        |identity: Seq<char>| slots[slot_position(slots, identity)].value,
    )
}

/// A slot's identity is a key of the table, and the table holds its value.
pub proof fn lemma_slot_in_map<V>(slots: Seq<Slot<V>>, i: int)
    requires
        distinct_slots(slots),
        0 <= i < slots.len(),
    ensures
        slots_map(slots).contains_key(slots[i].identity@),
        slots_map(slots)[slots[i].identity@] == slots[i].value,
        slot_position(slots, slots[i].identity@) == i,
{
    let identity = slots[i].identity@;
    assert(has_slot(slots, identity));
    let j = slot_position(slots, identity);
    assert(0 <= j < slots.len() && slots[j].identity@ == identity);
    if j != i {
        if j < i {
            assert(slots[j].identity@ != slots[i].identity@);
        } else {
            assert(slots[i].identity@ != slots[j].identity@);
        }
    }
}

impl<V> Registry<V> {
    /// Whether the table is well formed: no identity has two slots.
    pub closed spec fn wf(&self) -> bool {
        distinct_slots(self.slots@)
    }

    /// The table as a map from the characters of an identity to its value.
    pub closed spec fn view(&self) -> Map<Seq<char>, V> {
        slots_map(self.slots@)
    }

    /// The empty table.
    pub fn new() -> (registry: Registry<V>)
        ensures
            registry.wf(),
            registry@ == Map::<Seq<char>, V>::empty(),
    {
        let registry = Registry { slots: Vec::new() };
        assert(registry@ =~= Map::<Seq<char>, V>::empty());
        registry
    }

    /// Where the slot of `identity` stands.
    fn position(&self, identity: &Identity) -> (found: Option<usize>)
        requires
            self.wf(),
        ensures
            match found {
                Some(i) => i < self.slots@.len() && self.slots@[i as int].identity@ == identity@,
                None => !has_slot(self.slots@, identity@),
            },
    {
        let mut i: usize = 0;
        while i < self.slots.len()
            invariant
                i <= self.slots@.len(),
                forall|j: int| 0 <= j < i ==> (#[trigger] self.slots@[j]).identity@ != identity@,
            decreases self.slots@.len() - i,
        {
            if self.slots[i].identity == *identity {
                return Some(i);
            }
            i += 1;
        }
        None
    }

    /// Whether the table has a slot for `identity`.
    pub fn contains(&self, identity: &Identity) -> (found: bool)
        requires
            self.wf(),
        ensures
            found == self@.contains_key(identity@),
    {
        self.position(identity).is_some()
    }

    /// What the table keeps for `identity`.
    pub fn get(&self, identity: &Identity) -> (found: Option<&V>)
        requires
            self.wf(),
        ensures
            match found {
                Some(value) => self@.contains_key(identity@) && *value == self@[identity@],
                None => !self@.contains_key(identity@),
            },
    {
        match self.position(identity) {
            Some(i) => {
                proof {
                    lemma_slot_in_map(self.slots@, i as int);
                }
                Some(&self.slots[i].value)
            },
            None => None,
        }
    }

    /// Keeps `value` for `identity`, in place of what was kept for it before.
    /// Every other identity keeps what it had.
    pub fn insert(&mut self, identity: Identity, value: V)
        requires
            old(self).wf(),
        ensures
            final(self).wf(),
            final(self)@ == old(self)@.insert(identity@, value),
    {
        let ghost before = self.slots@;
        match self.position(&identity) {
            Some(i) => {
                proof {
                    lemma_slot_replaced(before, i as int, Slot { identity, value });
                }
                self.slots.set(i, Slot { identity, value });
            },
            None => {
                proof {
                    lemma_slot_added(before, Slot { identity, value });
                }
                self.slots.push(Slot { identity, value });
            },
        }
    }

    /// What the table keeps for `identity`, for the caller to change. An
    /// identity without a slot gets one first, which keeps `fallback`. Every
    /// other identity keeps what it had.
    pub fn get_or_insert(&mut self, identity: &Identity, fallback: V) -> (value: &mut V)
        requires
            old(self).wf(),
        ensures
            *value == (if old(self)@.contains_key(identity@) {
                old(self)@[identity@]
            } else {
                fallback
            }),
            final(self).wf(),
            final(self)@ == old(self)@.insert(identity@, *final(value)),
    {
        let i = match self.position(identity) {
            Some(i) => i,
            None => {
                let slot = Slot { identity: identity.clone(), value: fallback };
                proof {
                    lemma_slot_added(self.slots@, slot);
                }
                self.slots.push(slot);
                self.slots.len() - 1
            },
        };
        let ghost now = self.slots@;
        proof {
            lemma_slot_in_map(now, i as int);
        }
        let value = &mut self.slots[i].value;
        proof {
            lemma_slot_replaced(
                now,
                i as int,
                Slot { identity: now[i as int].identity, value: *final(value) },
            );
        }
        value
    }

    /// Drops the slot of `identity` and hands out what it kept. Every other
    /// identity keeps what it had.
    pub fn remove(&mut self, identity: &Identity) -> (removed: Option<V>)
        requires
            old(self).wf(),
        ensures
            final(self).wf(),
            final(self)@ == old(self)@.remove(identity@),
            match removed {
                Some(value) => old(self)@.contains_key(identity@) && value == old(self)@[identity@],
                None => !old(self)@.contains_key(identity@),
            },
    {
        let ghost before = self.slots@;
        match self.position(identity) {
            Some(i) => {
                proof {
                    lemma_slot_in_map(before, i as int);
                }
                let slot = self.slots.remove(i);
                let ghost after = self.slots@;
                proof {
                    assert forall|j: int| 0 <= j < after.len() implies #[trigger] after[j]
                        == before[if j < i { j } else { j + 1 }] by {}
                    assert(distinct_slots(after)) by {
                        assert forall|a: int, b: int| 0 <= a < b < after.len() implies (
                        #[trigger] after[a]).identity@ != (#[trigger] after[b]).identity@ by {
                            let a0 = if a < i { a } else { a + 1 };
                            let b0 = if b < i { b } else { b + 1 };
                            assert(before[a0].identity@ != before[b0].identity@);
                        }
                    }
                    assert forall|key: Seq<char>| has_slot(after, key) == (key != identity@
                        && has_slot(before, key)) by {
                        if has_slot(after, key) {
                            let j = slot_position(after, key);
                            let j0 = if j < i { j } else { j + 1 };
                            assert(before[j0].identity@ == key);
                            if j0 < i {
                                assert(before[j0].identity@ != before[i as int].identity@);
                            } else {
                                assert(before[i as int].identity@ != before[j0].identity@);
                            }
                        }
                        if key != identity@ && has_slot(before, key) {
                            let j = slot_position(before, key);
                            let j1 = if j < i { j } else { j - 1 };
                            assert(after[j1].identity@ == key);
                        }
                    }
                    assert forall|key: Seq<char>| has_slot(after, key) implies slots_map(
                        after,
                    )[key] == slots_map(before)[key] by {
                        let j = slot_position(after, key);
                        let j0 = if j < i { j } else { j + 1 };
                        lemma_slot_in_map(after, j);
                        lemma_slot_in_map(before, j0);
                    }
                    assert(slots_map(after) =~= slots_map(before).remove(identity@));
                }
                Some(slot.value)
            },
            None => {
                assert(self@ =~= old(self)@.remove(identity@));
                None
            },
        }
    }
}

/// A slot for an identity that had none adds that identity to the table.
pub proof fn lemma_slot_added<V>(slots: Seq<Slot<V>>, slot: Slot<V>)
    requires
        distinct_slots(slots),
        !has_slot(slots, slot.identity@),
    ensures
        distinct_slots(slots.push(slot)),
        slots_map(slots.push(slot)) == slots_map(slots).insert(slot.identity@, slot.value),
{
    let after = slots.push(slot);
    let last = slots.len() as int;
    assert(distinct_slots(after)) by {
        assert forall|a: int, b: int| 0 <= a < b < after.len() implies (#[trigger] after[a]).identity@
            != (#[trigger] after[b]).identity@ by {
            if b < last {
                assert(slots[a].identity@ != slots[b].identity@);
            } else {
                assert(slots[a].identity@ != slot.identity@);
            }
        }
    }
    assert forall|key: Seq<char>| has_slot(after, key) == (key == slot.identity@ || has_slot(
        slots,
        key,
    )) by {
        if has_slot(after, key) {
            let j = slot_position(after, key);
            if j < last {
                assert(slots[j].identity@ == key);
            }
        }
        if has_slot(slots, key) {
            let j = slot_position(slots, key);
            assert(after[j].identity@ == key);
        }
        if key == slot.identity@ {
            assert(after[last].identity@ == key);
        }
    }
    assert forall|key: Seq<char>| has_slot(after, key) implies slots_map(after)[key] == slots_map(
        slots,
    ).insert(slot.identity@, slot.value)[key] by {
        let j = slot_position(after, key);
        lemma_slot_in_map(after, j);
        if j < last {
            assert(slots[j].identity@ == key);
            lemma_slot_in_map(slots, j);
        }
    }
    assert(slots_map(after) =~= slots_map(slots).insert(slot.identity@, slot.value));
}

/// Replacing what one slot keeps changes the table at that identity alone.
pub proof fn lemma_slot_replaced<V>(slots: Seq<Slot<V>>, i: int, slot: Slot<V>)
    requires
        distinct_slots(slots),
        0 <= i < slots.len(),
        slot.identity@ == slots[i].identity@,
    ensures
        distinct_slots(slots.update(i, slot)),
        slots_map(slots.update(i, slot)) == slots_map(slots).insert(slot.identity@, slot.value),
{
    let after = slots.update(i, slot);
    assert forall|key: Seq<char>| has_slot(after, key) == has_slot(slots, key) by {
        if has_slot(after, key) {
            let j = slot_position(after, key);
            assert(slots[j].identity@ == key);
        }
        if has_slot(slots, key) {
            let j = slot_position(slots, key);
            assert(after[j].identity@ == key);
        }
    }
    assert(distinct_slots(after)) by {
        assert forall|a: int, b: int| 0 <= a < b < after.len() implies (#[trigger] after[a]).identity@
            != (#[trigger] after[b]).identity@ by {
            assert(slots[a].identity@ != slots[b].identity@);
        }
    }
    assert forall|key: Seq<char>| has_slot(after, key) implies slots_map(after)[key] == slots_map(
        slots,
    ).insert(slot.identity@, slot.value)[key] by {
        let j = slot_position(after, key);
        lemma_slot_in_map(after, j);
        lemma_slot_in_map(slots, j);
    }
    lemma_slot_in_map(slots, i);
    assert(slots_map(after) =~= slots_map(slots).insert(slot.identity@, slot.value));
}

} // verus!
