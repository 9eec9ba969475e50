//! The slot table: one record per bound handler, in a block of fixed size.

use crate::protocol::HandlerBinding;
use vstd::prelude::*;

verus! {

/// The state of one slot of the table.
#[derive(Clone, Copy, Debug, PartialEq, Eq, Structural)]
pub enum Slot {
    /// Zero-initialized: nothing outside the library knows the record.
    Vacant,
    /// The record was initialized from a capability table.
    Bound { table: HandlerBinding },
    /// The record is in the active-device registry under `identifier`.
    Published { table: HandlerBinding, identifier: u32 },
}

/// A block of slots whose size is fixed when it is made.
///
/// The external subsystem keeps the position of a published record, so the
/// table offers no operation that adds, removes or moves a slot: a slot is
/// reached by its index, and the index of a slot never changes.
#[derive(Debug)]
pub struct SlotTable {
    slots: Vec<Slot>,
}

impl View for SlotTable {
    type V = Seq<Slot>;

    closed spec fn view(&self) -> Seq<Slot> {
        self.slots@
    }
}

/// A table of `count` slots, all of them vacant.
pub open spec fn vacant_slots(count: nat) -> Seq<Slot> {
    Seq::new(count, |i: int| Slot::Vacant)
}

impl SlotTable {
    /// Allocates the block: `count` vacant slots.
    pub(crate) fn zeroed(count: usize) -> (table: SlotTable)
        ensures
            table@ == vacant_slots(count as nat),
    {
        let slots = vec![Slot::Vacant; count];
        assert(slots@ =~= vacant_slots(count as nat));
        SlotTable { slots }
    }

    /// Overwrites the slot at `index` in place.
    pub(crate) fn set(&mut self, index: usize, slot: Slot)
        requires
            index < old(self)@.len(),
        ensures
            final(self)@ == old(self)@.update(index as int, slot),
    {
        self.slots[index] = slot;
    }

    /// The number of slots, which is the number the table was made with.
    pub fn len(&self) -> (count: usize)
        ensures
            count == self@.len(),
    {
        self.slots.len()
    }

    /// The slot at `index`, if the table has one there.
    pub fn get(&self, index: usize) -> (slot: Option<Slot>)
        ensures
            slot == if index < self@.len() {
                Some(self@[index as int])
            } else {
                None
            },
    {
        if index < self.slots.len() {
            Some(self.slots[index])
        } else {
            None
        }
    }

    /// The identifier under which the slot at `index` is published, if it is.
    pub fn identifier(&self, index: usize) -> (identifier: Option<u32>)
        ensures
            identifier == if index < self@.len() {
                match self@[index as int] {
                    Slot::Published { identifier, .. } => Some(identifier),
                    _ => None,
                }
            } else {
                None
            },
    {
        if index < self.slots.len() {
            match self.slots[index] {
                Slot::Published { identifier, .. } => Some(identifier),
                _ => None,
            }
        } else {
            None
        }
    }
}

} // verus!
