//! The external services as the library understands them, and what a
//! registration attempt leaves behind in them.
//!
//! [`World`] is a model of the identifier allocator, the active-device
//! registry and the directory service; [`World::apply`] says what one action
//! does to them. Nothing here runs: the model is what the guarantees of the
//! registration are stated in.

use crate::name::{slot_name, stripped};
use crate::protocol::{ActionView, Reply};
use crate::registration::{Machine, Outcome, Phase, RegistrationView};
use crate::slot::Slot;
use vstd::prelude::*;

verus! {

/// The identifiers `base .. base + count`.
pub open spec fn span(base: int, count: int) -> Set<int> {
    Set::new(|id: int| base <= id < base + count)
}

/// What the external services hold.
pub struct World {
    /// The identifiers that the allocator has handed out.
    pub reserved: Set<int>,
    /// The slots whose device record is initialized.
    pub records: Set<int>,
    /// The active-device registry: the slot behind each published identifier.
    pub published: Map<int, int>,
    /// The directory: the name of the entry of each identifier that has one.
    pub nodes: Map<int, Seq<u8>>,
}

impl World {
    /// Nothing is reserved, initialized, published or named.
    pub open spec fn empty() -> World {
        World {
            reserved: Set::empty(),
            records: Set::empty(),
            published: Map::empty(),
            nodes: Map::empty(),
        }
    }

    /// What the services hold after `action` was answered with `reply`.
    /// An action that reports failure changes nothing; the releasing
    /// actions take effect whatever they report.
    pub open spec fn apply(self, action: ActionView, reply: Reply) -> World {
        match action {
            ActionView::AcquireRange { first, count, name } => if reply.accepted() {
                World {
                    reserved: self.reserved.union(span(reply.value as int, count as int)),
                    ..self
                }
            } else {
                self
            },
            ActionView::InitSlot { slot, table } => if reply.accepted() {
                World { records: self.records.insert(slot as int), ..self }
            } else {
                self
            },
            ActionView::PublishSlot { slot, identifier } => if reply.accepted() {
                World { published: self.published.insert(identifier as int, slot as int), ..self }
            } else {
                self
            },
            ActionView::CreateNode { directory, identifier, name } => if reply.accepted() {
                World { nodes: self.nodes.insert(identifier as int, name), ..self }
            } else {
                self
            },
            ActionView::DestroyNodes { directory, base, count } => World {
                nodes: self.nodes.remove_keys(span(base as int, count as int)),
                ..self
            },
            ActionView::ReleaseSlot { slot } => World {
                records: self.records.remove(slot as int),
                published: Map::new(
                    |id: int| self.published.contains_key(id) && self.published[id] != slot,
                    |id: int| self.published[id],
                ),
                ..self
            },
            ActionView::ReleaseRange { base, count } => World {
                reserved: self.reserved.difference(span(base as int, count as int)),
                ..self
            },
        }
    }

    /// What the services hold after each of `actions` in turn was answered
    /// with the reply at its position.
    pub open spec fn apply_all(self, actions: Seq<ActionView>, replies: Seq<Reply>) -> World
        decreases actions.len(),
    {
        if actions.len() == 0 {
            self
        } else {
            self.apply(actions[0], replies[0]).apply_all(
                actions.drop_first(),
                replies.drop_first(),
            )
        }
    }

    /// What the services hold of a complete registration named `name`: its
    /// range, one record per slot, slot `i` published under `base + i` and
    /// named after `i`.
    pub open spec fn registered(r: RegistrationView, name: Seq<u8>) -> World {
        World {
            reserved: span(r.base as int, r.count() as int),
            records: span(0, r.count() as int),
            published: Map::new(
                |id: int| r.base <= id < r.base + r.count(),
                |id: int| id - r.base,
            ),
            nodes: Map::new(
                |id: int| r.base <= id < r.base + r.count(),
                |id: int| slot_name(stripped(name), (id - r.base) as nat),
            ),
        }
    }
}

impl Machine {
    /// The number of directory entries that exist: one for each slot before
    /// the current one, and none once they were destroyed.
    pub open spec fn named(self) -> nat {
        match self.phase {
            Phase::Acquire => 0,
            Phase::Init { slot } => slot as nat,
            Phase::Publish { slot } => slot as nat,
            Phase::Node { slot } => slot as nat,
            Phase::UndoNodes { upto, error } => (upto - 1) as nat,
            Phase::UndoSlot { next, upto, error } => 0,
            Phase::UndoRange { error } => 0,
        }
    }

    /// What the attempt holds in the external services while its pending
    /// action is unanswered.
    pub open spec fn footprint(self) -> World {
        if self.phase == Phase::Acquire {
            World::empty()
        } else {
            World {
                reserved: span(self.base as int, self.count() as int),
                records: Set::new(
                    |i: int| 0 <= i < self.slots.len() && self.slots[i] != Slot::Vacant,
                ),
                published: Map::new(
                    |id: int|
                        self.base <= id < self.base + self.slots.len() && self.slots[id
                            - self.base] is Published,
                    |id: int| id - self.base,
                ),
                nodes: Map::new(
                    |id: int| self.base <= id < self.base + self.named(),
                    |id: int| slot_name(stripped(self.config.name), (id - self.base) as nat),
                ),
            }
        }
    }
}

/// Each step keeps the attempt's footprint in line with the services: what
/// they hold after the pending action was answered is the footprint of the
/// next state, all of a registration where one results, and nothing where the
/// attempt failed.
pub proof fn lemma_step_tracks_world(m: Machine, reply: Reply)
    requires
        m.wf(),
    ensures
        match m.step(reply) {
            Outcome::Pending(next) => m.footprint().apply(m.pending(), reply) == next.footprint(),
            Outcome::Registered(r) => m.footprint().apply(m.pending(), reply) == World::registered(
                r,
                m.config.name,
            ),
            Outcome::Failed(error) => m.footprint().apply(m.pending(), reply) == World::empty(),
        },
{
    let before = m.footprint();
    let after = before.apply(m.pending(), reply);
    match m.step(reply) {
        Outcome::Pending(next) => {
            let wanted = next.footprint();
            assert(after.reserved =~= wanted.reserved);
            assert(after.records =~= wanted.records);
            assert(after.published =~= wanted.published);
            assert(after.nodes =~= wanted.nodes);
        },
        Outcome::Registered(r) => {
            let wanted = World::registered(r, m.config.name);
            assert(after.reserved =~= wanted.reserved);
            assert(after.records =~= wanted.records);
            assert(after.published =~= wanted.published);
            assert(after.nodes =~= wanted.nodes);
        },
        Outcome::Failed(error) => {
            let wanted = World::empty();
            assert(after.reserved =~= wanted.reserved);
            assert(after.records =~= wanted.records);
            assert(after.published =~= wanted.published);
            assert(after.nodes =~= wanted.nodes);
        },
    }
}

} // verus!
