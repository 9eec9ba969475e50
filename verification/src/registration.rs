//! Registration: the acquire-bind-publish sequence, its rollback, and teardown.
//!
//! The sequence is a machine. Its state names the one action that is pending;
//! [`Build::step`] takes the reply to that action and moves on. A failure
//! before the range is acquired ends the attempt at once. Any later failure
//! sends the machine through the undo phases, which destroy the directory
//! entries made so far, release the slots and hand the range back, and only then
//! report the error.

use crate::builder::{Builder, Config};
use crate::error::Error;
use crate::name::{device_name, slot_name, stripped};
use crate::protocol::{Action, ActionView, Directory, HandlerBinding, Reply};
use crate::slot::{vacant_slots, Slot, SlotTable};
use vstd::prelude::*;

verus! {

/// One more than the largest identifier.
pub const IDENTIFIER_SPACE: u64 = 0x1_0000_0000;

/// What a registration attempt is waiting for.
#[derive(Clone, Copy, Debug, PartialEq, Eq, Structural)]
pub enum Phase {
    /// The identifier range was requested.
    Acquire,
    /// The record of `slot` is being initialized.
    Init { slot: usize },
    /// The record of `slot` is being published.
    Publish { slot: usize },
    /// The directory entry of `slot` is being created.
    Node { slot: usize },
    /// Undoing: the directory entries are being destroyed; the slots below
    /// `upto` are released next.
    UndoNodes { upto: usize, error: Error },
    /// Undoing: the slot `next` is being released, those up to `upto` follow.
    UndoSlot { next: usize, upto: usize, error: Error },
    /// Undoing: the identifier range is being handed back.
    UndoRange { error: Error },
}

/// A completed registration as a mathematical value.
pub struct RegistrationView {
    /// The first identifier of the range.
    pub base: u32,
    /// The slot table.
    pub slots: Seq<Slot>,
    /// Where the directory entries were published.
    pub directory: Option<Directory>,
}

impl RegistrationView {
    /// The number of slots, of identifiers, and of directory entries.
    pub open spec fn count(self) -> nat {
        self.slots.len()
    }

    /// Fully formed: every slot is published, slot `i` under `base + i`.
    pub open spec fn wf(self) -> bool {
        &&& self.slots.len() <= u16::MAX
        &&& self.base + self.slots.len() <= IDENTIFIER_SPACE
        &&& forall|i: int|
            0 <= i < self.slots.len() ==> (#[trigger] self.slots[i] matches Slot::Published {
                identifier,
                ..
            } && identifier == self.base + i)
    }
}

/// The slots below `upto` are published: slot `i` from `tables[i]`, under `base + i`.
pub open spec fn published_below(
    slots: Seq<Slot>,
    tables: Seq<HandlerBinding>,
    base: u32,
    upto: int,
) -> bool {
    forall|i: int|
        0 <= i < upto ==> #[trigger] slots[i] == (Slot::Published {
            table: tables[i],
            identifier: (base + i) as u32,
        })
}

/// The slots from `from` up to `upto` are vacant.
pub open spec fn vacant_between(slots: Seq<Slot>, from: int, upto: int) -> bool {
    forall|i: int| from <= i < upto ==> #[trigger] slots[i] == Slot::Vacant
}

/// A registration attempt in progress, as a mathematical value.
pub struct Machine {
    /// What is being registered.
    pub config: Config,
    /// The first identifier of the acquired range; without meaning while the
    /// range is requested.
    pub base: u32,
    /// The slot table; empty until the range is acquired.
    pub slots: Seq<Slot>,
    /// What the attempt is waiting for.
    pub phase: Phase,
}

/// Where a step leads.
pub enum Outcome {
    /// Another action is pending.
    Pending(Machine),
    /// Every slot is published: the registration exists.
    Registered(RegistrationView),
    /// The attempt failed and nothing of it is left.
    Failed(Error),
}

impl Machine {
    /// The number of handlers: the size of the range and of the slot table.
    pub open spec fn count(self) -> nat {
        self.config.tables.len()
    }

    /// The identifier of slot `slot`.
    pub open spec fn identifier(self, slot: int) -> u32 {
        (self.base + slot) as u32
    }

    /// The table has its full size and the range fits the identifier space.
    pub open spec fn sized(self) -> bool {
        &&& self.slots.len() == self.count()
        &&& self.base + self.count() <= IDENTIFIER_SPACE
    }

    /// The state that an attempt can be in.
    pub open spec fn wf(self) -> bool {
        &&& self.config.wf()
        &&& match self.phase {
            Phase::Acquire => self.slots.len() == 0,
            Phase::Init { slot } => {
                &&& self.sized()
                &&& slot < self.count()
                &&& published_below(self.slots, self.config.tables, self.base, slot as int)
                &&& vacant_between(self.slots, slot as int, self.count() as int)
            },
            Phase::Publish { slot } => {
                &&& self.sized()
                &&& slot < self.count()
                &&& published_below(self.slots, self.config.tables, self.base, slot as int)
                &&& self.slots[slot as int] == (Slot::Bound {
                    table: self.config.tables[slot as int],
                })
                &&& vacant_between(self.slots, slot + 1, self.count() as int)
            },
            Phase::Node { slot } => {
                &&& self.sized()
                &&& slot < self.count()
                &&& published_below(self.slots, self.config.tables, self.base, slot + 1)
                &&& vacant_between(self.slots, slot + 1, self.count() as int)
            },
            Phase::UndoNodes { upto, error } => {
                &&& self.sized()
                &&& 2 <= upto <= self.count()
                &&& vacant_between(self.slots, upto as int, self.count() as int)
            },
            Phase::UndoSlot { next, upto, error } => {
                &&& self.sized()
                &&& next < upto <= self.count()
                &&& vacant_between(self.slots, 0, next as int)
                &&& vacant_between(self.slots, upto as int, self.count() as int)
            },
            Phase::UndoRange { error } => {
                &&& self.slots.len() == self.count()
                &&& vacant_between(self.slots, 0, self.count() as int)
            },
        }
    }

    /// The state in which an attempt starts: the range is requested.
    pub open spec fn start(config: Config) -> Machine {
        Machine { config, base: 0, slots: Seq::empty(), phase: Phase::Acquire }
    }

    /// The action that is pending.
    pub open spec fn pending(self) -> ActionView {
        match self.phase {
            Phase::Acquire => ActionView::AcquireRange {
                first: self.config.first as u32,
                count: self.count() as u32,
                name: self.config.name,
            },
            Phase::Init { slot } => ActionView::InitSlot {
                slot,
                table: self.config.tables[slot as int],
            },
            Phase::Publish { slot } => ActionView::PublishSlot {
                slot,
                identifier: self.identifier(slot as int),
            },
            Phase::Node { slot } => ActionView::CreateNode {
                directory: self.config.directory,
                identifier: self.identifier(slot as int),
                name: slot_name(stripped(self.config.name), slot as nat),
            },
            Phase::UndoNodes { upto, error } => ActionView::DestroyNodes {
                directory: self.config.directory,
                base: self.base,
                count: self.count() as u32,
            },
            Phase::UndoSlot { next, upto, error } => ActionView::ReleaseSlot { slot: next },
            Phase::UndoRange { error } => ActionView::ReleaseRange {
                base: self.base,
                count: self.count() as u32,
            },
        }
    }

    /// Where the undoing starts after a failure at `slot`: with the directory
    /// entries if any was made, else with the slots. The slots `0 ..= slot`
    /// are released.
    pub open spec fn rollback(self, slot: usize, error: Error) -> Machine {
        Machine {
            phase: if slot > 0 {
                Phase::UndoNodes { upto: (slot + 1) as usize, error }
            } else {
                Phase::UndoSlot { next: 0, upto: 1, error }
            },
            ..self
        }
    }

    /// The slot that the pending action works on, while the attempt goes forward.
    pub open spec fn busy_slot(self) -> Option<usize> {
        match self.phase {
            Phase::Init { slot } => Some(slot),
            Phase::Publish { slot } => Some(slot),
            Phase::Node { slot } => Some(slot),
            _ => None,
        }
    }

    /// The error that the status code `code` means for the pending action.
    pub open spec fn failure(self, code: i32) -> Error {
        match self.phase {
            Phase::Init { slot } => Error::SlotInitFailed(code),
            Phase::Publish { slot } => Error::PublishFailed(code),
            Phase::Node { slot } => Error::DirectoryCreateFailed(code),
            _ => Error::AllocationFailed(code),
        }
    }

    /// What undoing takes after a failure at `slot`: the directory entries go
    /// first if there is any, then the slots `0 ..= slot` in slot order, then
    /// the identifier range.
    pub open spec fn undo_plan(self, slot: usize) -> Seq<ActionView> {
        let entries = if slot > 0 {
            seq![
                ActionView::DestroyNodes {
                    directory: self.config.directory,
                    base: self.base,
                    count: self.count() as u32,
                },
            ]
        } else {
            Seq::empty()
        };
        entries + slot_releases(0, slot + 1) + seq![
            ActionView::ReleaseRange { base: self.base, count: self.count() as u32 },
        ]
    }

    /// The registration that a completed attempt yields.
    pub open spec fn registration(self) -> RegistrationView {
        RegistrationView { base: self.base, slots: self.slots, directory: self.config.directory }
    }

    /// Where the reply to the pending action leads.
    pub open spec fn step(self, reply: Reply) -> Outcome {
        match self.phase {
            Phase::Acquire => {
                let granted = Machine {
                    base: reply.value,
                    slots: vacant_slots(self.count()),
                    ..self
                };
                if reply.code != 0 {
                    Outcome::Failed(Error::AllocationFailed(reply.code))
                } else if reply.value + self.count() > IDENTIFIER_SPACE {
                    Outcome::Pending(
                        Machine {
                            phase: Phase::UndoRange { error: Error::RangeConversionError },
                            ..granted
                        },
                    )
                } else if self.count() == 0 {
                    Outcome::Registered(granted.registration())
                } else {
                    Outcome::Pending(Machine { phase: Phase::Init { slot: 0 }, ..granted })
                }
            },
            Phase::Init { slot } => {
                if reply.code != 0 {
                    Outcome::Pending(self.rollback(slot, Error::SlotInitFailed(reply.code)))
                } else {
                    Outcome::Pending(
                        Machine {
                            slots: self.slots.update(
                                slot as int,
                                Slot::Bound { table: self.config.tables[slot as int] },
                            ),
                            phase: Phase::Publish { slot },
                            ..self
                        },
                    )
                }
            },
            Phase::Publish { slot } => {
                if reply.code != 0 {
                    Outcome::Pending(self.rollback(slot, Error::PublishFailed(reply.code)))
                } else {
                    Outcome::Pending(
                        Machine {
                            slots: self.slots.update(
                                slot as int,
                                Slot::Published {
                                    table: self.config.tables[slot as int],
                                    identifier: self.identifier(slot as int),
                                },
                            ),
                            phase: Phase::Node { slot },
                            ..self
                        },
                    )
                }
            },
            Phase::Node { slot } => {
                if reply.code != 0 {
                    Outcome::Pending(
                        self.rollback(slot, Error::DirectoryCreateFailed(reply.code)),
                    )
                } else if slot + 1 < self.count() {
                    Outcome::Pending(
                        Machine { phase: Phase::Init { slot: (slot + 1) as usize }, ..self },
                    )
                } else {
                    Outcome::Registered(self.registration())
                }
            },
            Phase::UndoNodes { upto, error } => Outcome::Pending(
                Machine { phase: Phase::UndoSlot { next: 0, upto, error }, ..self },
            ),
            Phase::UndoSlot { next, upto, error } => Outcome::Pending(
                Machine {
                    slots: self.slots.update(next as int, Slot::Vacant),
                    phase: if next + 1 < upto {
                        Phase::UndoSlot { next: (next + 1) as usize, upto, error }
                    } else {
                        Phase::UndoRange { error }
                    },
                    ..self
                },
            ),
            Phase::UndoRange { error } => Outcome::Failed(error),
        }
    }
}

/// A step leads from one well-formed state to another, never changes the
/// configuration, and yields a registration only when every slot is
/// published: one slot per handler, slot `i` under `base + i`.
pub proof fn lemma_step_keeps_well_formed(m: Machine, reply: Reply)
    requires
        m.wf(),
    ensures
        match m.step(reply) {
            Outcome::Pending(next) => next.wf() && next.config == m.config,
            Outcome::Registered(r) => {
                &&& r.wf()
                &&& r.count() == m.count()
                &&& r.directory == m.config.directory
                &&& published_below(r.slots, m.config.tables, r.base, m.count() as int)
            },
            Outcome::Failed(error) => true,
        },
{
}

/// A completed registration. It owns the slot table and the identifier range
/// until it is torn down, and there is no way to make a second one from it.
#[derive(Debug)]
pub struct Registration {
    base: u32,
    slots: SlotTable,
    directory: Option<Directory>,
}

impl View for Registration {
    type V = RegistrationView;

    closed spec fn view(&self) -> RegistrationView {
        RegistrationView { base: self.base, slots: self.slots@, directory: self.directory }
    }
}

/// The release of each slot from `from` up to `upto`, in slot order.
pub open spec fn slot_releases(from: int, upto: int) -> Seq<ActionView> {
    Seq::new((upto - from) as nat, |i: int| ActionView::ReleaseSlot { slot: (from + i) as usize })
}

/// What tearing a registration down takes: the directory entries go first,
/// then every slot in slot order, then the identifier range.
pub open spec fn teardown_plan(r: RegistrationView) -> Seq<ActionView> {
    seq![
        ActionView::DestroyNodes { directory: r.directory, base: r.base, count: r.count() as u32 },
    ] + slot_releases(0, r.count() as int) + seq![
        ActionView::ReleaseRange { base: r.base, count: r.count() as u32 },
    ]
}

impl Registration {
    #[verifier::type_invariant]
    pub open spec fn well_formed(self) -> bool {
        self@.wf()
    }

    /// The first identifier of the range.
    pub fn base(&self) -> (base: u32)
        ensures
            base == self@.base,
    {
        self.base
    }

    /// The number of slots, which is the number of identifiers in the range.
    pub fn count(&self) -> (count: usize)
        ensures
            count == self@.count(),
            self@.wf(),
    {
        proof {
            use_type_invariant(self);
        }
        self.slots.len()
    }

    /// The identifier of the slot `index`: `base + index`, for every slot there is.
    pub fn identifier(&self, index: usize) -> (identifier: Option<u32>)
        ensures
            identifier == if index < self@.count() {
                Some((self@.base + index) as u32)
            } else {
                None
            },
            index < self@.count() ==> self@.base + index < IDENTIFIER_SPACE,
    {
        proof {
            use_type_invariant(self);
        }
        self.slots.identifier(index)
    }

    /// The slot table.
    pub fn slots(&self) -> (slots: &SlotTable)
        ensures
            slots@ == self@.slots,
    {
        &self.slots
    }

    /// Where the directory entries were published.
    pub fn directory(&self) -> (directory: Option<Directory>)
        ensures
            directory == self@.directory,
    {
        self.directory
    }

    /// Ends the registration and says what releasing it takes, in the order in
    /// which it must be done. The replies to these actions are of no
    /// consequence: teardown cannot fail.
    pub fn teardown(self) -> (plan: Vec<Action>)
        ensures
            plan@.map_values(|a: Action| a@) == teardown_plan(self@),
    {
        proof {
            use_type_invariant(&self);
        }
        let count: usize = self.slots.len();
        let mut plan: Vec<Action> = Vec::new();
        plan.push(
            Action::DestroyNodes { directory: self.directory, base: self.base, count: count as u32 },
        );
        let mut slot: usize = 0;
        while slot < count
            invariant
                slot <= count,
                count == self@.count(),
                plan@.len() == slot + 1,
                plan@[0]@ == teardown_plan(self@)[0],
                forall|i: int| 0 <= i < slot ==> (#[trigger] plan@[i + 1])@ == (ActionView::ReleaseSlot {
                    slot: i as usize,
                }),
            decreases count - slot,
        {
            plan.push(Action::ReleaseSlot { slot });
            slot = slot + 1;
        }
        plan.push(Action::ReleaseRange { base: self.base, count: count as u32 });
        proof {
            let views = plan@.map_values(|a: Action| a@);
            let wanted = teardown_plan(self@);
            assert(views.len() == wanted.len());
            assert forall|i: int| 0 <= i < views.len() implies views[i] == wanted[i] by {
                if 1 <= i <= count {
                    assert(plan@[(i - 1) + 1]@ == (ActionView::ReleaseSlot {
                        slot: (i - 1) as usize,
                    }));
                }
            }
            assert(views =~= wanted);
        }
        plan
    }
}

/// A registration attempt in progress.
#[derive(Debug)]
pub struct Build {
    config: Builder,
    base: u32,
    slots: SlotTable,
    phase: Phase,
}

impl View for Build {
    type V = Machine;

    closed spec fn view(&self) -> Machine {
        Machine { config: self.config@, base: self.base, slots: self.slots@, phase: self.phase }
    }
}

/// How far a registration attempt has come.
#[derive(Debug)]
pub enum Progress {
    /// An action is pending: perform it and report the reply.
    Pending(Build),
    /// Every slot is initialized, published and named.
    Registered(Registration),
    /// The attempt failed; whatever it had acquired is released.
    Failed(Error),
}

impl View for Progress {
    type V = Outcome;

    open spec fn view(&self) -> Outcome {
        match *self {
            Progress::Pending(build) => Outcome::Pending(build@),
            Progress::Registered(registration) => Outcome::Registered(registration@),
            Progress::Failed(error) => Outcome::Failed(error),
        }
    }
}

impl Build {
    #[verifier::type_invariant]
    pub open spec fn well_formed(self) -> bool {
        self@.wf()
    }

    /// Starts an attempt for `config`: the identifier range is requested.
    pub(crate) fn begin(config: Builder) -> (build: Build)
        ensures
            build@ == Machine::start(config@),
            build@.wf(),
    {
        proof {
            use_type_invariant(&config);
        }
        let slots = SlotTable::zeroed(0);
        assert(slots@ =~= Seq::empty());
        Build { config, base: 0, slots, phase: Phase::Acquire }
    }

    /// What the attempt is waiting for.
    pub fn phase(&self) -> (phase: Phase)
        ensures
            phase == self@.phase,
            self@.wf(),
    {
        proof {
            use_type_invariant(self);
        }
        self.phase
    }

    /// The slot table as it stands.
    pub fn slots(&self) -> (slots: &SlotTable)
        ensures
            slots@ == self@.slots,
    {
        &self.slots
    }

    /// The action that is pending: the one call to make before the next step.
    pub fn action(&self) -> (action: Action)
        ensures
            action@ == self@.pending(),
    {
        proof {
            use_type_invariant(self);
        }
        let count: usize = self.config.handler_count();
        match self.phase {
            Phase::Acquire => Action::AcquireRange {
                first: self.config.first() as u32,
                count: count as u32,
                name: self.config.name().as_bytes_with_nul().clone(),
            },
            Phase::Init { slot } => Action::InitSlot {
                slot,
                table: self.config.handler(slot).unwrap(),
            },
            Phase::Publish { slot } => Action::PublishSlot {
                slot,
                identifier: self.base + slot as u32,
            },
            Phase::Node { slot } => Action::CreateNode {
                directory: self.config.directory(),
                identifier: self.base + slot as u32,
                name: device_name(self.config.name(), slot),
            },
            Phase::UndoNodes { upto: _, error: _ } => Action::DestroyNodes {
                directory: self.config.directory(),
                base: self.base,
                count: count as u32,
            },
            Phase::UndoSlot { next, upto: _, error: _ } => Action::ReleaseSlot { slot: next },
            Phase::UndoRange { error: _ } => Action::ReleaseRange {
                base: self.base,
                count: count as u32,
            },
        }
    }

    /// Takes the reply to the pending action and moves on: to the next
    /// action, to the registration, or to the error.
    pub fn step(self, reply: Reply) -> (progress: Progress)
        ensures
            progress@ == self@.step(reply),
            progress matches Progress::Pending(next) ==> next@.wf(),
            progress matches Progress::Registered(r) ==> r@.wf(),
    {
        proof {
            use_type_invariant(&self);
            lemma_step_keeps_well_formed(self@, reply);
        }
        let Build { config, base, slots, phase } = self;
        let mut slots = slots;
        let count: usize = config.handler_count();
        match phase {
            Phase::Acquire => {
                if reply.code != 0 {
                    return Progress::Failed(Error::AllocationFailed(reply.code));
                }
                let slots = SlotTable::zeroed(count);
                let base: u32 = reply.value;
                if base as u64 + count as u64 > IDENTIFIER_SPACE {
                    Progress::Pending(
                        Build {
                            config,
                            base,
                            slots,
                            phase: Phase::UndoRange { error: Error::RangeConversionError },
                        },
                    )
                } else if count == 0 {
                    let directory = config.directory();
                    Progress::Registered(Registration { base, slots, directory })
                } else {
                    Progress::Pending(Build { config, base, slots, phase: Phase::Init { slot: 0 } })
                }
            },
            Phase::Init { slot } => {
                if reply.code != 0 {
                    let phase = Build::undo_from(slot, Error::SlotInitFailed(reply.code));
                    return Progress::Pending(Build { config, base, slots, phase });
                }
                slots.set(slot, Slot::Bound { table: config.handler(slot).unwrap() });
                Progress::Pending(Build { config, base, slots, phase: Phase::Publish { slot } })
            },
            Phase::Publish { slot } => {
                if reply.code != 0 {
                    let phase = Build::undo_from(slot, Error::PublishFailed(reply.code));
                    return Progress::Pending(Build { config, base, slots, phase });
                }
                slots.set(
                    slot,
                    Slot::Published {
                        table: config.handler(slot).unwrap(),
                        identifier: base + slot as u32,
                    },
                );
                Progress::Pending(Build { config, base, slots, phase: Phase::Node { slot } })
            },
            Phase::Node { slot } => {
                if reply.code != 0 {
                    let phase = Build::undo_from(slot, Error::DirectoryCreateFailed(reply.code));
                    return Progress::Pending(Build { config, base, slots, phase });
                }
                if slot + 1 < count {
                    Progress::Pending(
                        Build { config, base, slots, phase: Phase::Init { slot: slot + 1 } },
                    )
                } else {
                    let directory = config.directory();
                    Progress::Registered(Registration { base, slots, directory })
                }
            },
            Phase::UndoNodes { upto, error } => Progress::Pending(
                Build { config, base, slots, phase: Phase::UndoSlot { next: 0, upto, error } },
            ),
            Phase::UndoSlot { next, upto, error } => {
                slots.set(next, Slot::Vacant);
                let phase = if next + 1 < upto {
                    Phase::UndoSlot { next: next + 1, upto, error }
                } else {
                    Phase::UndoRange { error }
                };
                Progress::Pending(Build { config, base, slots, phase })
            },
            Phase::UndoRange { error } => Progress::Failed(error),
        }
    }

    /// The phase in which the undoing starts after a failure at `slot`.
    fn undo_from(slot: usize, error: Error) -> (phase: Phase)
        requires
            slot < usize::MAX,
        ensures
            phase == if slot > 0 {
                Phase::UndoNodes { upto: (slot + 1) as usize, error }
            } else {
                Phase::UndoSlot { next: 0, upto: 1, error }
            },
    {
        if slot > 0 {
            Phase::UndoNodes { upto: slot + 1, error }
        } else {
            Phase::UndoSlot { next: 0, upto: 1, error }
        }
    }
}

} // verus!
