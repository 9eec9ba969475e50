//! What a registration attempt guarantees, whatever the external services answer.
//!
//! [`run`] plays an attempt against a sequence of replies and records the
//! actions it issues and what the services hold afterwards. The laws below
//! are proved of every configuration and every sequence of replies.

use crate::builder::Config;
use crate::protocol::{ActionView, Reply};
use crate::registration::{
    lemma_step_keeps_well_formed, published_below, slot_releases, teardown_plan, Machine, Outcome,
    Phase, RegistrationView,
};
use crate::world::{lemma_step_tracks_world, span, World};
use vstd::prelude::*;

verus! {

/// What came of playing an attempt against some replies.
pub struct Run {
    /// Where the attempt stands: still pending if the replies ran out.
    pub end: Outcome,
    /// What the external services hold.
    pub world: World,
    /// The actions that were issued and answered, in order.
    pub trace: Seq<ActionView>,
}

/// Plays the attempt `m` against `replies`, starting from `world`: each
/// reply answers the action that is pending when its turn comes. The play ends
/// when the attempt does, or when the replies run out.
pub open spec fn run(m: Machine, world: World, replies: Seq<Reply>) -> Run
    decreases replies.len(),
{
    if replies.len() == 0 {
        Run { end: Outcome::Pending(m), world, trace: Seq::empty() }
    } else {
        let action = m.pending();
        let answered = world.apply(action, replies[0]);
        match m.step(replies[0]) {
            Outcome::Pending(next) => {
                let rest = run(next, answered, replies.drop_first());
                Run { end: rest.end, world: rest.world, trace: seq![action] + rest.trace }
            },
            end => Run { end, world: answered, trace: seq![action] },
        }
    }
}

/// An upper bound on the number of replies that the attempt still takes.
pub open spec fn steps_left(m: Machine) -> int {
    let n = m.count() as int;
    match m.phase {
        Phase::Acquire => 4 * n + 4,
        Phase::Init { slot } => 3 * (n - slot) + n + 3,
        Phase::Publish { slot } => 3 * (n - slot) + n + 2,
        Phase::Node { slot } => 3 * (n - slot) + n + 1,
        Phase::UndoNodes { upto, error } => upto + 2,
        Phase::UndoSlot { next, upto, error } => upto - next + 1,
        Phase::UndoRange { error } => 1,
    }
}

/// Every step brings the attempt nearer to its end.
pub proof fn lemma_step_makes_progress(m: Machine, reply: Reply)
    requires
        m.wf(),
    ensures
        steps_left(m) >= 1,
        m.step(reply) matches Outcome::Pending(next) ==> steps_left(next) < steps_left(m),
{
}

/// The outcome of a play from a well-formed state: the services hold the
/// footprint of a pending attempt, all of a registration, or nothing.
proof fn lemma_run_tracks_world(m: Machine, replies: Seq<Reply>)
    requires
        m.wf(),
    ensures
        match run(m, m.footprint(), replies).end {
            Outcome::Pending(last) => {
                &&& last.wf()
                &&& last.config == m.config
                &&& run(m, m.footprint(), replies).world == last.footprint()
                &&& steps_left(last) + replies.len() <= steps_left(m)
            },
            Outcome::Registered(r) => {
                &&& r.wf()
                &&& r.count() == m.count()
                &&& r.directory == m.config.directory
                &&& published_below(r.slots, m.config.tables, r.base, m.count() as int)
                &&& run(m, m.footprint(), replies).world == World::registered(r, m.config.name)
            },
            Outcome::Failed(error) => run(m, m.footprint(), replies).world == World::empty(),
        },
    decreases replies.len(),
{
    if replies.len() > 0 {
        lemma_step_keeps_well_formed(m, replies[0]);
        lemma_step_tracks_world(m, replies[0]);
        lemma_step_makes_progress(m, replies[0]);
        match m.step(replies[0]) {
            Outcome::Pending(next) => {
                lemma_run_tracks_world(next, replies.drop_first());
            },
            _ => {},
        }
    }
}

/// All or nothing. Whatever the services answer, an attempt that ends in a
/// registration has one slot per handler, each published under its own
/// identifier `base + i` and named after its index, and the services hold
/// exactly that; an attempt that ends in an error has left nothing behind:
/// no identifier reserved, no record initialized, none published, no
/// directory entry. The number of slots never exceeds the capacity window.
/// While the replies have not brought the attempt to its end, the services
/// hold the footprint of the state it is in.
pub proof fn law_all_or_nothing(config: Config, replies: Seq<Reply>)
    requires
        config.wf(),
    ensures
        match run(Machine::start(config), World::empty(), replies).end {
            Outcome::Pending(last) => {
                &&& last.wf()
                &&& last.config == config
                &&& run(Machine::start(config), World::empty(), replies).world
                    == last.footprint()
            },
            Outcome::Registered(r) => {
                &&& r.wf()
                &&& r.count() == config.tables.len()
                &&& r.count() <= config.capacity
                &&& r.directory == config.directory
                &&& published_below(r.slots, config.tables, r.base, r.count() as int)
                &&& run(Machine::start(config), World::empty(), replies).world
                    == World::registered(r, config.name)
            },
            Outcome::Failed(error) => run(Machine::start(config), World::empty(), replies).world
                == World::empty(),
        },
{
    lemma_run_tracks_world(Machine::start(config), replies);
}

/// An attempt for `n` handlers ends within `4 * n + 4` replies.
pub proof fn law_attempt_ends(config: Config, replies: Seq<Reply>)
    requires
        config.wf(),
        replies.len() >= 4 * config.tables.len() + 4,
    ensures
        !(run(Machine::start(config), World::empty(), replies).end is Pending),
{
    let m = Machine::start(config);
    lemma_run_tracks_world(m, replies);
    if let Outcome::Pending(last) = run(m, World::empty(), replies).end {
        lemma_step_makes_progress(last, replies[0]);
    }
}

/// From the release of slot `next` on, the attempt releases every slot up to
/// `upto` once, then the range, and ends in the error it carries.
proof fn lemma_run_releases(m: Machine, world: World, replies: Seq<Reply>)
    requires
        m.wf(),
        m.phase is UndoSlot,
        replies.len() >= steps_left(m),
    ensures
        m.phase matches Phase::UndoSlot { next, upto, error } && {
            &&& run(m, world, replies).end == Outcome::Failed(error)
            &&& run(m, world, replies).trace == slot_releases(next as int, upto as int) + seq![
                ActionView::ReleaseRange { base: m.base, count: m.count() as u32 },
            ]
        },
    decreases steps_left(m),
{
    reveal_with_fuel(run, 3);
    let next = m.phase->UndoSlot_next;
    let upto = m.phase->UndoSlot_upto;
    let last = seq![ActionView::ReleaseRange { base: m.base, count: m.count() as u32 }];
    let answered = world.apply(m.pending(), replies[0]);
    let rest = replies.drop_first();
    lemma_step_keeps_well_formed(m, replies[0]);
    let following = m.step(replies[0])->Pending_0;
    if next + 1 < upto {
        lemma_run_releases(following, answered, rest);
        assert(seq![m.pending()] + (slot_releases(next + 1, upto as int) + last)
            =~= slot_releases(next as int, upto as int) + last);
    } else {
        assert(run(following, answered, rest).trace =~= last);
        assert(seq![m.pending()] + last =~= slot_releases(next as int, upto as int) + last);
    }
}

/// Rollback is complete. Where the action on slot `k` fails, the attempt
/// destroys the directory entries if any was made, releases each of the
/// slots `0 ..= k` exactly once and in slot order, hands the identifier range
/// back exactly once, and then ends in the error that the failed action
/// maps to; it issues nothing else.
pub proof fn law_rollback_complete(m: Machine, world: World, replies: Seq<Reply>)
    requires
        m.wf(),
        m.busy_slot() is Some,
        replies.len() >= 1,
        replies[0].code != 0,
        replies.len() > m.undo_plan(m.busy_slot().unwrap()).len(),
    ensures
        run(m, world, replies).end == Outcome::Failed(m.failure(replies[0].code)),
        run(m, world, replies).trace == seq![m.pending()] + m.undo_plan(m.busy_slot().unwrap()),
{
    reveal_with_fuel(run, 3);
    let slot = m.busy_slot().unwrap();
    let error = m.failure(replies[0].code);
    let last = seq![ActionView::ReleaseRange { base: m.base, count: m.count() as u32 }];
    lemma_step_keeps_well_formed(m, replies[0]);
    let undoing = m.step(replies[0])->Pending_0;
    assert(undoing == m.rollback(slot, error));
    let answered = world.apply(m.pending(), replies[0]);
    let rest = replies.drop_first();
    if slot > 0 {
        lemma_step_keeps_well_formed(undoing, rest[0]);
        let releasing = undoing.step(rest[0])->Pending_0;
        lemma_run_releases(
            releasing,
            answered.apply(undoing.pending(), rest[0]),
            rest.drop_first(),
        );
        assert(run(undoing, answered, rest).trace =~= m.undo_plan(slot));
    } else {
        lemma_run_releases(undoing, answered, rest);
        assert(run(undoing, answered, rest).trace =~= m.undo_plan(slot));
    }
}

/// Nothing is undone twice. The undoing after a failure at slot `k` names
/// every slot of `0 ..= k` and no other, ends with the release of the range,
/// and holds no action more than once.
pub proof fn law_undo_plan_releases_each_once(m: Machine, k: usize)
    requires
        m.wf(),
        m.busy_slot() == Some(k),
    ensures
        m.undo_plan(k).no_duplicates(),
        m.undo_plan(k).last() == (ActionView::ReleaseRange {
            base: m.base,
            count: m.count() as u32,
        }),
        forall|slot: usize| slot <= k ==> m.undo_plan(k).contains(ActionView::ReleaseSlot { slot }),
        forall|slot: usize|
            m.undo_plan(k).contains(ActionView::ReleaseSlot { slot }) ==> slot <= k,
{
    let plan = m.undo_plan(k);
    let lead: int = if k > 0 {
        1
    } else {
        0
    };
    assert(plan.len() == lead + k + 2);
    assert forall|i: int| lead <= i <= lead + k implies #[trigger] plan[i]
        == (ActionView::ReleaseSlot { slot: (i - lead) as usize }) by {
        assert(plan[i] == slot_releases(0, k + 1)[i - lead]);
    }
    assert forall|slot: usize| slot <= k implies plan.contains(
        ActionView::ReleaseSlot { slot },
    ) by {
        assert(plan[lead + slot] == ActionView::ReleaseSlot { slot });
    }
}

/// Nothing is torn down twice. The teardown plan names every slot of the
/// registration and no other, starts with the directory entries, ends with
/// the release of the range, and holds no action more than once.
pub proof fn law_teardown_plan_releases_each_once(r: RegistrationView)
    requires
        r.wf(),
    ensures
        teardown_plan(r).no_duplicates(),
        teardown_plan(r).len() == r.count() + 2,
        teardown_plan(r).first() is DestroyNodes,
        teardown_plan(r).last() is ReleaseRange,
        forall|i: int|
            1 <= i <= r.count() ==> #[trigger] teardown_plan(r)[i] == (ActionView::ReleaseSlot {
                slot: (i - 1) as usize,
            }),
{
    let plan = teardown_plan(r);
    assert forall|i: int| 1 <= i <= r.count() implies #[trigger] plan[i]
        == (ActionView::ReleaseSlot { slot: (i - 1) as usize }) by {
        assert(plan[i] == slot_releases(0, r.count() as int)[i - 1]);
    }
}

/// What the services hold of a registration whose directory entries are
/// destroyed and whose slots below `from` are released.
spec fn held_from(r: RegistrationView, from: int) -> World {
    World {
        reserved: span(r.base as int, r.count() as int),
        records: span(from, r.count() - from),
        published: Map::new(
            |id: int| r.base + from <= id < r.base + r.count(),
            |id: int| id - r.base,
        ),
        nodes: Map::empty(),
    }
}

proof fn lemma_releases_empty_the_world(r: RegistrationView, from: int, replies: Seq<Reply>)
    requires
        r.wf(),
        0 <= from <= r.count(),
    ensures
        held_from(r, from).apply_all(
            slot_releases(from, r.count() as int) + seq![
                ActionView::ReleaseRange { base: r.base, count: r.count() as u32 },
            ],
            replies,
        ) == World::empty(),
    decreases r.count() - from,
{
    reveal_with_fuel(World::apply_all, 2);
    let last = seq![ActionView::ReleaseRange { base: r.base, count: r.count() as u32 }];
    let actions = slot_releases(from, r.count() as int) + last;
    let next = held_from(r, from).apply(actions[0], replies[0]);
    if from < r.count() {
        assert(actions.drop_first() =~= slot_releases(from + 1, r.count() as int) + last);
        let wanted = held_from(r, from + 1);
        assert(next.records =~= wanted.records);
        assert(next.published =~= wanted.published);
        lemma_releases_empty_the_world(r, from + 1, replies.drop_first());
    } else {
        let wanted = World::empty();
        assert(actions.drop_first() =~= Seq::empty());
        assert(next.reserved =~= wanted.reserved);
        assert(next.records =~= wanted.records);
        assert(next.published =~= wanted.published);
    }
}

/// Teardown releases everything. Carried out in its order, the teardown plan
/// of a registration leaves nothing of it in the external services, whatever
/// they answer: no directory entry, no published identifier, no initialized
/// record, and the identifier range free again.
pub proof fn law_teardown_releases_everything(
    r: RegistrationView,
    name: Seq<u8>,
    replies: Seq<Reply>,
)
    requires
        r.wf(),
    ensures
        World::registered(r, name).apply_all(teardown_plan(r), replies) == World::empty(),
{
    let last = seq![ActionView::ReleaseRange { base: r.base, count: r.count() as u32 }];
    let plan = teardown_plan(r);
    let next = World::registered(r, name).apply(plan[0], replies[0]);
    let wanted = held_from(r, 0);
    assert(plan.drop_first() =~= slot_releases(0, r.count() as int) + last);
    assert(next.records =~= wanted.records);
    assert(next.published =~= wanted.published);
    assert(next.nodes =~= wanted.nodes);
    lemma_releases_empty_the_world(r, 0, replies.drop_first());
}

} // verus!
