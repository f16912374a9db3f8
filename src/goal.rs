//! Goals: cells that a block has to cover for the level to be complete.
use vstd::prelude::*;

use crate::grid::GridCoords;
use crate::GameState;
use crate::scheduler::{schedule_level_card, with_event, later, EventScheduler, LevelCardEvent};

verus! {

/// Whether a block currently covers the goal.
#[derive(Clone, Copy, Debug, PartialEq, Eq, Hash, Default, Structural)]
pub struct Goal {
    pub met: bool,
}

/// A goal entity and the cell it marks.
#[derive(Clone, Copy, Debug, PartialEq, Eq, Hash, Structural)]
pub struct GoalCell {
    pub entity: u64,
    pub coords: GridCoords,
    pub goal: Goal,
}

/// A change of a goal's state.
#[derive(Clone, Copy, Debug, PartialEq, Eq, Hash, Structural)]
pub enum GoalEvent {
    /// The block `stone_entity` now covers the goal `goal_entity`.
    Met { stone_entity: u64, goal_entity: u64 },
    /// No block covers the goal `goal_entity` any more.
    UnMet { goal_entity: u64 },
}

/// What one goal check found.
#[derive(Clone, Debug, PartialEq, Eq)]
pub struct GoalCheck {
    /// The goal changes, in the order of the goals.
    pub events: Vec<GoalEvent>,
    /// Every goal is covered, and there is at least one goal.
    pub level_complete: bool,
    /// The state the game moves to.
    pub next_state: Option<GameState>,
}

/// The entity of the first block of `blocks` that stands at `c`.
pub open spec fn first_block_at(blocks: Seq<(u64, GridCoords)>, c: GridCoords) -> Option<u64>
    decreases blocks.len(),
{
    if blocks.len() == 0 {
        None
    } else if blocks[0].1 == c {
        Some(blocks[0].0)
    } else {
        first_block_at(blocks.drop_first(), c)
    }
}

/// The change, if any, of goal `g` given the blocks on the grid.
pub open spec fn goal_event(g: GoalCell, blocks: Seq<(u64, GridCoords)>) -> Option<GoalEvent> {
    match first_block_at(blocks, g.coords) {
        Some(stone) => if !g.goal.met {
            Some(GoalEvent::Met { stone_entity: stone, goal_entity: g.entity })
        } else {
            None
        },
        None => if g.goal.met {
            Some(GoalEvent::UnMet { goal_entity: g.entity })
        } else {
            None
        },
    }
}

/// The changes of all goals, in order.
pub open spec fn goal_events(goals: Seq<GoalCell>, blocks: Seq<(u64, GridCoords)>) -> Seq<GoalEvent>
    decreases goals.len(),
{
    if goals.len() == 0 {
        Seq::empty()
    } else {
        let prev = goal_events(goals.drop_last(), blocks);
        match goal_event(goals.last(), blocks) {
            Some(e) => prev.push(e),
            None => prev,
        }
    }
}

/// There is at least one goal, and a block covers each.
pub open spec fn all_goals_met(goals: Seq<GoalCell>, blocks: Seq<(u64, GridCoords)>) -> bool {
    &&& goals.len() > 0
    &&& forall|i: int| 0 <= i < goals.len() ==> first_block_at(blocks, #[trigger] goals[i].coords).is_some()
}

fn first_block_at_exec(blocks: &Vec<(u64, GridCoords)>, c: GridCoords) -> (r: Option<u64>)
    ensures
        r == first_block_at(blocks@, c),
{
    let mut i: usize = 0;
    assert(blocks@.skip(0) =~= blocks@);
    while i < blocks.len()
        invariant
            i <= blocks@.len(),
            first_block_at(blocks@, c) == first_block_at(blocks@.skip(i as int), c),
        decreases blocks@.len() - i,
    {
        assert(blocks@.skip(i as int).drop_first() =~= blocks@.skip(i + 1));
        if blocks[i].1 == c {
            return Some(blocks[i].0);
        }
        i = i + 1;
    }
    None
}

/// Re-evaluates every goal against the blocks on the grid: a goal is met exactly when a
/// block stands on its cell. Each goal that changes gives an event. When every goal is met
/// the level is complete, and the level card of the level after `current_level` (when that
/// is known) is scheduled 800 ms from now. With no goals at all nothing is checked: the level
/// is not complete.
pub fn check_goal(
    goals: &mut Vec<GoalCell>,
    blocks: &Vec<(u64, GridCoords)>,
    level_card_events: &mut EventScheduler<LevelCardEvent>,
    current_level: Option<usize>,
) -> (r: GoalCheck)
    requires
        old(level_card_events).wf(),
        current_level != Some(usize::MAX),
    ensures
        final(goals)@.len() == old(goals)@.len(),
        old(goals)@.len() == 0 ==> final(goals)@ == old(goals)@ && r.events@.len() == 0,
        old(goals)@.len() > 0 ==> forall|i: int|
            0 <= i < old(goals)@.len() ==> #[trigger] final(goals)@[i] == (GoalCell {
                goal: Goal { met: first_block_at(blocks@, old(goals)@[i].coords).is_some() },
                ..old(goals)@[i]
            }),
        old(goals)@.len() > 0 ==> r.events@ == goal_events(old(goals)@, blocks@),
        r.level_complete == all_goals_met(old(goals)@, blocks@),
        old(goals)@.len() == 0 ==> !r.level_complete,
        r.next_state == (if r.level_complete { Some(GameState::LevelTransition) } else { None }),
        final(level_card_events).wf(),
        final(level_card_events).spec_now() == old(level_card_events).spec_now(),
        final(level_card_events).spec_queue() == (if r.level_complete && current_level.is_some() {
            let now = old(level_card_events).spec_now();
            let next = (current_level.unwrap() + 1) as usize;
            let q1 = with_event(old(level_card_events).spec_queue(), LevelCardEvent::Rise(next), later(now, 800));
            let q2 = with_event(q1, LevelCardEvent::Block(next), later(now, 2300));
            let q3 = with_event(q2, LevelCardEvent::Fall, later(now, 3800));
            with_event(q3, LevelCardEvent::Despawn, later(now, 5300))
        } else {
            old(level_card_events).spec_queue()
        }),
{
    let mut events: Vec<GoalEvent> = Vec::new();
    if goals.len() == 0 {
        return GoalCheck { events, level_complete: false, next_state: None };
    }
    let ghost before = goals@;
    let mut level_goal_met = true;
    let mut i: usize = 0;
    while i < goals.len()
        invariant
            goals@.len() == before.len(),
            before.len() > 0,
            i <= before.len(),
            forall|k: int|
                0 <= k < i ==> #[trigger] goals@[k] == (GoalCell {
                    goal: Goal { met: first_block_at(blocks@, before[k].coords).is_some() },
                    ..before[k]
                }),
            forall|k: int| i <= k < before.len() ==> goals@[k] == before[k],
            events@ == goal_events(before.take(i as int), blocks@),
            level_goal_met == forall|k: int| 0 <= k < i ==> first_block_at(blocks@, #[trigger] before[k].coords).is_some(),
        decreases before.len() - i,
    {
        proof {
            assert(before.take(i + 1).drop_last() =~= before.take(i as int));
            assert(before.take(i + 1).last() == before[i as int]);
        }
        let g = goals[i];
        match first_block_at_exec(blocks, g.coords) {
            Some(stone_entity) => {
                if !g.goal.met {
                    events.push(GoalEvent::Met { stone_entity, goal_entity: g.entity });
                }
                goals.set(i, GoalCell { goal: Goal { met: true }, ..g });
            },
            None => {
                level_goal_met = false;
                if g.goal.met {
                    events.push(GoalEvent::UnMet { goal_entity: g.entity });
                }
                goals.set(i, GoalCell { goal: Goal { met: false }, ..g });
            },
        }
        i = i + 1;
    }
    proof {
        assert(before.take(i as int) =~= before);
    }
    if level_goal_met {
        if let Some(level) = current_level {
            schedule_level_card(level_card_events, level + 1, 800);
        }
    }
    let next_state = if level_goal_met {
        Some(GameState::LevelTransition)
    } else {
        None
    };
    GoalCheck { events, level_complete: level_goal_met, next_state }
}

} // verus!
