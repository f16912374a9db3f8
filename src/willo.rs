//! Willo, the player character: input handling and the two-phase table-driven move.
use vstd::prelude::*;

use crate::gravestone::GraveId;
use crate::grid::{Direction, GridCoords};
use crate::history::HistoryCommands;
use crate::movement_table::{file_moves, rank_moves, MovementTable};
use crate::timer::Timer;

verus! {

/// Willo's state. A move runs as a rank phase and then a file phase, each on its own timer
/// expiry, and ends back in `Waiting`.
#[derive(Clone, Copy, Debug, PartialEq, Eq, Hash, Structural)]
pub enum WilloState {
    Waiting,
    Dead,
    RankMove(GraveId),
    FileMove(GraveId),
}

impl Default for WilloState {
    fn default() -> (r: WilloState)
        ensures
            r == WilloState::Waiting,
    {
        WilloState::Waiting
    }
}

/// Willo moves one step in `direction`.
#[derive(Clone, Copy, Debug, PartialEq, Eq, Hash, Structural)]
pub struct WilloMovementEvent {
    pub direction: Direction,
}

/// Milliseconds between the phases of a move.
pub const MOVEMENT_MILLIS: u64 = 140;

/// The timer that spaces out the phases of Willo's moves.
#[derive(Clone, Copy, Debug, PartialEq, Eq, Hash, Structural)]
pub struct MovementTimer(pub Timer);

impl Default for MovementTimer {
    fn default() -> (r: MovementTimer)
        ensures
            r.0 == Timer::new_spec(MOVEMENT_MILLIS, false),
    {
        MovementTimer(Timer::new(MOVEMENT_MILLIS, false))
    }
}

pub open spec fn movement_events(directions: Seq<Direction>) -> Seq<WilloMovementEvent> {
    directions.map_values(|d: Direction| WilloMovementEvent { direction: d })
}

/// Timer, state and the directions moved after one tick of `delta_millis` of the table move:
/// on expiry, the rank phase moves in the direction of every rank that holds the control
/// and hands over to the file phase; the file phase moves in the direction of the file of
/// every cell that holds the control and ends the move. Each phase restarts the timer.
pub open spec fn table_move_step(table: MovementTable, timer: Timer, state: WilloState, delta_millis: u64) -> (Timer, WilloState, Seq<Direction>) {
    let t = timer.ticked(delta_millis);
    let restarted = Timer { elapsed_millis: 0, finished: false, just_finished: false, ..t };
    if !t.finished {
        (t, state, Seq::empty())
    } else {
        match state {
            WilloState::RankMove(key) => (restarted, WilloState::FileMove(key), rank_moves(table, key, 4)),
            WilloState::FileMove(key) => (restarted, WilloState::Waiting, file_moves(table, key, 4)),
            _ => (t, state, Seq::empty()),
        }
    }
}

fn to_movement_events(directions: Vec<Direction>) -> (r: Vec<WilloMovementEvent>)
    ensures
        r@ == movement_events(directions@),
{
    let mut r: Vec<WilloMovementEvent> = Vec::new();
    let mut i: usize = 0;
    while i < directions.len()
        invariant
            i <= directions@.len(),
            r@ == movement_events(directions@.take(i as int)),
        decreases directions@.len() - i,
    {
        r.push(WilloMovementEvent { direction: directions[i] });
        assert(movement_events(directions@.take(i + 1)) =~= movement_events(directions@.take(i as int)).push(
            WilloMovementEvent { direction: directions@[i as int] },
        ));
        i = i + 1;
    }
    assert(directions@.take(i as int) =~= directions@);
    r
}

/// Advances the movement timer by `delta_millis` and, when it expires during a move, runs the
/// move's next phase; returns the steps Willo takes.
pub fn move_player_by_table(table: &MovementTable, timer: &mut MovementTimer, state: &mut WilloState, delta_millis: u64) -> (events: Vec<WilloMovementEvent>)
    ensures
        ({
            let (t, s, dirs) = table_move_step(*table, old(timer).0, *old(state), delta_millis);
            &&& final(timer).0 == t
            &&& *final(state) == s
            &&& events@ == movement_events(dirs)
        }),
{
    timer.0.tick(delta_millis);
    if timer.0.finished() {
        match *state {
            WilloState::RankMove(key) => {
                let dirs = table.rank_directions(key);
                *state = WilloState::FileMove(key);
                timer.0.reset();
                to_movement_events(dirs)
            },
            WilloState::FileMove(key) => {
                let dirs = table.file_directions(key);
                *state = WilloState::Waiting;
                timer.0.reset();
                to_movement_events(dirs)
            },
            _ => Vec::new(),
        }
    } else {
        Vec::new()
    }
}

/// The controls as read in one tick.
#[derive(Clone, Copy, Debug, PartialEq, Eq, Hash, Default, Structural)]
pub struct WilloInput {
    pub north_just_pressed: bool,
    pub west_just_pressed: bool,
    pub south_just_pressed: bool,
    pub east_just_pressed: bool,
    pub rewind_just_pressed: bool,
    pub rewind_pressed: bool,
    pub reset_just_pressed: bool,
}

/// The first freshly pressed direction control, in the order North, West, South, East.
pub open spec fn first_pressed(input: WilloInput) -> Option<GraveId> {
    if input.north_just_pressed {
        Some(GraveId::North)
    } else if input.west_just_pressed {
        Some(GraveId::West)
    } else if input.south_just_pressed {
        Some(GraveId::South)
    } else if input.east_just_pressed {
        Some(GraveId::East)
    } else {
        None
    }
}

/// The auto-repeat of a held rewind control: the current period and its timer.
#[derive(Clone, Copy, Debug, PartialEq, Eq, Hash, Structural)]
pub struct RewindTimer {
    pub velocity_millis: u64,
    pub timer: Timer,
}

impl RewindTimer {
    /// A repeating timer with period `velocity_millis`.
    pub fn new(velocity_millis: u64) -> (r: RewindTimer)
        ensures
            r == (RewindTimer { velocity_millis, timer: Timer::new_spec(velocity_millis, true) }),
    {
        RewindTimer { velocity_millis, timer: Timer::new(velocity_millis, true) }
    }
}

/// How a held rewind control repeats: the period starts at `hold_end_millis` and shrinks by
/// `hold_acceleration` milliseconds per second held, never below `hold_start_millis`.
#[derive(Clone, Copy, Debug, PartialEq, Eq, Hash, Structural)]
pub struct RewindSettings {
    pub hold_start_millis: u64,
    pub hold_end_millis: u64,
    pub hold_acceleration: u64,
    pub hold_timer: Option<RewindTimer>,
}

/// `velocity` reduced by `acceleration` per second over `delta_millis`, clamped to
/// `start..=end`.
pub open spec fn ramped_velocity(velocity: u64, acceleration: u64, delta_millis: u64, start: u64, end: u64) -> u64 {
    let dec = (acceleration * delta_millis) / 1000;
    let v = if velocity >= dec { velocity - dec } else { 0 };
    if v < start {
        start
    } else if v > end {
        end
    } else {
        v as u64
    }
}

fn ramp(velocity: u64, acceleration: u64, delta_millis: u64, start: u64, end: u64) -> (r: u64)
    requires
        start <= end,
    ensures
        r == ramped_velocity(velocity, acceleration, delta_millis, start, end),
{
    let a = acceleration as u128;
    let d = delta_millis as u128;
    assert(a * d <= 0xffff_ffff_ffff_ffff * 0xffff_ffff_ffff_ffffu128) by (nonlinear_arith)
        requires
            a <= 0xffff_ffff_ffff_ffff,
            d <= 0xffff_ffff_ffff_ffff,
    ;
    let dec: u128 = a * d / 1000;
    let v: u128 = if velocity as u128 >= dec { velocity as u128 - dec } else { 0 };
    if v < start as u128 {
        start
    } else if v > end as u128 {
        end
    } else {
        v as u64
    }
}

/// State, rewind settings and history commands after one tick of input: a fresh direction
/// control starts a move (recording first); from `Waiting` or `Dead`, a fresh rewind rewinds
/// at once and arms the auto-repeat, a held rewind repeats on each expiry of its ramped timer,
/// and a fresh reset resets; each of these leaves Willo `Waiting`.
pub open spec fn input_step(state: WilloState, input: WilloInput, settings: RewindSettings, delta_millis: u64) -> (WilloState, RewindSettings, Seq<HistoryCommands>) {
    let (s, cmds) = if state == WilloState::Waiting && first_pressed(input).is_some() {
        (WilloState::RankMove(first_pressed(input).unwrap()), seq![HistoryCommands::Record])
    } else {
        (state, Seq::empty())
    };
    if s == WilloState::Waiting || s == WilloState::Dead {
        if input.rewind_just_pressed {
            (
                WilloState::Waiting,
                RewindSettings { hold_timer: Some(RewindTimer { velocity_millis: settings.hold_end_millis, timer: Timer::new_spec(settings.hold_end_millis, true) }), ..settings },
                cmds.push(HistoryCommands::Rewind),
            )
        } else if input.rewind_pressed {
            match settings.hold_timer {
                Some(rt) => {
                    let v = ramped_velocity(rt.velocity_millis, settings.hold_acceleration, delta_millis, settings.hold_start_millis, settings.hold_end_millis);
                    let t = rt.timer.ticked(delta_millis);
                    if t.just_finished {
                        (
                            WilloState::Waiting,
                            RewindSettings { hold_timer: Some(RewindTimer { velocity_millis: v, timer: Timer { duration_millis: v, ..t } }), ..settings },
                            cmds.push(HistoryCommands::Rewind),
                        )
                    } else {
                        (s, RewindSettings { hold_timer: Some(RewindTimer { velocity_millis: v, timer: t }), ..settings }, cmds)
                    }
                },
                None => (s, settings, cmds),
            }
        } else if input.reset_just_pressed {
            (WilloState::Waiting, settings, cmds.push(HistoryCommands::Reset))
        } else {
            (s, settings, cmds)
        }
    } else {
        (s, settings, cmds)
    }
}

/// Reads one tick of input: updates Willo's state and the rewind auto-repeat, and returns the
/// history commands to apply.
pub fn player_state_input(state: &mut WilloState, input: &WilloInput, rewind_settings: &mut RewindSettings, delta_millis: u64) -> (commands: Vec<HistoryCommands>)
    requires
        old(rewind_settings).hold_start_millis <= old(rewind_settings).hold_end_millis,
    ensures
        ({
            let (s, rs, cmds) = input_step(*old(state), *input, *old(rewind_settings), delta_millis);
            &&& *final(state) == s
            &&& *final(rewind_settings) == rs
            &&& commands@ == cmds
        }),
{
    let mut commands: Vec<HistoryCommands> = Vec::new();
    if *state == WilloState::Waiting {
        let pressed = if input.north_just_pressed {
            Some(GraveId::North)
        } else if input.west_just_pressed {
            Some(GraveId::West)
        } else if input.south_just_pressed {
            Some(GraveId::South)
        } else if input.east_just_pressed {
            Some(GraveId::East)
        } else {
            None
        };
        if let Some(key) = pressed {
            commands.push(HistoryCommands::Record);
            *state = WilloState::RankMove(key);
            assert(commands@ =~= seq![HistoryCommands::Record]);
        }
    }
    if *state == WilloState::Waiting || *state == WilloState::Dead {
        if input.rewind_just_pressed {
            commands.push(HistoryCommands::Rewind);
            *state = WilloState::Waiting;
            rewind_settings.hold_timer = Some(RewindTimer::new(rewind_settings.hold_end_millis));
        } else if input.rewind_pressed {
            let start = rewind_settings.hold_start_millis;
            let end = rewind_settings.hold_end_millis;
            let acceleration = rewind_settings.hold_acceleration;
            if let Some(rt) = rewind_settings.hold_timer {
                let velocity = ramp(rt.velocity_millis, acceleration, delta_millis, start, end);
                let mut timer = rt.timer;
                timer.tick(delta_millis);
                if timer.just_finished() {
                    commands.push(HistoryCommands::Rewind);
                    *state = WilloState::Waiting;
                    timer.set_duration(velocity);
                }
                rewind_settings.hold_timer = Some(RewindTimer { velocity_millis: velocity, timer });
            }
        } else if input.reset_just_pressed {
            commands.push(HistoryCommands::Reset);
            *state = WilloState::Waiting;
        }
    }
    commands
}

/// Marks Willo dead when it stands on a hazard cell and is not dead already; returns whether
/// it died in this call.
pub fn check_death(state: &mut WilloState, coords: GridCoords, hazards: &Vec<GridCoords>) -> (died: bool)
    ensures
        died == (*old(state) != WilloState::Dead && hazards@.contains(coords)),
        *final(state) == (if died { WilloState::Dead } else { *old(state) }),
{
    if *state == WilloState::Dead {
        return false;
    }
    let mut i: usize = 0;
    while i < hazards.len()
        invariant
            i <= hazards@.len(),
            *state == *old(state),
            *old(state) != WilloState::Dead,
            forall|k: int| 0 <= k < i ==> hazards@[k] != coords,
        decreases hazards@.len() - i,
    {
        if hazards[i] == coords {
            assert(hazards@[i as int] == coords);
            *state = WilloState::Dead;
            return true;
        }
        i = i + 1;
    }
    false
}

} // verus!
