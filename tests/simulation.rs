use willos_graveyard::goal::{check_goal, Goal, GoalCell, GoalEvent};
use willos_graveyard::gravestone::GraveId;
use willos_graveyard::grid::{direction_order, file_to_tile_coords, spawn_table_edges, Direction, GridCoords};
use willos_graveyard::history::{apply_history_command, History, HistoryCommands, Rewindable};
use willos_graveyard::movement_table::{movement_table_update, MovementTable};
use willos_graveyard::scheduler::{schedule_level_card, EventScheduler, LevelCardEvent};
use willos_graveyard::sokoban::{Body, GridMap, RigidBody};
use willos_graveyard::volatile::{sublimation, Volatile, VolatileEntity};
use willos_graveyard::willo::{
    check_death, move_player_by_table, player_state_input, MovementTimer, RewindSettings, WilloInput, WilloMovementEvent,
    WilloState,
};

fn c(x: i32, y: i32) -> GridCoords {
    GridCoords::new(x, y)
}

fn body(entity: u64, x: i32, y: i32, rigid_body: RigidBody) -> Body {
    Body { entity, coords: c(x, y), rigid_body }
}

fn coords_of(grid: &GridMap, entity: u64) -> GridCoords {
    grid.bodies().iter().find(|b| b.entity == entity).unwrap().coords
}

#[test]
fn push_into_empty_cell_moves_only_the_mover() {
    let mut grid = GridMap::from_bodies(5, 5, vec![body(1, 0, 0, RigidBody::Dynamic)]).unwrap();
    let moved = grid.push(c(0, 0), Direction::Right);
    assert_eq!(moved, vec![1]);
    assert_eq!(coords_of(&grid, 1), c(1, 0));
}

#[test]
fn push_chain_is_ordered_farthest_first() {
    let bodies = vec![
        body(1, 0, 0, RigidBody::Dynamic),
        body(2, 1, 0, RigidBody::Dynamic),
        body(3, 2, 0, RigidBody::Dynamic),
    ];
    let mut grid = GridMap::from_bodies(5, 1, bodies).unwrap();
    assert_eq!(grid.resolve(c(0, 0), Direction::Right), vec![3, 2, 1]);
    grid.push(c(0, 0), Direction::Right);
    assert_eq!(coords_of(&grid, 1), c(1, 0));
    assert_eq!(coords_of(&grid, 2), c(2, 0));
    assert_eq!(coords_of(&grid, 3), c(3, 0));
}

#[test]
fn blocked_chains_move_nothing() {
    for n in 0..4i32 {
        let mut bodies = vec![body(100, 0, 0, RigidBody::Dynamic)];
        for k in 1..=n {
            bodies.push(body(k as u64, k, 0, RigidBody::Dynamic));
        }
        bodies.push(body(50, n + 1, 0, RigidBody::Static));
        let grid = GridMap::from_bodies(10, 1, bodies).unwrap();
        assert!(grid.resolve(c(0, 0), Direction::Right).is_empty());
    }
}

#[test]
fn grid_edge_blocks_the_chain() {
    let bodies = vec![body(1, 3, 0, RigidBody::Dynamic), body(2, 4, 0, RigidBody::Dynamic)];
    let mut grid = GridMap::from_bodies(5, 1, bodies).unwrap();
    assert!(grid.push(c(3, 0), Direction::Right).is_empty());
    assert_eq!(coords_of(&grid, 1), c(3, 0));
    assert_eq!(coords_of(&grid, 2), c(4, 0));
    let edge = GridMap::from_bodies(5, 1, vec![body(1, 0, 0, RigidBody::Dynamic)]).unwrap();
    assert!(edge.resolve(c(0, 0), Direction::Left).is_empty());
}

#[test]
fn static_body_never_moves() {
    let bodies = vec![body(1, 1, 1, RigidBody::Dynamic), body(2, 1, 2, RigidBody::Static)];
    let mut grid = GridMap::from_bodies(3, 3, bodies).unwrap();
    assert!(grid.push(c(1, 1), Direction::Up).is_empty());
    assert_eq!(coords_of(&grid, 2), c(1, 2));
    assert_eq!(grid.occupant_at(1, 2).unwrap().rigid_body, RigidBody::Static);
}

#[test]
fn push_sequence_keeps_one_body_per_cell() {
    let bodies = vec![
        body(1, 0, 0, RigidBody::Dynamic),
        body(2, 1, 0, RigidBody::Dynamic),
        body(3, 1, 1, RigidBody::Dynamic),
        body(4, 3, 0, RigidBody::Static),
    ];
    let mut grid = GridMap::from_bodies(4, 4, bodies).unwrap();
    let pushes = [
        (c(0, 0), Direction::Right),
        (c(1, 0), Direction::Right),
        (c(2, 0), Direction::Up),
        (c(2, 1), Direction::Left),
        (c(1, 1), Direction::Left),
    ];
    for (mover, d) in pushes {
        if let Some(b) = grid.occupant_at(mover.x, mover.y) {
            assert_eq!(b.rigid_body, RigidBody::Dynamic);
        }
        grid.push(mover, d);
        let bs = grid.bodies();
        for i in 0..bs.len() {
            for j in (i + 1)..bs.len() {
                assert_ne!(bs[i].coords, bs[j].coords);
            }
        }
    }
    assert_eq!(coords_of(&grid, 4), c(3, 0));
}

#[test]
fn from_bodies_rejects_overlap_and_out_of_bounds() {
    assert!(GridMap::from_bodies(2, 2, vec![body(1, 0, 0, RigidBody::Dynamic), body(2, 0, 0, RigidBody::Static)]).is_none());
    assert!(GridMap::from_bodies(2, 2, vec![body(1, 2, 0, RigidBody::Dynamic)]).is_none());
    assert!(GridMap::from_bodies(2, 2, vec![body(1, 0, 0, RigidBody::Dynamic), body(1, 1, 0, RigidBody::Dynamic)]).is_none());
    assert!(GridMap::from_bodies(-1, 2, vec![]).is_none());
}

#[test]
fn rewind_and_reset_on_empty_history_change_nothing() {
    let mut h: History<GridCoords> = History::new();
    let mut p = c(3, 4);
    h.rewind(&mut p);
    assert_eq!(p, c(3, 4));
    assert_eq!(h.len(), 0);
    h.reset(&mut p);
    assert_eq!(p, c(3, 4));
    assert_eq!(h.len(), 0);
}

#[test]
fn record_then_rewind_restores_position() {
    let mut h: History<GridCoords> = History::new();
    let mut p = c(1, 1);
    h.record(c(0, 0));
    h.apply(HistoryCommands::Record, &mut p);
    p = c(2, 1);
    h.apply(HistoryCommands::Rewind, &mut p);
    assert_eq!(p, c(1, 1));
    assert_eq!(h.len(), 1);
    assert_eq!(h.get(0), c(0, 0));
}

#[test]
fn reset_after_many_records_restores_first_position() {
    for n in 1..6i32 {
        let mut h: History<GridCoords> = History::new();
        let mut p = c(0, 0);
        for k in 1..=n {
            h.record(p);
            p = c(k, k);
        }
        assert_eq!(h.len(), n as usize);
        h.reset(&mut p);
        assert_eq!(p, c(0, 0));
        assert_eq!(h.len(), 0);
    }
}

#[test]
fn history_command_applies_to_every_entity() {
    let mut entities = vec![
        Rewindable { current: c(0, 0), history: History::new() },
        Rewindable { current: c(5, 5), history: History::new() },
    ];
    apply_history_command(HistoryCommands::Record, &mut entities);
    entities[0].current = c(1, 0);
    entities[1].current = c(5, 6);
    apply_history_command(HistoryCommands::Record, &mut entities);
    entities[0].current = c(2, 0);
    apply_history_command(HistoryCommands::Rewind, &mut entities);
    assert_eq!(entities[0].current, c(1, 0));
    assert_eq!(entities[1].current, c(5, 6));
    apply_history_command(HistoryCommands::Reset, &mut entities);
    assert_eq!(entities[0].current, c(0, 0));
    assert_eq!(entities[1].current, c(5, 5));
    assert_eq!(entities[0].history.len(), 0);
}

fn ve(x: i32, y: i32, moved: bool, state: Volatile) -> VolatileEntity {
    VolatileEntity { coords: c(x, y), moved, state }
}

#[test]
fn moved_solids_on_one_cell_all_sublimate() {
    let mut es = vec![
        ve(1, 1, true, Volatile::Solid),
        ve(1, 1, true, Volatile::Solid),
        ve(1, 1, true, Volatile::Solid),
        ve(2, 2, true, Volatile::Solid),
    ];
    sublimation(&mut es);
    let states: Vec<Volatile> = es.iter().map(|e| e.state).collect();
    assert_eq!(states, vec![Volatile::Sublimated, Volatile::Sublimated, Volatile::Sublimated, Volatile::Solid]);
}

#[test]
fn moved_solid_sublimates_with_stationary_solids() {
    let mut es = vec![
        ve(0, 0, false, Volatile::Solid),
        ve(0, 0, true, Volatile::Solid),
        ve(0, 0, false, Volatile::Solid),
        ve(3, 3, false, Volatile::Solid),
        ve(3, 3, false, Volatile::Solid),
        ve(4, 4, true, Volatile::Sublimated),
        ve(4, 4, false, Volatile::Solid),
    ];
    sublimation(&mut es);
    let states: Vec<Volatile> = es.iter().map(|e| e.state).collect();
    assert_eq!(
        states,
        vec![
            Volatile::Sublimated,
            Volatile::Sublimated,
            Volatile::Sublimated,
            Volatile::Solid,
            Volatile::Solid,
            Volatile::Sublimated,
            Volatile::Solid,
        ]
    );
}

#[test]
fn sublimation_does_not_depend_on_order() {
    let es = vec![
        ve(1, 1, true, Volatile::Solid),
        ve(1, 1, true, Volatile::Solid),
        ve(1, 1, false, Volatile::Solid),
        ve(2, 1, true, Volatile::Solid),
        ve(2, 1, false, Volatile::Solid),
        ve(0, 0, true, Volatile::Solid),
    ];
    let mut a = es.clone();
    sublimation(&mut a);
    let order = [5usize, 3, 0, 4, 2, 1];
    let mut b: Vec<VolatileEntity> = order.iter().map(|&i| es[i]).collect();
    sublimation(&mut b);
    for (k, &i) in order.iter().enumerate() {
        assert_eq!(b[k].state, a[i].state);
    }
    let mut again = a.clone();
    sublimation(&mut again);
    assert_eq!(again, a);
}

#[test]
fn is_solid_and_sublimate() {
    let mut v = Volatile::Solid;
    assert!(v.is_solid());
    v.sublimate();
    assert!(!v.is_solid());
    assert_eq!(v, Volatile::Sublimated);
}

#[test]
fn no_goals_never_completes_the_level() {
    let mut goals: Vec<GoalCell> = vec![];
    let mut cards: EventScheduler<LevelCardEvent> = EventScheduler::new();
    let r = check_goal(&mut goals, &vec![(1, c(0, 0))], &mut cards, Some(0));
    assert!(!r.level_complete);
    assert!(r.events.is_empty());
    assert_eq!(cards.len(), 0);
}

#[test]
fn block_onto_single_goal_completes_level() {
    let mut grid = GridMap::from_bodies(4, 4, vec![body(7, 0, 2, RigidBody::Dynamic), body(1, 1, 2, RigidBody::Dynamic)]).unwrap();
    let mut goals = vec![GoalCell { entity: 10, coords: c(2, 2), goal: Goal::default() }];
    let mut cards: EventScheduler<LevelCardEvent> = EventScheduler::new();
    let blocks = vec![(1u64, coords_of(&grid, 1))];
    let r = check_goal(&mut goals, &blocks, &mut cards, Some(2));
    assert!(r.events.is_empty());
    assert!(!r.level_complete);
    assert!(!goals[0].goal.met);
    grid.push(c(0, 2), Direction::Right);
    let blocks = vec![(1u64, coords_of(&grid, 1))];
    let r = check_goal(&mut goals, &blocks, &mut cards, Some(2));
    assert_eq!(r.events, vec![GoalEvent::Met { stone_entity: 1, goal_entity: 10 }]);
    assert!(r.level_complete);
    assert!(goals[0].goal.met);
    assert_eq!(cards.len(), 4);
    let r = check_goal(&mut goals, &vec![], &mut cards, None);
    assert_eq!(r.events, vec![GoalEvent::UnMet { goal_entity: 10 }]);
    assert!(!r.level_complete);
}

#[test]
fn level_needs_every_goal() {
    let mut goals = vec![
        GoalCell { entity: 10, coords: c(0, 0), goal: Goal::default() },
        GoalCell { entity: 11, coords: c(1, 0), goal: Goal::default() },
    ];
    let mut cards: EventScheduler<LevelCardEvent> = EventScheduler::new();
    let r = check_goal(&mut goals, &vec![(1, c(0, 0))], &mut cards, Some(0));
    assert_eq!(r.events, vec![GoalEvent::Met { stone_entity: 1, goal_entity: 10 }]);
    assert!(!r.level_complete);
    assert_eq!(cards.len(), 0);
}

#[test]
fn scheduler_fires_due_events_in_time_order() {
    let mut s: EventScheduler<u32> = EventScheduler::new();
    s.schedule(1, 300);
    s.schedule(2, 100);
    s.schedule(3, 300);
    s.schedule(4, 200);
    s.schedule(5, 100);
    assert!(s.update(99).is_empty());
    let fired: Vec<(u32, u64)> = s.update(101).iter().map(|e| (e.payload, e.fire_time)).collect();
    assert_eq!(fired, vec![(2, 100), (5, 100), (4, 200)]);
    assert_eq!(s.len(), 2);
    let fired: Vec<u32> = s.update(100).iter().map(|e| e.payload).collect();
    assert_eq!(fired, vec![1, 3]);
    assert_eq!(s.now(), 300);
}

#[test]
fn scheduler_never_fires_early() {
    let mut s: EventScheduler<u32> = EventScheduler::new();
    s.tick(1000);
    s.schedule(9, 500);
    assert!(s.poll().is_empty());
    s.tick(499);
    assert!(s.poll().is_empty());
    s.tick(1);
    let fired = s.poll();
    assert_eq!(fired.len(), 1);
    assert_eq!(fired[0].fire_time, 1500);
}

#[test]
fn level_card_stages_are_spaced() {
    let mut s: EventScheduler<LevelCardEvent> = EventScheduler::new();
    schedule_level_card(&mut s, 3, 800);
    assert!(s.update(799).is_empty());
    assert_eq!(s.update(1).iter().map(|e| e.payload).collect::<Vec<_>>(), vec![LevelCardEvent::Rise(3)]);
    assert_eq!(s.update(1500).iter().map(|e| e.payload).collect::<Vec<_>>(), vec![LevelCardEvent::Block(3)]);
    assert_eq!(s.update(1500).iter().map(|e| e.payload).collect::<Vec<_>>(), vec![LevelCardEvent::Fall]);
    let last = s.update(1500);
    assert_eq!(last[0].payload, LevelCardEvent::Despawn);
    assert_eq!(last[0].fire_time, 5300);
}

#[test]
fn table_move_without_matches_moves_nothing() {
    let mut grid = GridMap::from_bodies(4, 4, vec![body(1, 0, 0, RigidBody::Dynamic)]).unwrap();
    let mut state = WilloState::default();
    let mut settings = RewindSettings { hold_start_millis: 50, hold_end_millis: 400, hold_acceleration: 100, hold_timer: None };
    let input = WilloInput { east_just_pressed: true, ..Default::default() };
    let commands = player_state_input(&mut state, &input, &mut settings, 16);
    assert_eq!(commands, vec![HistoryCommands::Record]);
    assert_eq!(state, WilloState::RankMove(GraveId::East));
    let table = movement_table_update(c(0, 0), &vec![]);
    let mut timer = MovementTimer::default();
    assert!(move_player_by_table(&table, &mut timer, &mut state, 100).is_empty());
    assert_eq!(state, WilloState::RankMove(GraveId::East));
    assert!(move_player_by_table(&table, &mut timer, &mut state, 40).is_empty());
    assert_eq!(state, WilloState::FileMove(GraveId::East));
    let last = move_player_by_table(&table, &mut timer, &mut state, 140);
    assert!(last.is_empty());
    assert_eq!(state, WilloState::Waiting);
    for e in last {
        grid.push(c(0, 0), e.direction);
    }
    assert_eq!(coords_of(&grid, 1), c(0, 0));
}

#[test]
fn table_move_runs_rank_then_file() {
    // Table anchored at (0, 10); East sits in rank 3 (Right), file 1 (Left) and in rank 0
    // (Up), file 2 (Down).
    let blocks = vec![(c(2, 6), GraveId::East), (c(3, 9), GraveId::East), (c(1, 9), GraveId::North)];
    let table = movement_table_update(c(0, 10), &blocks);
    assert_eq!(table.get(3, 1), Some(GraveId::East));
    assert_eq!(table.get(0, 2), Some(GraveId::East));
    assert_eq!(table.get(0, 0), Some(GraveId::North));
    assert_eq!(table.get(1, 1), None);
    let mut state = WilloState::RankMove(GraveId::East);
    let mut timer = MovementTimer::default();
    let ev = move_player_by_table(&table, &mut timer, &mut state, 140);
    assert_eq!(ev, vec![WilloMovementEvent { direction: Direction::Up }, WilloMovementEvent { direction: Direction::Right }]);
    let ev = move_player_by_table(&table, &mut timer, &mut state, 140);
    assert_eq!(ev, vec![WilloMovementEvent { direction: Direction::Down }, WilloMovementEvent { direction: Direction::Left }]);
    assert_eq!(state, WilloState::Waiting);
}

#[test]
fn table_ignores_blocks_outside_window() {
    let blocks = vec![(c(0, 9), GraveId::West), (c(5, 9), GraveId::West), (c(1, 10), GraveId::West), (c(1, 5), GraveId::West)];
    let table = movement_table_update(c(0, 10), &blocks);
    for r in 0..4 {
        for f in 0..4 {
            assert_eq!(table.get(r, f), None);
        }
    }
    let later = movement_table_update(c(0, 10), &vec![(c(1, 9), GraveId::West), (c(1, 9), GraveId::South)]);
    assert_eq!(later.get(0, 0), Some(GraveId::South));
    assert_eq!(MovementTable::empty().get(2, 2), None);
}

#[test]
fn rewind_hold_repeats_and_accelerates() {
    let mut state = WilloState::Dead;
    let mut settings = RewindSettings { hold_start_millis: 100, hold_end_millis: 400, hold_acceleration: 1000, hold_timer: None };
    let press = WilloInput { rewind_just_pressed: true, rewind_pressed: true, ..Default::default() };
    assert_eq!(player_state_input(&mut state, &press, &mut settings, 16), vec![HistoryCommands::Rewind]);
    assert_eq!(state, WilloState::Waiting);
    assert_eq!(settings.hold_timer.unwrap().velocity_millis, 400);
    let hold = WilloInput { rewind_pressed: true, ..Default::default() };
    assert!(player_state_input(&mut state, &hold, &mut settings, 200).is_empty());
    assert_eq!(settings.hold_timer.unwrap().velocity_millis, 200);
    assert_eq!(player_state_input(&mut state, &hold, &mut settings, 200), vec![HistoryCommands::Rewind]);
    let rt = settings.hold_timer.unwrap();
    assert_eq!(rt.velocity_millis, 100);
    assert_eq!(rt.timer.duration_millis, 100);
    let reset = WilloInput { reset_just_pressed: true, ..Default::default() };
    assert_eq!(player_state_input(&mut state, &reset, &mut settings, 16), vec![HistoryCommands::Reset]);
}

#[test]
fn moving_willo_ignores_rewind_and_dead_willo_ignores_moves() {
    let mut settings = RewindSettings { hold_start_millis: 100, hold_end_millis: 400, hold_acceleration: 1000, hold_timer: None };
    let mut state = WilloState::FileMove(GraveId::North);
    let both = WilloInput { north_just_pressed: true, rewind_just_pressed: true, ..Default::default() };
    assert!(player_state_input(&mut state, &both, &mut settings, 16).is_empty());
    assert_eq!(state, WilloState::FileMove(GraveId::North));
    let mut dead = WilloState::Dead;
    let mv = WilloInput { west_just_pressed: true, south_just_pressed: true, ..Default::default() };
    assert!(player_state_input(&mut dead, &mv, &mut settings, 16).is_empty());
    assert_eq!(dead, WilloState::Dead);
    let mut waiting = WilloState::Waiting;
    assert_eq!(player_state_input(&mut waiting, &mv, &mut settings, 16), vec![HistoryCommands::Record]);
    assert_eq!(waiting, WilloState::RankMove(GraveId::West));
}

#[test]
fn death_on_hazard_once() {
    let mut state = WilloState::Waiting;
    let hazards = vec![c(4, 4), c(1, 2)];
    assert!(!check_death(&mut state, c(0, 0), &hazards));
    assert_eq!(state, WilloState::Waiting);
    assert!(check_death(&mut state, c(1, 2), &hazards));
    assert_eq!(state, WilloState::Dead);
    assert!(!check_death(&mut state, c(1, 2), &hazards));
}

#[test]
fn grid_helpers() {
    assert_eq!(file_to_tile_coords(0, 3, 5), c(3, 4));
    assert_eq!(file_to_tile_coords(4, 0, 5), c(0, 0));
    assert_eq!(direction_order(0), Direction::Up);
    assert_eq!(direction_order(3), Direction::Right);
    assert_eq!(Direction::Down.unit_vector(), c(0, -1));
    let edges = spawn_table_edges(c(2, 7));
    assert_eq!(edges.len(), 8);
    assert_eq!(edges[0], (Direction::Up, c(3, 7)));
    assert_eq!(edges[1], (Direction::Up, c(2, 6)));
    assert_eq!(edges[7], (Direction::Right, c(2, 3)));
}

#[test]
fn completed_level_moves_to_transition() {
    let mut goals = vec![GoalCell { entity: 10, coords: c(0, 0), goal: Goal::default() }];
    let mut cards: EventScheduler<LevelCardEvent> = EventScheduler::new();
    let r = check_goal(&mut goals, &vec![(1, c(0, 0))], &mut cards, None);
    assert!(r.level_complete);
    assert_eq!(r.next_state, Some(willos_graveyard::GameState::LevelTransition));
    assert_eq!(cards.len(), 0);
    let r = check_goal(&mut goals, &vec![], &mut cards, None);
    assert_eq!(r.next_state, None);
}
