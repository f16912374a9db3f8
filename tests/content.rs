use willos_graveyard::animation::{history_sugar, play_death_animations, SpriteSheetAnimation, WilloAnimationState};
use willos_graveyard::gravestone::{gravestone_body_weights, spawn_gravestone_body, GraveId};
use willos_graveyard::grid::{Direction, GridCoords};
use willos_graveyard::history::HistoryCommands;
use willos_graveyard::level::{load_level, LevelError, TileKind};
use willos_graveyard::movement_table::{movement_table_update, update_control_display};
use willos_graveyard::timer::Timer;
use willos_graveyard::wind::{animate_grass_system, Gust, WindTimer};

fn grid(lines: &[&str]) -> Vec<Vec<char>> {
    lines.iter().map(|l| l.chars().collect()).collect()
}

fn c(x: i32, y: i32) -> GridCoords {
    GridCoords::new(x, y)
}

#[test]
fn level_places_players_and_tiles() {
    let layout = load_level(&grid(&["FFFF", "FI.g", "Fw..i", "FFF"])).unwrap();
    assert_eq!(layout.height, 4);
    assert_eq!(layout.width, 5);
    assert_eq!(layout.willo, Some(c(1, 2)));
    assert_eq!(layout.chester, None);
    assert_eq!(layout.tiles.len(), 12);
    assert_eq!(layout.tiles[0], (TileKind::Wall, c(0, 3)));
    assert_eq!(layout.tiles[5], (TileKind::Goal, c(3, 2)));
    assert_eq!(layout.tiles[7], (TileKind::InputBlock(Direction::Up), c(1, 1)));
    assert_eq!(layout.tiles[8], (TileKind::WilloTable, c(4, 1)));
    assert_eq!(layout.tiles[11], (TileKind::Wall, c(2, 0)));
}

#[test]
fn level_tile_characters() {
    let layout = load_level(&grid(&["bBtTwWaAsSdDgGxC c"])).unwrap();
    let kinds: Vec<TileKind> = layout.tiles.iter().map(|t| t.0).collect();
    assert_eq!(
        kinds,
        vec![
            TileKind::Wall,
            TileKind::Wall,
            TileKind::Wall,
            TileKind::Wall,
            TileKind::InputBlock(Direction::Up),
            TileKind::InputBlock(Direction::Up),
            TileKind::InputBlock(Direction::Left),
            TileKind::InputBlock(Direction::Left),
            TileKind::InputBlock(Direction::Down),
            TileKind::InputBlock(Direction::Down),
            TileKind::InputBlock(Direction::Right),
            TileKind::InputBlock(Direction::Right),
            TileKind::Goal,
            TileKind::Goal,
            TileKind::ChesterTable,
        ]
    );
    assert_eq!(layout.chester, Some(c(15, 0)));
}

#[test]
fn last_player_mark_wins() {
    let layout = load_level(&grid(&["I..", ".I."])).unwrap();
    assert_eq!(layout.willo, Some(c(1, 0)));
}

#[test]
fn table_without_player_is_an_error() {
    assert_eq!(load_level(&grid(&["..i"])), Err(LevelError::TableWithoutWillo));
    assert_eq!(load_level(&grid(&["I.c"])), Err(LevelError::TableWithoutChester));
    assert_eq!(load_level(&grid(&["c.i"])), Err(LevelError::TableWithoutChester));
    let empty = load_level(&vec![]).unwrap();
    assert_eq!((empty.width, empty.height), (0, 0));
}

#[test]
fn animation_follows_on() {
    let mut push = WilloAnimationState::Push(Direction::Left);
    assert_eq!(push.next(), Some(WilloAnimationState::Idle(Direction::Left)));
    assert_eq!(push, WilloAnimationState::Push(Direction::Left));
    assert_eq!(WilloAnimationState::Dying.next(), Some(WilloAnimationState::Gone));
    assert_eq!(WilloAnimationState::Gone.next(), Some(WilloAnimationState::Gone));
    assert_eq!(WilloAnimationState::Idle(Direction::Up).next(), Some(WilloAnimationState::Idle(Direction::Down)));
    assert_eq!(WilloAnimationState::default(), WilloAnimationState::Idle(Direction::Down));
}

#[test]
fn sprite_sheet_frames() {
    let a = SpriteSheetAnimation::from_state(WilloAnimationState::Idle(Direction::Down));
    assert_eq!(a.indices, 50..57);
    assert!(a.repeat);
    assert_eq!(a.frame_timer, Timer::new(150, true));
    let d = SpriteSheetAnimation::from_state(WilloAnimationState::Dying);
    assert_eq!(d.indices, 80..105);
    assert!(!d.repeat);
    assert_eq!(SpriteSheetAnimation::from_state(WilloAnimationState::Push(Direction::Right)).indices, 31..32);
    assert_eq!(SpriteSheetAnimation::from_state(WilloAnimationState::Gone).indices, 3..4);
}

#[test]
fn undo_resets_animation() {
    let mut a = WilloAnimationState::Push(Direction::Up);
    assert!(!history_sugar(&vec![HistoryCommands::Record], &mut a));
    assert_eq!(a, WilloAnimationState::Push(Direction::Up));
    assert!(history_sugar(&vec![HistoryCommands::Record, HistoryCommands::Reset], &mut a));
    assert_eq!(a, WilloAnimationState::Idle(Direction::Down));
    play_death_animations(false, &mut a);
    assert_eq!(a, WilloAnimationState::Idle(Direction::Down));
    play_death_animations(true, &mut a);
    assert_eq!(a, WilloAnimationState::Dying);
}

#[test]
fn grass_drifts_on_gusts() {
    let mut t = WindTimer::default();
    assert_eq!(animate_grass_system(&mut t, 2, 5, Gust::Forward, 100), 2);
    assert_eq!(animate_grass_system(&mut t, 2, 5, Gust::Forward, 100), 3);
    assert_eq!(animate_grass_system(&mut t, 4, 5, Gust::Forward, 200), 4);
    assert_eq!(animate_grass_system(&mut t, 0, 5, Gust::Back, 200), 0);
    assert_eq!(animate_grass_system(&mut t, 3, 5, Gust::Back, 200), 2);
    assert_eq!(animate_grass_system(&mut t, 3, 5, Gust::Calm, 200), 3);
}

#[test]
fn timers_once_and_repeating() {
    let mut once = Timer::new(100, false);
    once.tick(60);
    assert!(!once.finished());
    once.tick(60);
    assert!(once.finished() && once.just_finished());
    assert_eq!(once.elapsed_millis, 100);
    once.tick(10);
    assert!(once.finished() && !once.just_finished());
    once.reset();
    assert!(!once.finished());
    let mut rep = Timer::new(100, true);
    rep.tick(250);
    assert!(rep.just_finished());
    assert_eq!(rep.elapsed_millis, 50);
    rep.tick(10);
    assert!(!rep.finished());
    rep.set_duration(40);
    rep.tick(0);
    assert!(rep.just_finished());
    assert_eq!(rep.elapsed_millis, 20);
}

#[test]
fn gravestone_identifiers() {
    assert_eq!(GraveId::from_identifier("W"), Some(GraveId::North));
    assert_eq!(GraveId::from_identifier("A"), Some(GraveId::West));
    assert_eq!(GraveId::from_identifier("S"), Some(GraveId::South));
    assert_eq!(GraveId::from_identifier("D"), Some(GraveId::East));
    assert_eq!(GraveId::from_identifier("X"), None);
    assert_eq!(GraveId::from_identifier("WA"), None);
    assert_eq!(GraveId::from_identifier(""), None);
}

#[test]
fn gravestone_body_draws_from_weights() {
    assert_eq!(gravestone_body_weights(), vec![121, 100, 81, 64, 49, 36, 25, 16, 9, 4, 1]);
    let mut seen_other_than_first = false;
    for _ in 0..200 {
        let i = spawn_gravestone_body();
        assert!((11..22).contains(&i));
        if i != 11 {
            seen_other_than_first = true;
        }
    }
    assert!(seen_other_than_first);
}

#[test]
fn control_display_lists_direction_pairs() {
    let blocks = vec![(c(2, 6), GraveId::East), (c(3, 9), GraveId::East), (c(1, 9), GraveId::North)];
    let table = movement_table_update(c(0, 10), &blocks);
    let rows = update_control_display(&table);
    assert_eq!(rows.len(), 4);
    assert_eq!(rows[0], vec![(Direction::Up, Direction::Up)]);
    assert!(rows[1].is_empty());
    assert!(rows[2].is_empty());
    assert_eq!(rows[3], vec![(Direction::Up, Direction::Down), (Direction::Right, Direction::Left)]);
}
