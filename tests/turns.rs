use wilderness::entity::Entity;
use wilderness::game::{Game, GameState, Key, CREATURE_COUNT};
use wilderness::map::MAP_SIZE;
use wilderness::position::Position;

fn press(game: &mut Game, key: Key) {
    game.process_input(&key);
    game.turn();
}

#[test]
fn new_game_layout() {
    let game = Game::new();
    let c = (MAP_SIZE / 2) as i32;
    assert_eq!(game.current_state(), GameState::Gameplay);
    assert_eq!(*game.player_position(), Position::new(c, c));
    assert_eq!(*game.cursor_position(), Position::new(c, c));
    assert_eq!(*game.camera_position(), Position::new(c, c));
    assert_eq!(game.tick_count(), 0);
    assert_eq!(game.entity_count(), CREATURE_COUNT);
    let mut spread = false;
    for a in game.entities() {
        let p = a.current_position();
        assert!(p.x() >= c - 50 && p.x() < c + 50);
        assert!(p.y() >= c - 50 && p.y() < c + 50);
        if *p != game.entities()[0].current_position().clone() {
            spread = true;
        }
    }
    assert!(spread);
    assert_eq!(game.player().stats().per.lvl(), 30);
    assert_eq!(game.player().name(), Some("Player"));
    assert_eq!(game.player().kind(), "Human");
}

#[test]
fn new_games_agree() {
    let a = Game::new();
    let b = Game::new();
    for i in 0..CREATURE_COUNT {
        assert_eq!(a.entities()[i].current_position(), b.entities()[i].current_position());
    }
}

#[test]
fn moves_right_right_down() {
    let mut game = Game::new();
    let c = (MAP_SIZE / 2) as i32;
    press(&mut game, Key::Right);
    press(&mut game, Key::Right);
    press(&mut game, Key::Down);
    assert_eq!(*game.player_position(), Position::new(c + 2, c + 1));
    assert_eq!(game.tick_count(), 3);
    assert_eq!(game.current_state(), GameState::Gameplay);
}

#[test]
fn each_direction_moves_one_cell() {
    let mut game = Game::new();
    let c = (MAP_SIZE / 2) as i32;
    press(&mut game, Key::Left);
    assert_eq!(*game.player_position(), Position::new(c - 1, c));
    press(&mut game, Key::Up);
    assert_eq!(*game.player_position(), Position::new(c - 1, c - 1));
    press(&mut game, Key::Right);
    assert_eq!(*game.player_position(), Position::new(c, c - 1));
    press(&mut game, Key::Down);
    assert_eq!(*game.player_position(), Position::new(c, c));
}

#[test]
fn quit_from_gameplay_stops_creatures() {
    let mut game = Game::new();
    let before: Vec<Position> = game.entities().iter().map(|a| *a.current_position()).collect();
    press(&mut game, Key::Esc);
    assert_eq!(game.current_state(), GameState::Quit);
    assert_eq!(game.tick_count(), 0);
    let after: Vec<Position> = game.entities().iter().map(|a| *a.current_position()).collect();
    assert_eq!(before, after);
}

#[test]
fn unknown_and_other_chars_are_ignored() {
    let mut game = Game::new();
    let c = (MAP_SIZE / 2) as i32;
    press(&mut game, Key::Unknown);
    press(&mut game, Key::Char('x'));
    assert_eq!(*game.player_position(), Position::new(c, c));
    assert_eq!(game.current_state(), GameState::Gameplay);
    assert_eq!(game.tick_count(), 2);
}

#[test]
fn no_input_yet_is_a_plain_turn() {
    let mut game = Game::new();
    let c = (MAP_SIZE / 2) as i32;
    game.turn();
    assert_eq!(*game.player_position(), Position::new(c, c));
    assert_eq!(game.tick_count(), 1);
}

#[test]
fn inspect_round_trip_keeps_player() {
    let mut game = Game::new();
    let c = (MAP_SIZE / 2) as i32;
    press(&mut game, Key::Char('v'));
    assert_eq!(game.current_state(), GameState::InspectTiles);
    assert_eq!(*game.cursor_position(), Position::new(c, c));
    press(&mut game, Key::Left);
    press(&mut game, Key::Left);
    press(&mut game, Key::Up);
    assert_eq!(*game.cursor_position(), Position::new(c - 2, c - 1));
    assert_eq!(*game.camera_position(), Position::new(c - 2, c - 1));
    assert_eq!(*game.player_position(), Position::new(c, c));
    assert_eq!(game.tick_count(), 0);
    press(&mut game, Key::Char('v'));
    assert_eq!(game.current_state(), GameState::Gameplay);
    assert_eq!(*game.player_position(), Position::new(c, c));
    assert_eq!(*game.camera_position(), Position::new(c, c));
    assert_eq!(game.tick_count(), 1);
}

#[test]
fn cursor_roams_over_occupied_and_off_map() {
    let mut game = Game::new();
    let c = (MAP_SIZE / 2) as i32;
    press(&mut game, Key::Char('v'));
    for _ in 0..(c + 3) {
        press(&mut game, Key::Up);
    }
    assert_eq!(*game.cursor_position(), Position::new(c, -3));
    assert!(game.tile_at(game.cursor_position()).is_none());
}

#[test]
fn back_in_inspect_returns_to_gameplay() {
    let mut game = Game::new();
    press(&mut game, Key::Char('v'));
    press(&mut game, Key::Esc);
    assert_eq!(game.current_state(), GameState::Gameplay);
    press(&mut game, Key::Esc);
    assert_eq!(game.current_state(), GameState::Quit);
}

#[test]
fn entering_inspect_snaps_cursor_to_player() {
    let mut game = Game::new();
    let c = (MAP_SIZE / 2) as i32;
    press(&mut game, Key::Char('v'));
    press(&mut game, Key::Right);
    press(&mut game, Key::Char('v'));
    press(&mut game, Key::Down);
    assert_eq!(*game.player_position(), Position::new(c, c + 1));
    press(&mut game, Key::Char('v'));
    assert_eq!(*game.cursor_position(), Position::new(c, c + 1));
}

#[test]
fn passability_queries() {
    let game = Game::new();
    let p = *game.player_position();
    assert!(!game.is_passable(&p));
    assert!(!game.is_passable(&Position::new(-1, 0)));
    assert!(!game.is_passable(&Position::new(0, 1000)));
    assert!(game.is_passable(&Position::new(3, 3)));
    let a = *game.entities()[0].current_position();
    assert!(!game.is_passable(&a));
    assert!(game.entities_at(&a).len() >= 1);
    assert!(game.entities_at(&Position::new(3, 3)).is_empty());
    assert!(game.tile_at(&Position::new(3, 3)).is_some());
    assert!(game.tile_at(&Position::new(3, -3)).is_none());
}

#[test]
fn creatures_tick_only_in_gameplay() {
    let mut game = Game::new();
    press(&mut game, Key::Char('v'));
    let before: Vec<Position> = game.entities().iter().map(|a| *a.current_position()).collect();
    for _ in 0..20 {
        press(&mut game, Key::Right);
    }
    let after: Vec<Position> = game.entities().iter().map(|a| *a.current_position()).collect();
    assert_eq!(before, after);
    assert_eq!(game.tick_count(), 0);
}

#[test]
fn creatures_never_share_a_cell() {
    let mut game = Game::new();
    for i in 0..300 {
        let key = match i % 4 {
            0 => Key::Left,
            1 => Key::Up,
            2 => Key::Right,
            _ => Key::Down,
        };
        press(&mut game, key);
        let ps: Vec<Position> = game.entities().iter().map(|a| *a.current_position()).collect();
        for (j, p) in ps.iter().enumerate() {
            assert!(*p != *game.player_position());
            for q in ps.iter().skip(j + 1) {
                assert!(p != q);
            }
        }
    }
    assert_eq!(game.tick_count(), 300);
}

#[test]
fn mode_labels() {
    assert_eq!(GameState::Gameplay.label(), "Gameplay");
    assert_eq!(GameState::Quit.label(), "Quit");
    assert_eq!(GameState::InspectTiles.label(), "InspectTiles");
}
