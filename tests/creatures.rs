use wilderness::animals::{Animal, AnimalState};
use wilderness::entity::Entity;
use wilderness::game::Game;
use wilderness::position::Position;
use wilderness::render::Color;

fn animal_at(x: i32, y: i32) -> Animal {
    Animal::new(x, y)
}

#[test]
fn animal_new_is_idle_cyan() {
    let a = animal_at(7, 8);
    assert_eq!(*a.current_position(), Position::new(7, 8));
    assert_eq!(a.state(), AnimalState::Idle);
    assert_eq!(a.render_info().character, 'a');
    assert_eq!(a.render_info().color, Color::Cyan);
    assert_eq!(a.stats().str.lvl(), 3);
    assert_eq!(a.stats().dex.lvl(), 10);
    assert_eq!(a.stats().per.lvl(), 15);
    assert!(a.name().is_none());
    assert_eq!(a.kind(), "Animal");
}

#[test]
fn position_gives_write_access() {
    let mut a = animal_at(7, 8);
    *a.position() = Position::new(1, 2);
    assert_eq!(*a.current_position(), Position::new(1, 2));
}

#[test]
fn idle_wander_into_free_cell_moves() {
    let game = Game::new();
    let mut a = animal_at(100, 100);
    a.react(&game, Some((1, -1)), false);
    assert_eq!(*a.current_position(), Position::new(101, 99));
    assert_eq!(a.state(), AnimalState::Idle);
}

#[test]
fn idle_without_wander_stays() {
    let game = Game::new();
    let mut a = animal_at(100, 100);
    a.react(&game, None, false);
    assert_eq!(*a.current_position(), Position::new(100, 100));
    assert_eq!(a.state(), AnimalState::Idle);
}

#[test]
fn wander_off_the_map_is_dropped() {
    let game = Game::new();
    let mut a = animal_at(0, 0);
    a.react(&game, Some((-1, 0)), false);
    assert_eq!(*a.current_position(), Position::new(0, 0));
}

#[test]
fn wander_onto_player_is_dropped_and_creature_flees() {
    let game = Game::new();
    let p = *game.player_position();
    let mut a = animal_at(p.x() - 1, p.y());
    a.react(&game, Some((1, 0)), false);
    assert_eq!(*a.current_position(), Position::new(p.x() - 1, p.y()));
    assert_eq!(a.state(), AnimalState::FleeFromPlayer);
}

#[test]
fn wander_onto_creature_is_dropped() {
    let game = Game::new();
    let other = *game.entities()[0].current_position();
    let mut a = animal_at(other.x() + 1, other.y());
    a.react(&game, Some((-1, 0)), false);
    assert_eq!(*a.current_position(), Position::new(other.x() + 1, other.y()));
}

#[test]
fn idle_creature_that_sees_player_flees_same_tick() {
    let game = Game::new();
    let p = *game.player_position();
    let mut a = animal_at(p.x() + 10, p.y());
    a.react(&game, None, false);
    assert_eq!(a.state(), AnimalState::FleeFromPlayer);
    let mut b = animal_at(p.x() + 15, p.y());
    b.react(&game, Some((-1, 0)), false);
    assert_eq!(*b.current_position(), Position::new(p.x() + 14, p.y()));
    assert_eq!(b.state(), AnimalState::FleeFromPlayer);
}

#[test]
fn idle_creature_out_of_sight_stays_idle() {
    let game = Game::new();
    let p = *game.player_position();
    let mut a = animal_at(p.x() + 15, p.y());
    a.react(&game, None, false);
    assert_eq!(a.state(), AnimalState::Idle);
}

fn fleeing_at(game: &Game, x: i32, y: i32) -> Animal {
    let p = *game.player_position();
    let mut a = animal_at(p.x(), p.y() + 3);
    a.react(game, None, false);
    assert_eq!(a.state(), AnimalState::FleeFromPlayer);
    *a.position() = Position::new(x, y);
    a
}

#[test]
fn fleeing_creature_steps_away() {
    let game = Game::new();
    let p = *game.player_position();
    let mut a = fleeing_at(&game, p.x() - 5, p.y() - 5);
    a.react(&game, None, false);
    assert_eq!(*a.current_position(), Position::new(p.x() - 6, p.y() - 6));
    assert_eq!(a.state(), AnimalState::FleeFromPlayer);
    assert_eq!(a.render_info().color, Color::Red);
}

#[test]
fn fleeing_out_of_sight_never_moves() {
    let game = Game::new();
    let mut a = fleeing_at(&game, 100, 100);
    a.react(&game, None, false);
    assert_eq!(*a.current_position(), Position::new(100, 100));
    assert_eq!(a.state(), AnimalState::FleeFromPlayer);
    a.react(&game, None, true);
    assert_eq!(*a.current_position(), Position::new(100, 100));
    assert_eq!(a.state(), AnimalState::Idle);
}

#[test]
fn fleeing_calm_rate_is_about_three_in_ten() {
    let mut game = Game::new();
    let mut calmed = 0;
    for _ in 0..10_000 {
        let mut a = fleeing_at(&game, 100, 100);
        a.tick(&mut game);
        assert_eq!(*a.current_position(), Position::new(100, 100));
        if a.state() == AnimalState::Idle {
            calmed += 1;
        }
    }
    assert!(calmed > 2_700 && calmed < 3_300);
}

#[test]
fn idle_tick_moves_at_most_one_step() {
    let mut game = Game::new();
    let mut moved = 0;
    for _ in 0..3_000 {
        let mut a = animal_at(100, 100);
        a.tick(&mut game);
        let q = *a.current_position();
        assert!((q.x() - 100).abs() <= 1 && (q.y() - 100).abs() <= 1);
        if q != Position::new(100, 100) {
            moved += 1;
        }
    }
    // a step is tried with chance 3/10 and is a no-op one time in nine
    assert!(moved > 700 && moved < 900);
}

#[test]
fn ticks_with_same_seed_agree() {
    let mut g1 = Game::new();
    let mut g2 = Game::new();
    for _ in 0..200 {
        let mut a = animal_at(200, 200);
        let mut b = animal_at(200, 200);
        a.tick(&mut g1);
        b.tick(&mut g2);
        assert_eq!(*a.current_position(), *b.current_position());
    }
}
