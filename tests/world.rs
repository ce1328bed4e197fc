use rand::SeedableRng;
use rand_pcg::Pcg64;
use wilderness::map::{GameMap, Tile, TileType, MAP_SIZE};
use wilderness::position::Position;

#[test]
fn tile_new_is_plain_passable_dirt() {
    let t = Tile::new(4, 9);
    assert_eq!(t.tile_type, TileType::Dirt);
    assert_eq!(t.variant, 0);
    assert_eq!(*t.position(), Position::new(4, 9));
    assert!(t.is_passable());
    assert_eq!(t.name(), "Dirt");
}

#[test]
fn tile_name_follows_kind() {
    let mut t = Tile::new(0, 0);
    t.tile_type = TileType::Grass;
    assert_eq!(t.name(), "Grass");
}

#[test]
fn center_and_bounds() {
    assert_eq!(GameMap::center(), MAP_SIZE / 2);
    let map = GameMap::new();
    assert!(map.is_in_bounds(0, 0));
    assert!(map.is_in_bounds(999, 999));
    assert!(!map.is_in_bounds(-1, 0));
    assert!(!map.is_in_bounds(0, -1));
    assert!(!map.is_in_bounds(1000, 0));
    assert!(!map.is_in_bounds(0, 1000));
}

#[test]
fn at_outside_is_absent() {
    let map = GameMap::new();
    assert!(map.at(-1, 5).is_none());
    assert!(map.at(5, -1).is_none());
    assert!(map.at(1000, 5).is_none());
    assert!(map.at(5, 1000).is_none());
    assert!(map.at(i32::MIN, i32::MAX).is_none());
}

#[test]
fn at_inside_is_tile_of_that_coordinate() {
    let map = GameMap::new();
    for &(x, y) in &[(0, 0), (999, 999), (0, 999), (999, 0), (123, 456)] {
        let t = map.at(x, y).unwrap();
        assert_eq!(*t.position(), Position::new(x, y));
    }
}

#[test]
fn index_to_position_splits_row_major() {
    let map = GameMap::new();
    assert_eq!(map.index_to_position(0), (0, 0));
    assert_eq!(map.index_to_position(1), (0, 1));
    assert_eq!(map.index_to_position(1000), (1, 0));
    assert_eq!(map.index_to_position(123456), (123, 456));
    assert_eq!(map.index_to_position(999_999), (999, 999));
}

#[test]
fn portion_around_inside() {
    let map = GameMap::new();
    let p = map.portion_around(&Position::new(500, 500), 2);
    assert_eq!(p.len(), 16);
    assert_eq!(*p[0].position(), Position::new(498, 498));
    assert_eq!(*p[1].position(), Position::new(498, 499));
    assert_eq!(*p[4].position(), Position::new(499, 498));
    assert_eq!(*p[15].position(), Position::new(501, 501));
}

#[test]
fn portion_around_clipped_at_corner() {
    let map = GameMap::new();
    let p = map.portion_around(&Position::new(0, 1), 3);
    assert_eq!(p.len(), 3 * 4);
    for t in &p {
        let q = t.position();
        assert!(q.x() >= 0 && q.x() < 3 && q.y() >= 0 && q.y() < 4);
    }
    let q = map.portion_around(&Position::new(999, 999), 1);
    assert_eq!(q.len(), 4);
    assert_eq!(*q[0].position(), Position::new(998, 998));
    assert_eq!(*q[3].position(), Position::new(999, 999));
}

#[test]
fn portion_around_empty_cases() {
    let map = GameMap::new();
    assert_eq!(map.portion_around(&Position::new(500, 500), 0).len(), 0);
    assert_eq!(map.portion_around(&Position::new(-500, 500), 100).len(), 0);
    assert_eq!(map.portion_around(&Position::new(500, 2000), 100).len(), 0);
}

#[test]
fn portion_around_whole_map() {
    let map = GameMap::new();
    let p = map.portion_around(&Position::new(500, 500), usize::MAX);
    assert_eq!(p.len(), MAP_SIZE * MAP_SIZE);
}

fn same_grid(a: &GameMap, b: &GameMap) -> bool {
    for x in 0..MAP_SIZE as i32 {
        for y in 0..MAP_SIZE as i32 {
            let s = a.at(x, y).unwrap();
            let t = b.at(x, y).unwrap();
            if s.tile_type != t.tile_type || s.variant != t.variant || s.position() != t.position() {
                return false;
            }
        }
    }
    true
}

#[test]
fn generation_is_deterministic_per_seed() {
    let mut a = GameMap::new();
    let mut b = GameMap::new();
    a.generate(&mut Pcg64::seed_from_u64(42));
    b.generate(&mut Pcg64::seed_from_u64(42));
    assert!(same_grid(&a, &b));
    let mut c = GameMap::new();
    c.generate(&mut Pcg64::seed_from_u64(43));
    assert!(!same_grid(&a, &c));
}

#[test]
fn generation_draws_kinds_and_variants() {
    let mut map = GameMap::new();
    map.generate(&mut Pcg64::seed_from_u64(1234));
    let mut grass = 0usize;
    let mut varied = 0usize;
    let mut seen = [false; 5];
    for x in 0..MAP_SIZE as i32 {
        for y in 0..MAP_SIZE as i32 {
            let t = map.at(x, y).unwrap();
            assert_eq!(*t.position(), Position::new(x, y));
            assert!(t.is_passable());
            assert!(t.variant <= 4);
            seen[t.variant] = true;
            if t.tile_type == TileType::Grass {
                grass += 1;
            }
            if t.variant != 0 {
                varied += 1;
            }
        }
    }
    assert!(seen.iter().all(|&s| s));
    assert!(grass > 590_000 && grass < 610_000);
    assert!(varied > 195_000 && varied < 205_000);
}

#[test]
fn drawn_tile_follows_draws() {
    let t = Tile::drawn(12, 34, true, Some(3));
    assert_eq!(t.tile_type, TileType::Grass);
    assert_eq!(t.variant, 3);
    assert_eq!(*t.position(), Position::new(12, 34));
    assert!(t.is_passable());
    let u = Tile::drawn(0, 999, false, None);
    assert_eq!(u.tile_type, TileType::Dirt);
    assert_eq!(u.variant, 0);
    assert_eq!(*u.position(), Position::new(0, 999));
}
