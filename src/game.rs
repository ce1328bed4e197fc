//! The orchestrator: it owns the map, the player, the creatures and the
//! random stream, and advances them one turn at a time.
use crate::animals::{draws_fit, lemma_tick_keeps_bodies_apart, Animal, AnimalState};
use crate::entity::Entity;
use crate::map::{in_bounds, GameMap, Tile, MAP_SIZE};
use crate::player::{lemma_player_keeps_bodies_apart, Player};
use crate::position::Position;
use crate::rng::{draw_i32, seeded};
use rand_pcg::Pcg64;
use vstd::prelude::*;

verus! {

#[derive(Copy, Clone, Debug, PartialEq, Eq, Structural)]
pub enum GameState {
    Gameplay,
    Quit,
    InspectTiles,
}

impl GameState {
    /// The mode's name, as shown to the user.
    pub fn label(&self) -> (r: &'static str)
        ensures
            r@ == (match *self {
                GameState::Gameplay => "Gameplay"@,
                GameState::Quit => "Quit"@,
                GameState::InspectTiles => "InspectTiles"@,
            }),
    {
        match self {
            GameState::Gameplay => "Gameplay",
            GameState::Quit => "Quit",
            GameState::InspectTiles => "InspectTiles",
        }
    }
}

/// An input symbol, as the front end reads it from the keyboard.
#[derive(Copy, Clone, Debug, PartialEq, Eq, Structural)]
pub enum Key {
    Left,
    Right,
    Up,
    Down,
    Esc,
    Char(char),
    Unknown,
}

/// The symbol that toggles the tile inspection mode.
pub const INSPECT_KEY: char = 'v';

/// The mode after a turn whose input was `key`: the back key leaves any other
/// mode for gameplay and quits from gameplay; the inspect key enters
/// inspection, or leaves it for gameplay.
pub open spec fn next_mode(mode: GameState, key: Option<Key>) -> GameState {
    match key {
        Some(Key::Esc) => if mode == GameState::Gameplay {
            GameState::Quit
        } else {
            GameState::Gameplay
        },
        Some(Key::Char(c)) => if c == INSPECT_KEY {
            if mode == GameState::InspectTiles {
                GameState::Gameplay
            } else {
                GameState::InspectTiles
            }
        } else {
            mode
        },
        _ => mode,
    }
}

/// Whether the player at `player` or one of `creatures` stands at `(x, y)`.
pub open(crate) spec fn occupied(player: Position, creatures: Seq<Animal>, x: int, y: int) -> bool {
    ||| (player.px() == x && player.py() == y)
    ||| exists|i: int|
        0 <= i < creatures.len() && (#[trigger] creatures[i]).pos().px() == x && creatures[i].pos().py()
            == y
}

/// Whether a body may step onto `(x, y)`: the cell has a tile, the tile is
/// passable, and nobody stands there.
pub open(crate) spec fn cell_free(map: GameMap, player: Position, creatures: Seq<Animal>, x: int, y: int) -> bool {
    &&& in_bounds(x, y)
    &&& map.tile(x, y).is_open()
    &&& !occupied(player, creatures, x, y)
}

/// The test for a creature standing at `p`.
pub open(crate) spec fn stands_at(p: Position) -> spec_fn(Animal) -> bool {
    |a: Animal| a.pos() == p
}

proof fn lemma_nobody_standing_at(s: Seq<Animal>, p: Position)
    ensures
        (s.filter(stands_at(p)).len() == 0) == (forall|i: int| 0 <= i < s.len() ==> (#[trigger] s[i]).pos() != p),
    decreases s.len(),
{
    reveal(Seq::filter);
    if s.len() > 0 {
        lemma_nobody_standing_at(s.drop_last(), p);
        if s.filter(stands_at(p)).len() == 0 {
            assert forall|i: int| 0 <= i < s.len() implies (#[trigger] s[i]).pos() != p by {
                if i < s.len() - 1 {
                    assert(s.drop_last()[i] == s[i]);
                }
            }
        } else {
            if s.last().pos() != p {
                let i = choose|i: int| 0 <= i < s.drop_last().len() && (#[trigger] s.drop_last()[i]).pos() == p;
                assert(s[i] == s.drop_last()[i]);
            }
        }
    }
}

/// The creatures as creature `i` sees them when its tick comes: those
/// before it have already moved this turn, the others not yet.
pub open(crate) spec fn world_for(before: Seq<Animal>, after: Seq<Animal>, i: int) -> Seq<Animal> {
    after.take(i) + before.skip(i)
}

/// Whether `after[i]` is what the tick of `before[i]` can make of it, for some
/// outcome of its draws.
pub open(crate) spec fn ticked_from(
    map: GameMap,
    player: Position,
    before: Seq<Animal>,
    after: Seq<Animal>,
    i: int,
) -> bool {
    exists|wander: Option<(i32, i32)>, calm: bool|
        draws_fit(before[i].mood(), wander, calm) && after[i] == #[trigger] before[i].acted(
            map,
            player,
            world_for(before, after, i),
            wander,
            calm,
        )
}

/// Whether `after` is what one round of creature ticks, in index order, can
/// make of `before`.
pub open(crate) spec fn creatures_round(
    map: GameMap,
    player: Position,
    before: Seq<Animal>,
    after: Seq<Animal>,
) -> bool {
    &&& after.len() == before.len()
    &&& forall|i: int| 0 <= i < before.len() ==> #[trigger] ticked_from(map, player, before, after, i)
}

/// Whether no two bodies share a cell: no creature stands on the player, and
/// no two creatures stand on one cell.
pub open spec fn bodies_apart(player: Position, creatures: Seq<Animal>) -> bool {
    &&& forall|i: int| 0 <= i < creatures.len() ==> (#[trigger] creatures[i]).pos() != player
    &&& forall|i: int, j: int|
        0 <= i < j < creatures.len() ==> (#[trigger] creatures[i]).pos() != (#[trigger] creatures[j]).pos()
}

proof fn lemma_round_prefix_apart(
    map: GameMap,
    player: Position,
    before: Seq<Animal>,
    after: Seq<Animal>,
    k: int,
)
    requires
        bodies_apart(player, before),
        creatures_round(map, player, before, after),
        0 <= k <= before.len(),
    ensures
        bodies_apart(player, world_for(before, after, k)),
    decreases k,
{
    if k == 0 {
        assert(world_for(before, after, 0) =~= before);
    } else {
        let i = k - 1;
        lemma_round_prefix_apart(map, player, before, after, i);
        let w = world_for(before, after, i);
        assert(ticked_from(map, player, before, after, i));
        let (wander, calm) = choose|wander: Option<(i32, i32)>, calm: bool|
            draws_fit(before[i].mood(), wander, calm) && after[i] == #[trigger] before[i].acted(
                map,
                player,
                world_for(before, after, i),
                wander,
                calm,
            );
        assert(w[i] == before[i]);
        lemma_tick_keeps_bodies_apart(before[i], i, map, player, w, wander, calm);
        assert(world_for(before, after, k) =~= w.update(i, after[i]));
    }
}

/// A round of creature ticks never brings two bodies onto one cell.
pub proof fn lemma_round_keeps_bodies_apart(
    map: GameMap,
    player: Position,
    before: Seq<Animal>,
    after: Seq<Animal>,
)
    requires
        bodies_apart(player, before),
        creatures_round(map, player, before, after),
    ensures
        bodies_apart(player, after),
{
    lemma_round_prefix_apart(map, player, before, after, before.len() as int);
    assert(world_for(before, after, before.len() as int) =~= after);
}

/// The seed of the random stream of a new game.
pub const SEED: u64 = 1234;

/// The number of creatures that a new game places.
pub const CREATURE_COUNT: usize = 10;

/// A new creature starts at an offset in `[-SPAWN_SPREAD, SPAWN_SPREAD)` from
/// the center of the map, on each axis.
pub const SPAWN_SPREAD: i32 = 50;

/// The player's side of a turn, as `after_player_turn` states it, is what
/// `turn` does to the player and the mode once `process_input` has recorded
/// `key`.
pub proof fn lemma_player_side_of_turn(g: Game, key: Key)
    requires
        g.input() == Some(key),
    ensures
        g.after_player_turn(key).hero() == g.hero().ticked(g),
        g.after_player_turn(key).mode() == next_mode(g.mode(), g.input()),
{
    assert(Game { last_input_key: Some(key), ..g } == g);
}

pub struct Game {
    pub(crate) state: GameState,
    pub(crate) player: Player,
    pub(crate) entities: Vec<Animal>,
    pub(crate) map: GameMap,
    pub(crate) rng: Pcg64,
    pub(crate) tick_count: usize,
    pub(crate) last_input_key: Option<Key>,
}

impl Game {
    pub open(crate) spec fn wf(&self) -> bool {
        self.map.wf()
    }

    pub open(crate) spec fn mode(&self) -> GameState {
        self.state
    }

    pub open(crate) spec fn hero(&self) -> Player {
        self.player
    }

    pub open(crate) spec fn creatures(&self) -> Seq<Animal> {
        self.entities@
    }

    pub open(crate) spec fn world(&self) -> GameMap {
        self.map
    }

    /// The state of the game's random stream.
    pub open(crate) spec fn stream(&self) -> Pcg64 {
        self.rng
    }

    pub open(crate) spec fn ticks(&self) -> int {
        self.tick_count as int
    }

    pub open(crate) spec fn input(&self) -> Option<Key> {
        self.last_input_key
    }

    /// Whether a body may step onto `(x, y)` in this game.
    pub open(crate) spec fn free_at(&self, x: int, y: int) -> bool {
        cell_free(self.map, self.player.pos(), self.entities@, x, y)
    }

    /// `self` and `other` differ at most in the state of the random stream.
    pub open(crate) spec fn same_but_rng(&self, other: &Game) -> bool {
        &&& self.state == other.state
        &&& self.player == other.player
        &&& self.entities@ == other.entities@
        &&& self.map == other.map
        &&& self.tick_count == other.tick_count
        &&& self.last_input_key == other.last_input_key
    }

    /// A new game: the map generated from the stream seeded with `SEED`, the
    /// player at the center of the map, and `CREATURE_COUNT` idle creatures
    /// around it, each at an offset drawn from `[-SPAWN_SPREAD, SPAWN_SPREAD)`
    /// on each axis.
    pub fn new() -> (r: Game)
        ensures
            r.wf(),
            r.mode() == GameState::Gameplay,
            r.hero().pos().px() == MAP_SIZE / 2 && r.hero().pos().py() == MAP_SIZE / 2,
            r.hero().cursor() == r.hero().pos(),
            r.creatures().len() == CREATURE_COUNT,
            forall|i: int|
                0 <= i < CREATURE_COUNT ==> {
                    let a = #[trigger] r.creatures()[i];
                    &&& a.mood() == AnimalState::Idle
                    &&& MAP_SIZE / 2 - SPAWN_SPREAD <= a.pos().px() < MAP_SIZE / 2 + SPAWN_SPREAD
                    &&& MAP_SIZE / 2 - SPAWN_SPREAD <= a.pos().py() < MAP_SIZE / 2 + SPAWN_SPREAD
                },
            r.ticks() == 0,
            r.input() is None,
    {
        let map = GameMap::new();
        let map_center = GameMap::center() as i32;
        let mut game = Game {
            state: GameState::Gameplay,
            player: Player::new(map_center, map_center),
            rng: seeded(SEED),
            map,
            entities: Vec::new(),
            tick_count: 0,
            last_input_key: None,
        };
        game.map.generate(&mut game.rng);
        let mut i: usize = 0;
        while i < CREATURE_COUNT
            invariant
                game.wf(),
                i <= CREATURE_COUNT,
                map_center == MAP_SIZE / 2,
                game.state == GameState::Gameplay,
                game.player.pos().px() == map_center && game.player.pos().py() == map_center,
                game.player.cursor() == game.player.pos(),
                game.tick_count == 0,
                game.last_input_key is None,
                game.entities@.len() == i,
                forall|k: int|
                    0 <= k < i ==> {
                        let a = #[trigger] game.entities@[k];
                        &&& a.mood() == AnimalState::Idle
                        &&& map_center - SPAWN_SPREAD <= a.pos().px() < map_center + SPAWN_SPREAD
                        &&& map_center - SPAWN_SPREAD <= a.pos().py() < map_center + SPAWN_SPREAD
                    },
            decreases CREATURE_COUNT - i,
        {
            let x = map_center + draw_i32(&mut game.rng, -SPAWN_SPREAD, SPAWN_SPREAD);
            let y = map_center + draw_i32(&mut game.rng, -SPAWN_SPREAD, SPAWN_SPREAD);
            game.entities.push(Animal::new(x, y));
            i += 1;
        }
        game
    }

    /// One turn after the input was recorded: the player ticks on it; then,
    /// if and only if the game is in gameplay, every creature ticks in index
    /// order and the tick counter goes up by one.
    pub fn turn(&mut self)
        requires
            old(self).wf(),
            old(self).ticks() < usize::MAX,
        ensures
            final(self).wf(),
            final(self).hero() == old(self).hero().ticked(*old(self)),
            final(self).mode() == next_mode(old(self).mode(), old(self).input()),
            final(self).world() == old(self).world(),
            final(self).input() == old(self).input(),
            final(self).mode() == GameState::Gameplay ==> final(self).ticks() == old(self).ticks() + 1
                && creatures_round(
                old(self).world(),
                final(self).hero().pos(),
                old(self).creatures(),
                final(self).creatures(),
            ),
            final(self).mode() != GameState::Gameplay ==> final(self).ticks() == old(self).ticks()
                && final(self).creatures() == old(self).creatures() && final(self).stream() == old(
                self,
            ).stream(),
            bodies_apart(old(self).hero().pos(), old(self).creatures()) ==> bodies_apart(
                final(self).hero().pos(),
                final(self).creatures(),
            ),
    {
        proof {
            if bodies_apart(self.player.pos(), self.entities@) {
                lemma_player_keeps_bodies_apart(*self);
            }
        }
        let mut player = self.player.clone();
        player.tick(self);
        self.player = player;
        if self.state == GameState::Gameplay {
            let ghost before = self.entities@;
            let ghost g0 = *self;
            let len = self.entities.len();
            let mut i: usize = 0;
            while i < len
                invariant
                    self.wf(),
                    i <= len == before.len() == self.entities@.len(),
                    self.state == g0.state,
                    self.player == g0.player,
                    self.map == g0.map,
                    self.tick_count == g0.tick_count,
                    self.last_input_key == g0.last_input_key,
                    g0.tick_count < usize::MAX,
                    forall|k: int| i <= k < len ==> self.entities@[k] == before[k],
                    forall|k: int|
                        0 <= k < i ==> #[trigger] ticked_from(
                            self.map,
                            self.player.pos(),
                            before,
                            self.entities@,
                            k,
                        ),
                decreases len - i,
            {
                let ghost prev = self.entities@;
                assert(prev =~= world_for(before, prev, i as int));
                let mut entity = self.entities[i].clone();
                entity.tick(self);
                self.entities[i] = entity;
                proof {
                    let now = self.entities@;
                    assert(world_for(before, now, i as int) =~= prev);
                    assert forall|k: int| 0 <= k <= i implies #[trigger] ticked_from(
                        self.map,
                        self.player.pos(),
                        before,
                        now,
                        k,
                    ) by {
                        assert(world_for(before, now, k) =~= world_for(before, prev, k));
                        if k < i {
                            assert(ticked_from(self.map, self.player.pos(), before, prev, k));
                            let (w, c) = choose|w: Option<(i32, i32)>, c: bool|
                                draws_fit(before[k].mood(), w, c) && prev[k] == #[trigger] before[k].acted(
                                    self.map,
                                    self.player.pos(),
                                    world_for(before, prev, k),
                                    w,
                                    c,
                                );
                            assert(now[k] == before[k].acted(
                                self.map,
                                self.player.pos(),
                                world_for(before, now, k),
                                w,
                                c,
                            ));
                        }
                    }
                }
                i += 1;
            }
            proof {
                if bodies_apart(self.player.pos(), before) {
                    lemma_round_keeps_bodies_apart(self.map, self.player.pos(), before, self.entities@);
                }
            }
            self.tick_count += 1;
        }
    }

    /// The game after the player's side of a turn on input `key`: the input
    /// is recorded, the player ticks on it, and the mode follows.
    pub open(crate) spec fn after_player_turn(self, key: Key) -> Game {
        let g = Game { last_input_key: Some(key), ..self };
        Game { player: self.player.ticked(g), state: next_mode(self.state, Some(key)), ..g }
    }

    /// The game after the player's side of a turn on each of `keys` in turn.
    pub open(crate) spec fn after_player_turns(self, keys: Seq<Key>) -> Game
        decreases keys.len(),
    {
        if keys.len() == 0 {
            self
        } else {
            self.after_player_turn(keys[0]).after_player_turns(keys.skip(1))
        }
    }

    pub fn player(&self) -> (r: &Player)
        ensures
            *r == self.hero(),
    {
        &self.player
    }

    /// The creatures, in the order in which they tick.
    pub fn entities(&self) -> (r: &Vec<Animal>)
        ensures
            r@ == self.creatures(),
    {
        &self.entities
    }

    pub fn map(&self) -> (r: &GameMap)
        ensures
            *r == self.world(),
            r.wf() == self.wf(),
    {
        &self.map
    }

    pub fn current_state(&self) -> (r: GameState)
        ensures
            r == self.mode(),
    {
        self.state
    }

    pub fn player_position(&self) -> (r: &Position)
        ensures
            *r == self.hero().pos(),
    {
        &self.player.position
    }

    pub fn cursor_position(&self) -> (r: &Position)
        ensures
            *r == self.hero().cursor(),
    {
        self.player.cursor_position()
    }

    /// The focus of the view: the cursor while tiles are inspected, the
    /// player otherwise.
    pub fn camera_position(&self) -> (r: &Position)
        ensures
            *r == (if self.mode() == GameState::InspectTiles {
                self.hero().cursor()
            } else {
                self.hero().pos()
            }),
    {
        match self.state {
            GameState::InspectTiles => self.cursor_position(),
            _ => self.player_position(),
        }
    }

    /// Records the input symbol of this turn.
    pub fn process_input(&mut self, key: &Key)
        ensures
            final(self).input() == Some(*key),
            final(self).mode() == old(self).mode(),
            final(self).hero() == old(self).hero(),
            final(self).creatures() == old(self).creatures(),
            final(self).world() == old(self).world(),
            final(self).ticks() == old(self).ticks(),
            final(self).stream() == old(self).stream(),
    {
        self.last_input_key = Some(*key);
    }

    pub fn tick_count(&self) -> (r: usize)
        ensures
            r == self.ticks(),
    {
        self.tick_count
    }

    /// The number of creatures.
    pub fn entity_count(&self) -> (r: usize)
        ensures
            r == self.creatures().len(),
    {
        self.entities.len()
    }

    /// The creatures standing at `position`, in order.
    pub fn entities_at(&self, position: &Position) -> (r: Vec<&Animal>)
        ensures
            r@.map_values(|a: &Animal| *a) == self.creatures().filter(stands_at(*position)),
    {
        let mut found: Vec<&Animal> = Vec::new();
        let mut i: usize = 0;
        while i < self.entities.len()
            invariant
                i <= self.entities@.len(),
                found@.map_values(|a: &Animal| *a) == self.entities@.take(i as int).filter(
                    stands_at(*position),
                ),
            decreases self.entities@.len() - i,
        {
            assert(self.entities@.take(i + 1).drop_last() =~= self.entities@.take(i as int));
            reveal(Seq::filter);
            let entity = &self.entities[i];
            let ghost before = found@;
            if entity.current_position() == position {
                found.push(entity);
                assert(found@.map_values(|a: &Animal| *a) =~= before.map_values(|a: &Animal| *a).push(*entity));
            }
            i += 1;
        }
        assert(self.entities@.take(i as int) =~= self.entities@);
        found
    }

    pub fn tile_at(&self, position: &Position) -> (r: Option<&Tile>)
        requires
            self.wf(),
        ensures
            r.is_some() == in_bounds(position.px(), position.py()),
            r.is_some() ==> *r.unwrap() == self.world().tile(position.px(), position.py()),
    {
        self.map.at(position.x(), position.y())
    }

    /// Whether a body may step onto `position`: it has a tile, the tile is
    /// passable, and neither a creature nor the player stands there.
    pub fn is_passable(&self, position: &Position) -> (r: bool)
        requires
            self.wf(),
        ensures
            r == self.free_at(position.px(), position.py()),
    {
        let tile = self.tile_at(position);
        if tile.is_none() {
            false
        } else {
            let no_entities = self.entities_at(position).is_empty() && self.player.current_position()
                != position;
            proof {
                lemma_nobody_standing_at(self.entities@, *position);
                if !occupied(self.player.pos(), self.entities@, position.px(), position.py()) {
                    assert forall|i: int| 0 <= i < self.entities@.len() implies (
                    #[trigger] self.entities@[i]).pos() != *position by {}
                }
            }
            tile.unwrap().is_passable() && no_entities
        }
    }
}

} // verus!
