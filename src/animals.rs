//! Creatures: they wander at random while idle, and flee from the player
//! while they see it.
use crate::entity::Entity;
use crate::game::{bodies_apart, cell_free, occupied, Game};
use crate::map::GameMap;
use crate::position::{sign, within_sight, Position};
use crate::render::{Color, RenderInfo};
use crate::rng::{draw_i32, draw_ratio};
use crate::rpg::CharacterStats;
use vstd::prelude::*;

verus! {

#[derive(Copy, Clone, Debug, PartialEq, Eq, Structural)]
pub enum AnimalState {
    Idle,
    FleeFromPlayer,
}

#[derive(Debug)]
pub struct Animal {
    pub(crate) position: Position,
    pub(crate) state: AnimalState,
    pub(crate) render_info: RenderInfo,
    pub(crate) character_stats: CharacterStats,
}

/// `p` moved by `(h, v)` when a body may step onto the target in a world of
/// `map`, the player at `player` and `creatures`; else `p` itself.
pub open(crate) spec fn step_if_free(
    p: Position,
    h: int,
    v: int,
    map: GameMap,
    player: Position,
    creatures: Seq<Animal>,
) -> Position {
    let (x, y) = p.offset(h, v);
    if cell_free(map, player, creatures, x, y) {
        Position { x: x as i32, y: y as i32 }
    } else {
        p
    }
}

/// Whether draws fit a creature in `state`: a wander step only while idle,
/// with both components in {-1, 0, 1}, and a calming draw only while
/// fleeing.
pub open spec fn draws_fit(state: AnimalState, wander: Option<(i32, i32)>, calm: bool) -> bool {
    &&& wander matches Some((h, v)) ==> -1 <= h <= 1 && -1 <= v <= 1
    &&& state == AnimalState::FleeFromPlayer ==> wander is None
    &&& state == AnimalState::Idle ==> !calm
}

impl Animal {
    pub open(crate) spec fn pos(self) -> Position {
        self.position
    }

    pub open(crate) spec fn with_pos(self, p: Position) -> Animal {
        Animal { position: p, ..self }
    }

    pub open(crate) spec fn mood(self) -> AnimalState {
        self.state
    }

    pub open(crate) spec fn look(self) -> RenderInfo {
        self.render_info
    }

    pub open(crate) spec fn stat_block(self) -> CharacterStats {
        self.character_stats
    }

    /// Whether this creature sees the point `p`.
    pub open(crate) spec fn sees_point(self, p: Position) -> bool {
        within_sight(
            self.position.px(),
            self.position.py(),
            p.px(),
            p.py(),
            self.character_stats.per.level(),
        )
    }

    /// The creature after one tick with the outcome of its draws: `wander`
    /// is the random step of an idle creature, if it tried one, and `calm`
    /// tells whether a fleeing creature that lost sight of the player calms
    /// down.
    ///
    /// An idle creature (shown cyan) takes its random step if the target is
    /// free, then starts to flee if it sees the player from where it stands.
    /// A fleeing creature (shown red) that sees the player steps directly
    /// away from it if that cell is free; one that does not see it stays
    /// put, and turns idle when `calm`.
    pub open(crate) spec fn acted(
        self,
        map: GameMap,
        player: Position,
        creatures: Seq<Animal>,
        wander: Option<(i32, i32)>,
        calm: bool,
    ) -> Animal {
        match self.state {
            AnimalState::Idle => {
                let moved = match wander {
                    Some((h, v)) => step_if_free(self.position, h as int, v as int, map, player, creatures),
                    None => self.position,
                };
                let a = Animal {
                    position: moved,
                    render_info: RenderInfo { color: Color::Cyan, ..self.render_info },
                    ..self
                };
                if a.sees_point(player) {
                    Animal { state: AnimalState::FleeFromPlayer, ..a }
                } else {
                    a
                }
            },
            AnimalState::FleeFromPlayer => {
                let a = Animal { render_info: RenderInfo { color: Color::Red, ..self.render_info }, ..self };
                if self.sees_point(player) {
                    let h = -sign(player.px() - self.position.px());
                    let v = -sign(player.py() - self.position.py());
                    Animal { position: step_if_free(self.position, h, v, map, player, creatures), ..a }
                } else if calm {
                    Animal { state: AnimalState::Idle, ..a }
                } else {
                    a
                }
            },
        }
    }

    pub fn new(x: i32, y: i32) -> (r: Animal)
        ensures
            r.pos().px() == x && r.pos().py() == y,
            r.mood() == AnimalState::Idle,
            r.look() == (RenderInfo { character: 'a', color: Color::Cyan }),
            r.stat_block().str.level() == 3,
            r.stat_block().dex.level() == 10,
            r.stat_block().per.level() == 15,
            r.stat_block().str.exp() == 0,
            r.stat_block().dex.exp() == 0,
            r.stat_block().per.exp() == 0,
            r.stat_block().str.name_view() == "Strength"@,
            r.stat_block().dex.name_view() == "Dexterity"@,
            r.stat_block().per.name_view() == "Perception"@,
    {
        Animal {
            character_stats: CharacterStats::new(3, 10, 15),
            position: Position::new(x, y),
            state: AnimalState::Idle,
            render_info: RenderInfo::new('a', Color::Cyan),
        }
    }

    pub fn state(&self) -> (r: AnimalState)
        ensures
            r == self.mood(),
    {
        self.state
    }

    /// The decisions of one tick, given the outcome of its draws (see
    /// `acted`), against the world of `game`.
    pub fn react(&mut self, game: &Game, wander: Option<(i32, i32)>, calm: bool)
        requires
            game.wf(),
        ensures
            *final(self) == old(self).acted(
                game.world(),
                game.hero().pos(),
                game.creatures(),
                wander,
                calm,
            ),
    {
        let player = *game.player_position();
        match self.state {
            AnimalState::Idle => {
                self.render_info.color = Color::Cyan;
                match wander {
                    Some((h, v)) => {
                        self.position.move_relative_if_passable(h, v, game);
                    },
                    None => {},
                }
                if self.can_see(&player) {
                    self.state = AnimalState::FleeFromPlayer;
                }
            },
            AnimalState::FleeFromPlayer => {
                self.render_info.color = Color::Red;
                if self.can_see(&player) {
                    let dir = self.position.direction_for(&player);
                    self.position.move_relative_if_passable(-1 * dir.0, -1 * dir.1, game);
                } else if calm {
                    self.state = AnimalState::Idle;
                }
            },
        }
    }

    /// One tick of the creature. An idle one tries a random step with
    /// chance 3/10 (each component drawn uniformly from {-1, 0, 1}); a
    /// fleeing one that lost sight of the player calms down with chance
    /// 3/10. Only the game's random stream changes in `game`.
    pub fn tick(&mut self, game: &mut Game)
        requires
            old(game).wf(),
        ensures
            final(game).wf(),
            final(game).same_but_rng(old(game)),
            old(self).mood() == AnimalState::FleeFromPlayer && old(self).sees_point(
                old(game).hero().pos(),
            ) ==> final(game).stream() == old(game).stream(),
            exists|wander: Option<(i32, i32)>, calm: bool|
                draws_fit(old(self).mood(), wander, calm) && *final(self) == #[trigger] old(
                    self,
                ).acted(
                    old(game).world(),
                    old(game).hero().pos(),
                    old(game).creatures(),
                    wander,
                    calm,
                ),
    {
        let (wander, calm) = match self.state {
            AnimalState::Idle => {
                if draw_ratio(&mut game.rng, 3, 10) {
                    let h = draw_i32(&mut game.rng, -1, 2);
                    let v = draw_i32(&mut game.rng, -1, 2);
                    (Some((h, v)), false)
                } else {
                    (None, false)
                }
            },
            AnimalState::FleeFromPlayer => {
                if !self.can_see(game.player_position()) {
                    (None, draw_ratio(&mut game.rng, 3, 10))
                } else {
                    (None, false)
                }
            },
        };
        self.react(game, wander, calm);
        assert(draws_fit(old(self).mood(), wander, calm));
        assert(*self == old(self).acted(
            old(game).world(),
            old(game).hero().pos(),
            old(game).creatures(),
            wander,
            calm,
        ));
    }
}

/// An idle creature that sees the player at the end of its tick flees from
/// then on, whether or not its random step moved it; one that does not see
/// the player stays idle.
pub proof fn lemma_idle_flees_on_sight(
    a: Animal,
    map: GameMap,
    player: Position,
    creatures: Seq<Animal>,
    wander: Option<(i32, i32)>,
)
    requires
        a.mood() == AnimalState::Idle,
    ensures
        ({
            let b = a.acted(map, player, creatures, wander, false);
            &&& b.sees_point(player) ==> b.mood() == AnimalState::FleeFromPlayer
            &&& !b.sees_point(player) ==> b.mood() == AnimalState::Idle
        }),
{
}

/// A fleeing creature that does not see the player does not move on its
/// tick, and turns idle exactly when its calming draw says so.
pub proof fn lemma_fleeing_out_of_sight(
    a: Animal,
    map: GameMap,
    player: Position,
    creatures: Seq<Animal>,
    calm: bool,
)
    requires
        a.mood() == AnimalState::FleeFromPlayer,
        !a.sees_point(player),
    ensures
        ({
            let b = a.acted(map, player, creatures, None, calm);
            &&& b.pos() == a.pos()
            &&& (b.mood() == AnimalState::Idle) == calm
        }),
{
}

/// A creature's step onto a cell that is off the map, impassable or occupied
/// leaves it where it was.
pub proof fn lemma_blocked_step_stays(
    p: Position,
    h: int,
    v: int,
    map: GameMap,
    player: Position,
    creatures: Seq<Animal>,
)
    requires
        !cell_free(map, player, creatures, p.px() + h, p.py() + v),
    ensures
        step_if_free(p, h, v, map, player, creatures) == p,
{
}

/// A creature's tick ends where it stood or on a cell that was free.
proof fn lemma_acted_lands_free(
    a: Animal,
    map: GameMap,
    player: Position,
    creatures: Seq<Animal>,
    wander: Option<(i32, i32)>,
    calm: bool,
)
    ensures
        ({
            let b = a.acted(map, player, creatures, wander, calm);
            b.pos() == a.pos() || cell_free(map, player, creatures, b.pos().px(), b.pos().py())
        }),
{
}

/// The tick of creature `i` of `creatures` never brings two bodies onto one
/// cell.
pub proof fn lemma_tick_keeps_bodies_apart(
    a: Animal,
    i: int,
    map: GameMap,
    player: Position,
    creatures: Seq<Animal>,
    wander: Option<(i32, i32)>,
    calm: bool,
)
    requires
        bodies_apart(player, creatures),
        0 <= i < creatures.len(),
        creatures[i] == a,
    ensures
        bodies_apart(player, creatures.update(i, a.acted(map, player, creatures, wander, calm))),
{
    let b = a.acted(map, player, creatures, wander, calm);
    let after = creatures.update(i, b);
    lemma_acted_lands_free(a, map, player, creatures, wander, calm);
    if b.pos() != a.pos() {
        assert forall|j: int| 0 <= j < creatures.len() implies (#[trigger] creatures[j]).pos() != b.pos() by {
            if creatures[j].pos() == b.pos() {
                assert(occupied(player, creatures, b.pos().px(), b.pos().py()));
            }
        }
    }
    assert forall|j: int, k: int| 0 <= j < k < after.len() implies (#[trigger] after[j]).pos() != (
    #[trigger] after[k]).pos() by {
        assert(creatures[j].pos() != creatures[k].pos());
    }
}

impl Clone for Animal {
    fn clone(&self) -> (r: Self)
        ensures
            r == *self,
    {
        Animal { position: self.position, state: self.state, render_info: self.render_info, character_stats: self.character_stats.clone() }
    }
}

impl Entity for Animal {
    closed spec fn spot(&self) -> Position {
        self.position
    }

    closed spec fn perception(&self) -> int {
        self.character_stats.per.level()
    }

    fn current_position(&self) -> (r: &Position)
        ensures
            *r == self.pos(),
    {
        &self.position
    }

    fn position(&mut self) -> (r: &mut Position)
        ensures
            *final(self) == old(self).with_pos(*final(r)),
    {
        &mut self.position
    }

    fn render_info(&self) -> (r: &RenderInfo)
        ensures
            *r == self.look(),
    {
        &self.render_info
    }

    fn name(&self) -> (r: Option<&str>)
        ensures
            r is None,
    {
        None
    }

    fn kind(&self) -> (r: &str)
        ensures
            r@ == "Animal"@,
    {
        "Animal"
    }

    fn stats(&self) -> (r: &CharacterStats)
        ensures
            *r == self.stat_block(),
    {
        &self.character_stats
    }

    fn can_see(&self, position: &Position) -> (r: bool)
        ensures
            r == self.sees_point(*position),
    {
        self.position.sees(position, self.character_stats.per.lvl())
    }
}

} // verus!
