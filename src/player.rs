//! The player: a body moved by the input symbols, and a cursor that roams
//! freely while tiles are inspected.
use crate::entity::Entity;
use crate::game::{bodies_apart, occupied, next_mode, Game, GameState, Key, INSPECT_KEY};
use crate::position::{within_sight, Position};
use crate::render::{Color, RenderInfo};
use crate::rpg::CharacterStats;
use vstd::prelude::*;

verus! {

#[derive(Debug)]
pub struct Player {
    pub(crate) position: Position,
    pub(crate) cursor_position: Position,
    pub(crate) render_info: RenderInfo,
    pub(crate) character_stats: CharacterStats,
}

/// Whether `(x, y)` is a point that a `Position` can hold.
pub open spec fn fits(x: int, y: int) -> bool {
    i32::MIN <= x <= i32::MAX && i32::MIN <= y <= i32::MAX
}

impl Player {
    pub open(crate) spec fn pos(self) -> Position {
        self.position
    }

    pub open(crate) spec fn with_pos(self, p: Position) -> Player {
        Player { position: p, ..self }
    }

    pub open(crate) spec fn cursor(self) -> Position {
        self.cursor_position
    }

    pub open(crate) spec fn look(self) -> RenderInfo {
        self.render_info
    }

    pub open(crate) spec fn stat_block(self) -> CharacterStats {
        self.character_stats
    }

    /// The player after a step of `(h, v)` in mode `g.mode()`: while tiles are
    /// inspected the cursor moves (as long as it stays a valid position);
    /// in gameplay the body moves onto the target only when it is free;
    /// otherwise nothing moves.
    pub open(crate) spec fn stepped(self, h: int, v: int, g: Game) -> Player {
        match g.mode() {
            GameState::InspectTiles => {
                let (x, y) = self.cursor_position.offset(h, v);
                if fits(x, y) {
                    Player { cursor_position: Position { x: x as i32, y: y as i32 }, ..self }
                } else {
                    self
                }
            },
            GameState::Gameplay => {
                let (x, y) = self.position.offset(h, v);
                if g.free_at(x, y) {
                    Player { position: Position { x: x as i32, y: y as i32 }, ..self }
                } else {
                    self
                }
            },
            GameState::Quit => self,
        }
    }

    /// The player after its tick in game `g`, on the input `g.input()`.
    /// Entering tile inspection puts the cursor on the player.
    pub open(crate) spec fn ticked(self, g: Game) -> Player {
        match g.input() {
            Some(Key::Left) => self.stepped(-1, 0, g),
            Some(Key::Right) => self.stepped(1, 0, g),
            Some(Key::Up) => self.stepped(0, -1, g),
            Some(Key::Down) => self.stepped(0, 1, g),
            Some(Key::Char(c)) => if c == INSPECT_KEY && g.mode() != GameState::InspectTiles {
                Player { cursor_position: self.position, ..self }
            } else {
                self
            },
            _ => self,
        }
    }

    pub fn new(x: i32, y: i32) -> (r: Player)
        ensures
            r.pos().px() == x && r.pos().py() == y,
            r.cursor() == r.pos(),
            r.stat_block().str.level() == 5,
            r.stat_block().dex.level() == 5,
            r.stat_block().per.level() == 30,
            r.stat_block().str.exp() == 0,
            r.stat_block().dex.exp() == 0,
            r.stat_block().per.exp() == 0,
            r.stat_block().str.name_view() == "Strength"@,
            r.stat_block().dex.name_view() == "Dexterity"@,
            r.stat_block().per.name_view() == "Perception"@,
            r.look() == (RenderInfo { character: '@', color: Color::White }),
    {
        Player {
            character_stats: CharacterStats::new(5, 5, 30),
            position: Position::new(x, y),
            cursor_position: Position::new(x, y),
            render_info: RenderInfo::new('@', Color::White),
        }
    }

    pub fn cursor_position(&self) -> (r: &Position)
        ensures
            *r == self.cursor(),
    {
        &self.cursor_position
    }

    fn mov(&mut self, h: i32, v: i32, game: &Game) -> (r: bool)
        requires
            game.wf(),
        ensures
            *final(self) == old(self).stepped(h as int, v as int, *game),
            r == (match game.mode() {
                GameState::Gameplay => {
                    let (x, y) = old(self).pos().offset(h as int, v as int);
                    game.free_at(x, y)
                },
                GameState::InspectTiles => {
                    let (x, y) = old(self).cursor().offset(h as int, v as int);
                    fits(x, y)
                },
                GameState::Quit => false,
            }),
    {
        match game.current_state() {
            GameState::Gameplay => self.position.move_relative_if_passable(h, v, game),
            GameState::InspectTiles => {
                let x = self.cursor_position.x() as i64 + h as i64;
                let y = self.cursor_position.y() as i64 + v as i64;
                if x < i32::MIN as i64 || x > i32::MAX as i64 || y < i32::MIN as i64 || y
                    > i32::MAX as i64 {
                    false
                } else {
                    self.cursor_position.move_relative(h, v);
                    true
                }
            },
            GameState::Quit => false,
        }
    }

    /// One turn of the player, driven by the game's last input symbol. It
    /// moves the body or the cursor, and switches the game's mode on the
    /// back and inspect symbols.
    pub fn tick(&mut self, game: &mut Game)
        requires
            old(game).wf(),
        ensures
            *final(self) == old(self).ticked(*old(game)),
            final(game).mode() == next_mode(old(game).mode(), old(game).input()),
            final(game).hero() == old(game).hero(),
            final(game).creatures() == old(game).creatures(),
            final(game).world() == old(game).world(),
            final(game).ticks() == old(game).ticks(),
            final(game).input() == old(game).input(),
            final(game).stream() == old(game).stream(),
    {
        match game.last_input_key {
            None => {},
            Some(key) => match key {
                Key::Left => {
                    self.mov(-1, 0, game);
                },
                Key::Right => {
                    self.mov(1, 0, game);
                },
                Key::Up => {
                    self.mov(0, -1, game);
                },
                Key::Down => {
                    self.mov(0, 1, game);
                },
                Key::Esc => {
                    if game.state == GameState::Gameplay {
                        game.state = GameState::Quit;
                    } else {
                        game.state = GameState::Gameplay;
                    }
                },
                Key::Char(c) => {
                    if c == INSPECT_KEY {
                        game.state =
                        match game.state {
                            GameState::InspectTiles => GameState::Gameplay,
                            _ => {
                                self.cursor_position = self.position;
                                GameState::InspectTiles
                            },
                        };
                    }
                },
                Key::Unknown => {},
            },
        }
    }
}

/// In gameplay, the player's step onto a cell that is off the map,
/// impassable or occupied leaves the player where it was.
pub proof fn lemma_blocked_player_stays(p: Player, h: int, v: int, g: Game)
    requires
        g.mode() == GameState::Gameplay,
        !g.free_at(p.pos().px() + h, p.pos().py() + v),
    ensures
        p.stepped(h, v, g) == p,
{
}

/// The player's tick never brings it onto a creature.
pub proof fn lemma_player_keeps_bodies_apart(g: Game)
    requires
        bodies_apart(g.hero().pos(), g.creatures()),
    ensures
        bodies_apart(g.hero().ticked(g).pos(), g.creatures()),
{
    let p = g.hero().ticked(g).pos();
    if p != g.hero().pos() {
        assert forall|i: int| 0 <= i < g.creatures().len() implies (#[trigger] g.creatures()[i]).pos() != p by {
            if g.creatures()[i].pos() == p {
                assert(occupied(g.hero().pos(), g.creatures(), p.px(), p.py()));
            }
        }
    }
}

/// While tiles are inspected, no tick of the player moves its body: the
/// directional symbols move only the cursor, and the other symbols move
/// nothing.
pub proof fn lemma_inspect_tick_keeps_position(p: Player, g: Game)
    requires
        g.mode() == GameState::InspectTiles,
    ensures
        p.ticked(g).pos() == p.pos(),
{
}

/// Entering tile inspection leaves the body where it is and puts the cursor
/// on it.
pub proof fn lemma_enter_inspect_snaps_cursor(p: Player, g: Game)
    requires
        g.mode() == GameState::Gameplay,
        g.input() == Some(Key::Char(INSPECT_KEY)),
    ensures
        p.ticked(g).pos() == p.pos(),
        p.ticked(g).cursor() == p.pos(),
        next_mode(g.mode(), g.input()) == GameState::InspectTiles,
{
}

/// Whether `k` is one of the four directional symbols.
pub open spec fn is_step_key(k: Key) -> bool {
    k == Key::Left || k == Key::Right || k == Key::Up || k == Key::Down
}

proof fn lemma_inspect_moves(g: Game, moves: Seq<Key>)
    requires
        g.mode() == GameState::InspectTiles,
        forall|i: int| 0 <= i < moves.len() ==> is_step_key(#[trigger] moves[i]),
    ensures
        ({
            let end = g.after_player_turns(moves.push(Key::Char(INSPECT_KEY)));
            &&& end.mode() == GameState::Gameplay
            &&& end.hero().pos() == g.hero().pos()
        }),
    decreases moves.len(),
{
    let keys = moves.push(Key::Char(INSPECT_KEY));
    if moves.len() == 0 {
        assert(keys.skip(1) =~= Seq::<Key>::empty());
    } else {
        assert(is_step_key(moves[0]));
        assert(keys.skip(1) =~= moves.skip(1).push(Key::Char(INSPECT_KEY)));
        let g1 = g.after_player_turn(keys[0]);
        assert forall|i: int| 0 <= i < moves.skip(1).len() implies is_step_key(
            #[trigger] moves.skip(1)[i],
        ) by {
            assert(moves.skip(1)[i] == moves[i + 1]);
        }
        lemma_inspect_moves(g1, moves.skip(1));
    }
}

/// Entering tile inspection, moving the cursor about with any directional
/// symbols, and leaving inspection again brings the game back to gameplay
/// with the player where it stood before.
pub proof fn lemma_inspect_round_trip(g: Game, moves: Seq<Key>)
    requires
        g.mode() == GameState::Gameplay,
        forall|i: int| 0 <= i < moves.len() ==> is_step_key(#[trigger] moves[i]),
    ensures
        ({
            let toggle = Key::Char(INSPECT_KEY);
            let end = g.after_player_turns(seq![toggle] + moves.push(toggle));
            &&& end.mode() == GameState::Gameplay
            &&& end.hero().pos() == g.hero().pos()
        }),
{
    let toggle = Key::Char(INSPECT_KEY);
    let keys = seq![toggle] + moves.push(toggle);
    assert(keys[0] == toggle);
    assert(keys.skip(1) =~= moves.push(toggle));
    lemma_inspect_moves(g.after_player_turn(toggle), moves);
}

impl Clone for Player {
    fn clone(&self) -> (r: Self)
        ensures
            r == *self,
    {
        Player { position: self.position, cursor_position: self.cursor_position, render_info: self.render_info, character_stats: self.character_stats.clone() }
    }
}

impl Entity for Player {
    closed spec fn spot(&self) -> Position {
        self.position
    }

    closed spec fn perception(&self) -> int {
        self.character_stats.per.level()
    }

    fn current_position(&self) -> (r: &Position)
        ensures
            *r == self.pos(),
    {
        &self.position
    }

    fn position(&mut self) -> (r: &mut Position)
        ensures
            *final(self) == old(self).with_pos(*final(r)),
    {
        &mut self.position
    }

    fn render_info(&self) -> (r: &RenderInfo)
        ensures
            *r == self.look(),
    {
        &self.render_info
    }

    fn name(&self) -> (r: Option<&str>)
        ensures
            r is Some && r.unwrap()@ == "Player"@,
    {
        Some("Player")
    }

    fn kind(&self) -> (r: &str)
        ensures
            r@ == "Human"@,
    {
        "Human"
    }

    fn stats(&self) -> (r: &CharacterStats)
        ensures
            *r == self.stat_block(),
    {
        &self.character_stats
    }

    fn can_see(&self, position: &Position) -> (r: bool)
        ensures
            r == within_sight(
                self.pos().px(),
                self.pos().py(),
                position.px(),
                position.py(),
                self.stat_block().per.level(),
            ),
    {
        self.position.sees(position, self.character_stats.per.lvl())
    }
}

} // verus!
