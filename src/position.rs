use crate::game::Game;
use vstd::prelude::*;

verus! {

/// A point of the world grid. Validity is contextual: the map decides which
/// positions hold a tile.
#[derive(Copy, Clone, Debug, PartialEq, Eq, Structural)]
pub struct Position {
    pub(crate) x: i32,
    pub(crate) y: i32,
}

/// The sign of `d`: one of -1, 0 and 1.
pub open spec fn sign(d: int) -> int {
    if d > 0 {
        1
    } else if d < 0 {
        -1
    } else {
        0
    }
}

/// The squared euclidean distance between two points.
pub open spec fn distance_squared(ax: int, ay: int, bx: int, by: int) -> int {
    (bx - ax) * (bx - ax) + (by - ay) * (by - ay)
}

/// Whether an observer at `(ax, ay)` with the given perception level sees the
/// point `(bx, by)`: the euclidean distance is below the level.
pub open spec fn within_sight(ax: int, ay: int, bx: int, by: int, level: int) -> bool {
    distance_squared(ax, ay, bx, by) < level * level
}

impl Position {
    pub open(crate) spec fn px(self) -> int {
        self.x as int
    }

    pub open(crate) spec fn py(self) -> int {
        self.y as int
    }

    /// The point reached from `self` by `(h, v)`, in unbounded integers.
    pub open(crate) spec fn offset(self, h: int, v: int) -> (int, int) {
        (self.x + h, self.y + v)
    }

    pub open(crate) spec fn dist_sq(self, other: Position) -> int {
        distance_squared(self.px(), self.py(), other.px(), other.py())
    }

    pub fn new(x: i32, y: i32) -> (r: Position)
        ensures
            r.px() == x,
            r.py() == y,
    {
        Position { x, y }
    }

    pub fn x(&self) -> (r: i32)
        ensures
            r == self.px(),
    {
        self.x
    }

    pub fn y(&self) -> (r: i32)
        ensures
            r == self.py(),
    {
        self.y
    }

    /// Translates the point by `(h, v)`, without any bounds check.
    pub fn move_relative(&mut self, h: i32, v: i32)
        requires
            i32::MIN <= old(self).px() + h <= i32::MAX,
            i32::MIN <= old(self).py() + v <= i32::MAX,
        ensures
            final(self).px() == old(self).px() + h,
            final(self).py() == old(self).py() + v,
    {
        self.x = self.x + h;
        self.y = self.y + v;
    }

    /// Steps by `(h, v)` when the game lets a body onto the target cell
    /// (see `Game::is_passable`); otherwise stays put. Tells whether it moved.
    pub fn move_relative_if_passable(&mut self, h: i32, v: i32, game: &Game) -> (r: bool)
        requires
            game.wf(),
        ensures
            r == game.free_at(old(self).px() + h, old(self).py() + v),
            r ==> final(self).px() == old(self).px() + h && final(self).py() == old(self).py() + v,
            !r ==> *final(self) == *old(self),
    {
        let x = self.x as i64 + h as i64;
        let y = self.y as i64 + v as i64;
        if x < i32::MIN as i64 || x > i32::MAX as i64 || y < i32::MIN as i64 || y > i32::MAX as i64 {
            return false;
        }
        let target = Position::new(x as i32, y as i32);
        if game.is_passable(&target) {
            *self = target;
            true
        } else {
            false
        }
    }

    /// The componentwise difference `position - self`.
    pub fn distance_parts_from(&self, position: &Position) -> (r: (i32, i32))
        requires
            i32::MIN <= position.px() - self.px() <= i32::MAX,
            i32::MIN <= position.py() - self.py() <= i32::MAX,
        ensures
            r.0 == position.px() - self.px(),
            r.1 == position.py() - self.py(),
    {
        let dx = position.x() - self.x;
        let dy = position.y() - self.y;
        (dx, dy)
    }

    /// The square of the euclidean distance to `position`, exact for every
    /// pair of points.
    pub fn distance_squared_from(&self, position: &Position) -> (r: u128)
        ensures
            r == self.dist_sq(*position),
    {
        let dx: i64 = position.x() as i64 - self.x as i64;
        let dy: i64 = position.y() as i64 - self.y as i64;
        let ax: u128 = if dx < 0 { (-dx) as u128 } else { dx as u128 };
        let ay: u128 = if dy < 0 { (-dy) as u128 } else { dy as u128 };
        assert(ax * ax <= 0x1_0000_0000_0000_0000) by (nonlinear_arith)
            requires ax <= 0x1_0000_0000;
        assert(ay * ay <= 0x1_0000_0000_0000_0000) by (nonlinear_arith)
            requires ay <= 0x1_0000_0000;
        assert(ax * ax == dx * dx && ay * ay == dy * dy) by (nonlinear_arith)
            requires ax == dx || ax == -dx, ay == dy || ay == -dy;
        ax * ax + ay * ay
    }

    /// Whether an observer standing here with perception `level` sees
    /// `position`.
    pub fn sees(&self, position: &Position, level: usize) -> (r: bool)
        ensures
            r == within_sight(self.px(), self.py(), position.px(), position.py(), level as int),
    {
        let d = self.distance_squared_from(position);
        let l: u128 = level as u128;
        assert(l * l <= 0xffff_ffff_ffff_fffe_0000_0000_0000_0001) by (nonlinear_arith)
            requires l <= 0xffff_ffff_ffff_ffff;
        d < l * l
    }

    /// A unit step towards `position`: each component is the sign of the
    /// corresponding difference.
    pub fn direction_for(&self, position: &Position) -> (r: (i32, i32))
        ensures
            r.0 == sign(position.px() - self.px()),
            r.1 == sign(position.py() - self.py()),
    {
        let h: i32 = if position.x > self.x {
            1
        } else if position.x < self.x {
            -1
        } else {
            0
        };
        let v: i32 = if position.y > self.y {
            1
        } else if position.y < self.y {
            -1
        } else {
            0
        };
        (h, v)
    }
}

/// Distance is symmetric, and every point is at distance zero from itself.
pub proof fn lemma_distance_symmetric(a: Position, b: Position)
    ensures
        a.dist_sq(b) == b.dist_sq(a),
        a.dist_sq(a) == 0,
        a.dist_sq(b) >= 0,
{
    assert((b.px() - a.px()) * (b.px() - a.px()) == (a.px() - b.px()) * (a.px() - b.px()))
        by (nonlinear_arith);
    assert((b.py() - a.py()) * (b.py() - a.py()) == (a.py() - b.py()) * (a.py() - b.py()))
        by (nonlinear_arith);
    assert((b.px() - a.px()) * (b.px() - a.px()) >= 0) by (nonlinear_arith);
    assert((b.py() - a.py()) * (b.py() - a.py()) >= 0) by (nonlinear_arith);
}

/// A step towards another point has components in {-1, 0, 1}, each with the
/// sign of the matching difference, and is zero exactly where the difference
/// is.
pub proof fn lemma_direction_unit(a: Position, b: Position)
    ensures
        -1 <= sign(b.px() - a.px()) <= 1,
        -1 <= sign(b.py() - a.py()) <= 1,
        (sign(b.px() - a.px()) == 0) == (a.px() == b.px()),
        (sign(b.py() - a.py()) == 0) == (a.py() == b.py()),
        (sign(b.px() - a.px()) > 0) == (b.px() > a.px()),
        (sign(b.py() - a.py()) > 0) == (b.py() > a.py()),
{
}

} // verus!
