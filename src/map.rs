//! The world map: a dense square grid of tiles, generated once from the
//! game's random stream.
use crate::position::Position;
use crate::rng::{draw_ratio, draw_usize};
use rand_pcg::Pcg64;
use vstd::arithmetic::div_mod::lemma_fundamental_div_mod_converse;
use vstd::prelude::*;

verus! {

/// The side length of the map, in tiles.
pub const MAP_SIZE: usize = 1000;

#[derive(Copy, Clone, Debug, PartialEq, Eq, Structural)]
pub enum TileType {
    Dirt,
    Grass,
}

impl TileType {
    pub open spec fn label(self) -> Seq<char> {
        match self {
            TileType::Grass => "Grass"@,
            TileType::Dirt => "Dirt"@,
        }
    }
}

#[derive(Copy, Clone, Debug)]
pub struct Tile {
    pub tile_type: TileType,
    pub variant: usize,
    pub(crate) position: Position,
    pub(crate) passable: bool,
}

/// Whether `(x, y)` lies on the map.
pub open spec fn in_bounds(x: int, y: int) -> bool {
    0 <= x < MAP_SIZE && 0 <= y < MAP_SIZE
}

/// The place in the grid of the tile at `(x, y)`.
pub open spec fn index_of(x: int, y: int) -> int {
    MAP_SIZE * x + y
}

/// The grid coordinate of the tile at place `i`.
pub open spec fn coordinate_of(i: int) -> (int, int) {
    (i / MAP_SIZE as int, i % MAP_SIZE as int)
}

/// The lower edge of a window of radius `d` around `c`, clipped to the map.
pub open spec fn clip_low(c: int, d: int) -> int {
    if c - d < 0 {
        0
    } else if c - d > MAP_SIZE {
        MAP_SIZE as int
    } else {
        c - d
    }
}

/// The upper (exclusive) edge of a window of radius `d` around `c`, clipped
/// to the map.
pub open spec fn clip_high(c: int, d: int) -> int {
    if c + d > MAP_SIZE {
        MAP_SIZE as int
    } else if c + d < 0 {
        0
    } else {
        c + d
    }
}

/// The tile at `(x, y)` for the outcome of its generation draws: grass
/// when `grass`, else dirt; the drawn variant, or 0 when none was drawn.
pub open(crate) spec fn drawn_tile(x: int, y: int, grass: bool, variant: Option<usize>) -> Tile {
    Tile {
        tile_type: if grass {
            TileType::Grass
        } else {
            TileType::Dirt
        },
        variant: match variant {
            Some(v) => v,
            None => 0,
        },
        position: Position { x: x as i32, y: y as i32 },
        passable: true,
    }
}

/// Whether `t` is what generation can make at place `i`, for some outcome
/// of the draws, with a drawn variant in `1..=4`.
pub open(crate) spec fn drawn_at(t: Tile, i: int) -> bool {
    exists|grass: bool, variant: Option<usize>|
        (variant matches Some(v) ==> 1 <= v <= 4) && t == #[trigger] drawn_tile(
            coordinate_of(i).0,
            coordinate_of(i).1,
            grass,
            variant,
        )
}

impl Tile {
    /// A tile as generation leaves it at place `i` of the grid: addressed by
    /// its coordinate, passable, with a variant in `0..=4`.
    pub open(crate) spec fn placed_at(self, i: int) -> bool {
        &&& self.position.px() == coordinate_of(i).0
        &&& self.position.py() == coordinate_of(i).1
        &&& self.passable
        &&& self.variant <= 4
    }

    pub open(crate) spec fn kind(self) -> TileType {
        self.tile_type
    }

    pub open(crate) spec fn shade(self) -> int {
        self.variant as int
    }

    pub open(crate) spec fn pos(self) -> Position {
        self.position
    }

    pub open(crate) spec fn is_open(self) -> bool {
        self.passable
    }

    pub fn new(x: usize, y: usize) -> (r: Tile)
        requires
            x <= i32::MAX,
            y <= i32::MAX,
        ensures
            r.kind() == TileType::Dirt,
            r.shade() == 0,
            r.pos().px() == x,
            r.pos().py() == y,
            r.is_open(),
    {
        Tile {
            tile_type: TileType::Dirt,
            variant: 0,
            position: Position::new(x as i32, y as i32),
            passable: true,
        }
    }

    /// The tile at `(x, y)` for the outcome of its generation draws: whether
    /// it is grass, and the variant drawn for it, if any.
    pub fn drawn(x: usize, y: usize, grass: bool, variant: Option<usize>) -> (r: Tile)
        requires
            x <= i32::MAX,
            y <= i32::MAX,
        ensures
            r == drawn_tile(x as int, y as int, grass, variant),
            r.kind() == (if grass {
                TileType::Grass
            } else {
                TileType::Dirt
            }),
            r.shade() == (match variant {
                Some(v) => v as int,
                None => 0,
            }),
            r.pos().px() == x && r.pos().py() == y,
            r.is_open(),
    {
        let mut tile = Tile::new(x, y);
        if grass {
            tile.tile_type = TileType::Grass;
        }
        match variant {
            Some(v) => {
                tile.variant = v;
            },
            None => {},
        }
        tile
    }

    pub fn position(&self) -> (r: &Position)
        ensures
            *r == self.pos(),
    {
        &self.position
    }

    /// Terrain never blocks: every tile of a map is passable, and only
    /// occupancy stops a move.
    pub fn is_passable(&self) -> (r: bool)
        ensures
            r == self.is_open(),
    {
        self.passable
    }

    pub fn name(&self) -> (r: &str)
        ensures
            r@ == self.kind().label(),
    {
        match self.tile_type {
            TileType::Grass => "Grass",
            TileType::Dirt => "Dirt",
        }
    }
}

pub struct GameMap {
    pub(crate) tiles: Vec<Tile>,
}

impl GameMap {
    /// The grid holds one tile per coordinate, each at place `MAP_SIZE * x + y`.
    pub open(crate) spec fn wf(&self) -> bool {
        &&& self.tiles@.len() == MAP_SIZE * MAP_SIZE
        &&& forall|i: int| 0 <= i < self.tiles@.len() ==> (#[trigger] self.tiles@[i]).placed_at(i)
    }

    pub open(crate) spec fn cells(&self) -> Seq<Tile> {
        self.tiles@
    }

    /// The tile at `(x, y)`, for a coordinate on the map.
    pub open(crate) spec fn tile(&self, x: int, y: int) -> Tile {
        self.tiles@[index_of(x, y)]
    }

    /// A map of plain dirt, one tile per coordinate.
    pub fn new() -> (r: GameMap)
        ensures
            r.wf(),
            forall|i: int|
                0 <= i < r.cells().len() ==> (#[trigger] r.cells()[i]).kind() == TileType::Dirt
                    && r.cells()[i].shade() == 0,
    {
        let mut tiles: Vec<Tile> = Vec::with_capacity(MAP_SIZE * MAP_SIZE);
        let mut i: usize = 0;
        while i < MAP_SIZE * MAP_SIZE
            invariant
                i <= MAP_SIZE * MAP_SIZE,
                tiles@.len() == i,
                forall|k: int|
                    0 <= k < i ==> (#[trigger] tiles@[k]).placed_at(k) && tiles@[k].tile_type
                        == TileType::Dirt && tiles@[k].variant == 0,
            decreases MAP_SIZE * MAP_SIZE - i,
        {
            let tile = Tile::new(i / MAP_SIZE, i % MAP_SIZE);
            tiles.push(tile);
            i += 1;
        }
        GameMap { tiles }
    }

    pub fn center() -> (r: usize)
        ensures
            r == MAP_SIZE / 2,
    {
        MAP_SIZE / 2
    }

    pub fn is_in_bounds(&self, x: i32, y: i32) -> (r: bool)
        ensures
            r == in_bounds(x as int, y as int),
    {
        x >= 0 && y >= 0 && (x as usize) < MAP_SIZE && (y as usize) < MAP_SIZE
    }

    /// The tile at `(x, y)`, or nothing off the map.
    pub fn at(&self, x: i32, y: i32) -> (r: Option<&Tile>)
        requires
            self.wf(),
        ensures
            r.is_some() == in_bounds(x as int, y as int),
            r.is_some() ==> *r.unwrap() == self.tile(x as int, y as int),
            r.is_some() ==> r.unwrap().pos().px() == x && r.unwrap().pos().py() == y,
    {
        if self.is_in_bounds(x, y) {
            proof {
                lemma_fundamental_div_mod_converse(index_of(x as int, y as int), MAP_SIZE as int, x as int, y as int);
            }
            Some(&self.tiles[MAP_SIZE * (x as usize) + (y as usize)])
        } else {
            None
        }
    }

    pub fn index_to_position(&self, i: usize) -> (r: (usize, usize))
        ensures
            r.0 == coordinate_of(i as int).0,
            r.1 == coordinate_of(i as int).1,
    {
        (i / MAP_SIZE, i % MAP_SIZE)
    }

    /// Every tile whose coordinate lies in
    /// `[pos.x - distance, pos.x + distance) x [pos.y - distance, pos.y + distance)`,
    /// clipped to the map, column by column: with `h` the height of the
    /// clipped window, the tile at offset `(a, b)` from its low corner stands
    /// at place `a * h + b`.
    pub fn portion_around(&self, pos: &Position, distance: usize) -> (r: Vec<Tile>)
        requires
            self.wf(),
        ensures
            ({
                let xlo = clip_low(pos.px(), distance as int);
                let xhi = clip_high(pos.px(), distance as int);
                let ylo = clip_low(pos.py(), distance as int);
                let yhi = clip_high(pos.py(), distance as int);
                let h = yhi - ylo;
                &&& r@.len() == (xhi - xlo) * h
                &&& forall|k: int|
                    0 <= k < r@.len() ==> #[trigger] r@[k] == self.tile(xlo + k / h, ylo + k % h)
            }),
    {
        let d = distance as i128;
        let cx = pos.x() as i128;
        let cy = pos.y() as i128;
        let size = MAP_SIZE as i128;
        let xlo: usize = if cx - d < 0 { 0 } else if cx - d > size { MAP_SIZE } else { (cx - d) as usize };
        let xhi: usize = if cx + d > size { MAP_SIZE } else if cx + d < 0 { 0 } else { (cx + d) as usize };
        let ylo: usize = if cy - d < 0 { 0 } else if cy - d > size { MAP_SIZE } else { (cy - d) as usize };
        let yhi: usize = if cy + d > size { MAP_SIZE } else if cy + d < 0 { 0 } else { (cy + d) as usize };
        let ghost h = yhi - ylo;
        let mut portion: Vec<Tile> = Vec::new();
        let mut x = xlo;
        while x < xhi
            invariant
                self.wf(),
                xlo <= x <= xhi <= MAP_SIZE,
                ylo <= yhi <= MAP_SIZE,
                h == yhi - ylo,
                portion@.len() == (x - xlo) * h,
                forall|k: int|
                    0 <= k < portion@.len() ==> #[trigger] portion@[k] == self.tile(
                        xlo + k / h,
                        ylo + k % h,
                    ),
            decreases xhi - x,
        {
            let mut y = ylo;
            while y < yhi
                invariant
                    self.wf(),
                    xlo <= x < xhi <= MAP_SIZE,
                    ylo <= y <= yhi <= MAP_SIZE,
                    h == yhi - ylo,
                    portion@.len() == (x - xlo) * h + (y - ylo),
                    forall|k: int|
                        0 <= k < portion@.len() ==> #[trigger] portion@[k] == self.tile(
                            xlo + k / h,
                            ylo + k % h,
                        ),
                decreases yhi - y,
            {
                proof {
                    lemma_fundamental_div_mod_converse(
                        portion@.len() as int,
                        h,
                        x - xlo,
                        y - ylo,
                    );
                }
                match self.at(x as i32, y as i32) {
                    Some(tile) => {
                        portion.push(*tile);
                    },
                    None => {},
                }
                y += 1;
            }
            assert((x - xlo) * h + h == (x + 1 - xlo) * h) by (nonlinear_arith);
            x += 1;
        }
        portion
    }

    /// Fills every cell from `rng`, in index order: first a draw that makes
    /// the tile grass with chance 3/5, then one that with chance 1/5 gives it
    /// a variant drawn uniformly from `1..=4` (else the variant stays 0).
    pub fn generate(&mut self, rng: &mut Pcg64)
        ensures
            final(self).wf(),
            forall|i: int|
                0 <= i < final(self).cells().len() ==> drawn_at(#[trigger] final(self).cells()[i], i),
    {
        let mut tiles: Vec<Tile> = Vec::with_capacity(MAP_SIZE * MAP_SIZE);
        let mut i: usize = 0;
        while i < MAP_SIZE * MAP_SIZE
            invariant
                i <= MAP_SIZE * MAP_SIZE,
                tiles@.len() == i,
                forall|k: int| 0 <= k < i ==> (#[trigger] tiles@[k]).placed_at(k) && drawn_at(tiles@[k], k),
            decreases MAP_SIZE * MAP_SIZE - i,
        {
            let position = self.index_to_position(i);
            let grass = draw_ratio(rng, 3, 5);
            let variant = if draw_ratio(rng, 1, 5) {
                Some(draw_usize(rng, 1, 5))
            } else {
                None
            };
            let tile = Tile::drawn(position.0, position.1, grass, variant);
            assert(drawn_at(tile, i as int));
            tiles.push(tile);
            i += 1;
        }
        self.tiles = tiles;
    }
}

} // verus!
