//! What an entity looks like on screen, and the screen geometry that a
//! terminal front end needs to draw the world.
use crate::map::{Tile, TileType};
use crate::position::Position;
use vstd::prelude::*;

verus! {

/// The width, in cells, of the information panel at the left of the screen.
pub const SIDE_PANEL_WIDTH: usize = 32;

#[derive(Copy, Clone, Debug, PartialEq, Eq, Structural)]
pub enum Color {
    Default,
    Black,
    Red,
    Green,
    Yellow,
    Blue,
    Magenta,
    Cyan,
    White,
    Byte(u16),
}

/// A glyph and the color it is drawn in.
#[derive(Copy, Clone, Debug, PartialEq, Eq, Structural)]
pub struct RenderInfo {
    pub character: char,
    pub color: Color,
}

impl RenderInfo {
    pub fn new(character: char, color: Color) -> (r: RenderInfo)
        ensures
            r.character == character,
            r.color == color,
    {
        RenderInfo { character, color }
    }
}

/// The screen column of world column `p` seen from a camera at `c` on a
/// screen `w` cells wide: the camera sits in the middle of the screen.
pub open spec fn screen_offset(p: int, w: int, c: int) -> int {
    p + w / 2 - c
}

/// Where `position` lands on a `width` by `height` screen centred on
/// `camera`. A point left of or above the screen goes to
/// `(width + 1, height + 1)`, which is off the screen.
pub fn game_coords_to_camera(width: usize, height: usize, camera_position: &Position, position: &Position) -> (r: (usize, usize))
    requires
        width <= i32::MAX,
        height <= i32::MAX,
    ensures
        ({
            let sx = screen_offset(position.px(), width as int, camera_position.px());
            let sy = screen_offset(position.py(), height as int, camera_position.py());
            if sx < 0 || sy < 0 {
                r.0 == width + 1 && r.1 == height + 1
            } else {
                r.0 == sx as usize && r.1 == sy as usize
            }
        }),
{
    let result_x: i64 = position.x() as i64 + (width as i64) / 2 - camera_position.x() as i64;
    let result_y: i64 = position.y() as i64 + (height as i64) / 2 - camera_position.y() as i64;
    if result_x < 0 || result_y < 0 {
        return (width + 1, height + 1);
    }
    (#[verifier::truncate] (result_x as usize), #[verifier::truncate] (result_y as usize))
}

/// Whether the screen cell `(x, y)` lies in the map area: on the screen and
/// right of the side panel.
pub fn is_visible(width: usize, height: usize, x: usize, y: usize) -> (r: bool)
    ensures
        r == (x < width && y < height && x > SIDE_PANEL_WIDTH),
{
    x < width && y < height && x > SIDE_PANEL_WIDTH
}

/// The foreground color of a kind of terrain.
pub fn tile_color(tile_type: TileType) -> (r: Color)
    ensures
        r == (match tile_type {
            TileType::Grass => Color::Green,
            TileType::Dirt => Color::Yellow,
        }),
{
    match tile_type {
        TileType::Grass => Color::Green,
        TileType::Dirt => Color::Yellow,
    }
}

/// The glyph of a tile, by its kind and variant.
pub open spec fn glyph_of(kind: TileType, variant: int) -> Seq<char> {
    match kind {
        TileType::Grass => if variant == 1 {
            ","@
        } else if variant == 3 {
            "'"@
        } else if variant == 4 {
            "\""@
        } else {
            " "@
        },
        TileType::Dirt => if variant == 2 {
            "-"@
        } else if variant == 3 {
            "."@
        } else if variant == 4 {
            "_"@
        } else {
            " "@
        },
    }
}

pub fn tile_graphic(tile: &Tile) -> (r: &'static str)
    ensures
        r@ == glyph_of(tile.kind(), tile.shade()),
{
    match tile.tile_type {
        TileType::Grass => match tile.variant {
            1 => ",",
            2 => " ",
            3 => "'",
            4 => "\"",
            _ => " ",
        },
        TileType::Dirt => match tile.variant {
            1 => " ",
            2 => "-",
            3 => ".",
            4 => "_",
            _ => " ",
        },
    }
}

} // verus!
