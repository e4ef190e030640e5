use vstd::prelude::*;

use crate::game::constants::SCREEN_WIDTH;
use crate::game::ram::wram::W_TILE_MAP;

verus! {

/// The address of the tile at column `x`, row `y` of a tile map that starts
/// at `origin` and is as wide as the screen.
pub open spec fn coord_at(x: int, y: int, origin: int) -> int {
    y * SCREEN_WIDTH + x + origin
}

/// The address of the tile at column `x`, row `y` of the screen's tile map.
pub fn coord(x: u16, y: u16) -> (res: u16)
    requires
        coord_at(x as int, y as int, W_TILE_MAP as int) <= u16::MAX,
    ensures
        res == coord_at(x as int, y as int, W_TILE_MAP as int),
{
    y * SCREEN_WIDTH + x + W_TILE_MAP
}

} // verus!
