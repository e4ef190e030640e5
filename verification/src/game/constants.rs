use vstd::prelude::*;

verus! {

/// The joypad's A and B buttons.
pub const A_BUTTON: u8 = 0x01;

pub const B_BUTTON: u8 = 0x02;

/// The battle with the player's own starter that starts the game.
pub const BATTLE_TYPE_PIKACHU: u8 = 3;

/// The tilesets of the outdoors and of the Indigo Plateau.
pub const OVERWORLD: u8 = 0;

pub const PLATEAU: u8 = 23;

/// Where the tileset's tile patterns go in video RAM.
pub const V_TILESET: u16 = 0x9000;

/// What the V-blank handler redraws of the map: a column or a row.
pub const REDRAW_COL: u8 = 1;

pub const REDRAW_ROW: u8 = 2;

/// The background maps are 32 tiles wide.
pub const BG_MAP_WIDTH: u16 = 32;

/// The screen is 20 tiles wide and 18 tiles high.
pub const SCREEN_WIDTH: u16 = 20;

pub const SCREEN_HEIGHT: u16 = 18;

/// The blank tile.
pub const BLANK_TILE: u8 = 0x7f;

/// The background palette register and the two object palette registers.
pub const R_BGP: u16 = 0xff47;

pub const R_OBP0: u16 = 0xff48;

pub const R_OBP1: u16 = 0xff49;

/// The palette command that picks the palettes for the current situation.
pub const SET_PAL_DEFAULT: u8 = 0xff;

/// A direction the player faces or moves in.
#[derive(Debug, Clone, Copy, PartialEq, Eq, Structural)]
pub enum PlayerDirection {
    Right,
    Left,
    Down,
    Up,
}

/// The bit that stands for each direction in the game's variables.
pub open spec fn player_direction_value(d: PlayerDirection) -> u8 {
    match d {
        PlayerDirection::Right => 1,
        PlayerDirection::Left => 2,
        PlayerDirection::Down => 4,
        PlayerDirection::Up => 8,
    }
}

impl PlayerDirection {
    /// The bit that stands for the direction.
    pub fn value(self) -> (res: u8)
        ensures
            res == player_direction_value(self),
    {
        match self {
            PlayerDirection::Right => 1,
            PlayerDirection::Left => 2,
            PlayerDirection::Down => 4,
            PlayerDirection::Up => 8,
        }
    }
}

} // verus!
