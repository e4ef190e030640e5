use vstd::prelude::*;

verus! {

/// The shadow copy of the object attribute memory, copied to the real one
/// during V-blank, and one past its end.
pub const W_SHADOW_OAM: u16 = 0xc300;

pub const W_SHADOW_OAM_END: u16 = 0xc3a0;

/// The buffer of the 20 × 18 background tiles shown on screen.
pub const W_TILE_MAP: u16 = 0xc3a0;

/// Where the predefined-routine dispatcher keeps the caller's HL, DE and BC.
pub const W_PREDEF_HL: u16 = 0xcc4f;

pub const W_PREDEF_DE: u16 = 0xcc51;

pub const W_PREDEF_BC: u16 = 0xcc53;

/// The tiles of the map row or column that the V-blank handler is to redraw.
pub const W_REDRAW_ROW_OR_COLUMN_SRC_TILES: u16 = 0xcbfc;

/// The number of items printed before the current menu item.
pub const W_LIST_SCROLL_OFFSET: u16 = 0xcc36;

/// Set buttons are ignored.
pub const W_JOY_IGNORE: u16 = 0xcd6b;

/// The kind of the next battle.
pub const W_BATTLE_TYPE: u16 = 0xd059;

/// The species (or trainer class) of the next opponent.
pub const W_CUR_OPPONENT: u16 = 0xd058;

/// The level of the next wild opponent.
pub const W_CUR_ENEMY_LVL: u16 = 0xd126;

/// The script Pallet Town runs next.
pub const W_PALLET_TOWN_CUR_SCRIPT: u16 = 0xd5f0;

/// The species index of the Pokémon whose picture is being loaded.
pub const W_MON_H_INDEX: u16 = 0xd0b7;

/// Nonzero when the sprite being loaded is to be shown mirrored.
pub const W_SPRITE_FLIPPED: u16 = 0xd0a9;

/// wd72e; bit 5: set when a battle ends and when the player blacks out in
/// the overworld due to poison.
pub const W_D72E: u16 = 0xd72d;

/// wd728; bit 0: using Strength outside of battle.
pub const W_D728: u16 = 0xd727;

/// wd730; bit 5: ignore joypad input.
pub const W_D730: u16 = 0xd730;

/// wd736; bit 6: jumping down a ledge, bit 7: spinning on spinner tiles.
pub const W_D736: u16 = 0xd735;

/// The event flags, one bit each.
pub const W_EVENT_FLAGS: u16 = 0xd746;

} // verus!
