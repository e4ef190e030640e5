use vstd::prelude::*;

use crate::bytes::has_bit;
use crate::cpu::Cpu;
use crate::game::ram::wram::{W_D730, W_D736};

verus! {

/// Which table of NPC movement scripts runs; zero when none does.
pub const W_NPC_MOVEMENT_SCRIPT_POINTER_TABLE_NUM: u16 = 0xcc57;

/// Whether the game moves the player's character in the address space
/// `bus`: an NPC movement script runs, the player is stepping down from a
/// door (wd736 bit 0), or joypad states are being simulated (wd730 bit 7).
pub open spec fn controlled_by_game(bus: Seq<u8>) -> bool {
    bus[W_NPC_MOVEMENT_SCRIPT_POINTER_TABLE_NUM as int] != 0 || has_bit(bus[W_D736 as int], 0) || has_bit(
        bus[W_D730 as int],
        7,
    )
}

/// not zero if an NPC movement script is running, the player character is
/// automatically stepping down from a door, or joypad states are being simulated
pub fn is_player_character_being_controlled_by_game(cpu: &mut Cpu) -> (res: bool)
    ensures
        res == controlled_by_game(old(cpu).bus()),
        *final(cpu) == *old(cpu),
{
    if cpu.read_byte(W_NPC_MOVEMENT_SCRIPT_POINTER_TABLE_NUM) != 0 {
        return true;
    }

    // currently stepping down from door bit
    if (cpu.read_byte(W_D736) & (1u8 << 0u8)) != 0 {
        return true;
    }

    // wd730 bit 7: joypad states are being simulated
    if (cpu.read_byte(W_D730) & (1u8 << 7u8)) != 0 {
        return true;
    }

    false
}

} // verus!
