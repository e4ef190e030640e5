use vstd::prelude::*;

use crate::cpu::{Cpu, CpuRequest};
use crate::save_state::species::PokemonSpecies;

pub mod constants;
pub mod home;
pub mod macros;
pub mod ram;
pub mod scripts;

verus! {

/// Where the cartridge header holds the colour flag, the cartridge type and
/// the RAM size, and the values this game's cartridge has there: colour
/// only, MBC5 with RAM and battery, 32 KiB of RAM.
pub const HEADER_CGB_FLAG: usize = 0x143;

pub const HEADER_CARTRIDGE_TYPE: usize = 0x147;

pub const HEADER_RAM_SIZE: usize = 0x149;

pub const CGB_ONLY: u8 = 0x80;

pub const MBC5_RAM_BATTERY: u8 = 0x1b;

pub const RAM_32_KIB: u8 = 0x03;

/// The ROM's entry point.
pub const ENTRY_POINT: u16 = 0x0100;

/// Whether `rom` is the cartridge the game is made for.
pub open spec fn is_game_rom(rom: Seq<u8>) -> bool {
    &&& rom.len() > HEADER_RAM_SIZE
    &&& rom[HEADER_CGB_FLAG as int] == CGB_ONLY
    &&& rom[HEADER_CARTRIDGE_TYPE as int] == MBC5_RAM_BATTERY
    &&& rom[HEADER_RAM_SIZE as int] == RAM_32_KIB
}

/// The game: the machine that runs it.
pub struct Game {
    cpu: Cpu,
}

impl Game {
    /// The machine.
    pub closed spec fn machine(&self) -> Cpu {
        self.cpu
    }

    /// A game on a fresh machine with the cartridge `rom`, whose starter is
    /// `starter`.
    pub fn new(rom: Vec<u8>, starter: PokemonSpecies) -> (res: Game)
        requires
            is_game_rom(rom@),
        ensures
            res.machine().is_powered_on(rom@, starter),
    {
        Game { cpu: Cpu::new(rom, starter) }
    }

    /// Starts the cartridge at its entry point.
    pub fn boot(&mut self)
        ensures
            final(self).machine().only_requested(&old(self).machine(), CpuRequest::Call(ENTRY_POINT)),
    {
        self.cpu.call(ENTRY_POINT)
    }
}

} // verus!
