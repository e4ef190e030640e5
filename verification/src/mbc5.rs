use std::path::PathBuf;

use vstd::prelude::*;

use crate::save_state::SaveState;

verus! {

#[verifier::external_type_specification]
#[verifier::external_body]
pub struct ExPathBuf(PathBuf);

/// The MBC5 memory bank controller of the cartridge: which ROM and RAM banks
/// are mapped, whether the RAM is enabled, and the RAM itself (the save file).
pub struct MBC5 {
    ram: SaveState,
    rombank: usize,
    rambank: usize,
    ram_on: bool,
    save_path: Option<PathBuf>,
}

/// The ROM address that a read of `a` reaches: the fixed bank below 0x4000,
/// the switched bank above.
pub open spec fn rom_index(rombank: int, a: u16) -> int {
    if a < 0x4000 {
        a as int
    } else {
        rombank * 0x4000 + (a as int % 0x4000)
    }
}

/// The save file address that a read or write of `a` reaches.
pub open spec fn ram_index(rambank: int, a: u16) -> int {
    rambank * 0x2000 + (a as int % 0x2000)
}

impl MBC5 {
    pub closed spec fn sram(&self) -> SaveState {
        self.ram
    }

    pub closed spec fn rom_bank(&self) -> int {
        self.rombank as int
    }

    pub closed spec fn ram_bank(&self) -> int {
        self.rambank as int
    }

    pub closed spec fn ram_enabled(&self) -> bool {
        self.ram_on
    }

    pub closed spec fn save_path_spec(&self) -> Option<PathBuf> {
        self.save_path
    }

    /// The bank numbers stay within what the controller's registers hold.
    pub open spec fn wf(&self) -> bool {
        &&& 0 <= self.rom_bank() <= 0x1FF
        &&& 0 <= self.ram_bank() <= 0x0F
    }

    /// The byte a read of the cartridge RAM at `a` gives: the save file's
    /// byte in the mapped bank while the RAM is enabled, zero otherwise.
    pub open spec fn ram_read(&self, a: u16) -> u8 {
        if self.ram_enabled() {
            self.sram().bytes()[ram_index(self.ram_bank(), a)]
        } else {
            0u8
        }
    }

    /// `after` is `self` with `v` written to the cartridge RAM at `a`, as
    /// `writeram` leaves it.
    pub open spec fn ram_written(&self, after: MBC5, a: u16, v: u8) -> bool {
        &&& after.sram().bytes() == if self.ram_enabled() {
            self.sram().bytes().update(ram_index(self.ram_bank(), a), v)
        } else {
            self.sram().bytes()
        }
        &&& after.rom_bank() == self.rom_bank()
        &&& after.ram_bank() == self.ram_bank()
        &&& after.ram_enabled() == self.ram_enabled()
        &&& after.save_path_spec() == self.save_path_spec()
    }

    /// `after` is `self` with `v` written to the controller at `a`, as
    /// `writerom` leaves it.
    pub open spec fn rom_written(&self, after: MBC5, a: u16, v: u8) -> bool {
        &&& after.wf()
        &&& after.sram() == self.sram()
        &&& after.save_path_spec() == self.save_path_spec()
        &&& after.ram_enabled() == if a < 0x2000 { v == 0x0A } else { self.ram_enabled() }
        &&& after.rom_bank() == if 0x2000 <= a < 0x3000 {
            (self.rom_bank() / 0x100 % 2) * 0x100 + v
        } else if 0x3000 <= a < 0x4000 {
            self.rom_bank() % 0x100 + (v % 2) * 0x100
        } else {
            self.rom_bank()
        }
        &&& after.ram_bank() == if 0x4000 <= a < 0x6000 {
            v as int % 0x10
        } else {
            self.ram_bank()
        }
    }

    /// With the RAM enabled, a byte written to the cartridge RAM reads back
    /// as written and every other address of the bank reads as before; with
    /// it disabled, writes change nothing and reads give zero.
    pub proof fn lemma_ram_write_then_read(&self, after: MBC5, a: u16, v: u8, b: u16)
        requires
            self.wf(),
            self.ram_enabled() ==> ram_index(self.ram_bank(), a) < 0x8000,
            self.ram_enabled() ==> ram_index(self.ram_bank(), b) < 0x8000,
            self.ram_written(after, a, v),
        ensures
            after.ram_read(a) == if self.ram_enabled() { v } else { 0u8 },
            a % 0x2000 != b % 0x2000 ==> after.ram_read(b) == self.ram_read(b),
            !self.ram_enabled() ==> after.sram().bytes() == self.sram().bytes(),
    {
        self.sram().lemma_len();
    }

    /// Writing the ROM bank's low eight bits (`lo`, to 0x2000-0x2FFF) and
    /// then its ninth bit (`hi`, to 0x3000-0x3FFF) maps the nine-bit bank
    /// number written, whatever bank was mapped before.
    pub proof fn lemma_rom_bank_halves(&self, mid: MBC5, after: MBC5, a_lo: u16, lo: u8, a_hi: u16, hi: u8)
        requires
            self.wf(),
            0x2000 <= a_lo < 0x3000,
            0x3000 <= a_hi < 0x4000,
            self.rom_written(mid, a_lo, lo),
            mid.rom_written(after, a_hi, hi),
        ensures
            after.rom_bank() == lo + (hi % 2) * 0x100,
    {
    }

    /// ROM bank 1 mapped, RAM bank 0 mapped but disabled, an empty save file
    /// and no path to save it to.
    pub fn new() -> (res: MBC5)
        ensures
            res.wf(),
            res.sram().bytes() == SaveState::new_bytes(),
            res.rom_bank() == 1,
            res.ram_bank() == 0,
            !res.ram_enabled(),
            res.save_path_spec() is None,
    {
        MBC5 { ram: SaveState::new(), rombank: 1, rambank: 0, ram_on: false, save_path: None }
    }

    pub fn borrow_sram(&self) -> (res: &SaveState)
        ensures
            *res == self.sram(),
    {
        &self.ram
    }

    pub fn borrow_sram_mut(&mut self) -> (res: &mut SaveState)
        ensures
            *res == old(self).sram(),
            final(self).sram() == *final(res),
            final(self).rom_bank() == old(self).rom_bank(),
            final(self).ram_bank() == old(self).ram_bank(),
            final(self).ram_enabled() == old(self).ram_enabled(),
            final(self).save_path_spec() == old(self).save_path_spec(),
    {
        &mut self.ram
    }

    pub fn replace_ram(&mut self, ram: SaveState)
        ensures
            final(self).sram() == ram,
            final(self).rom_bank() == old(self).rom_bank(),
            final(self).ram_bank() == old(self).ram_bank(),
            final(self).ram_enabled() == old(self).ram_enabled(),
            final(self).save_path_spec() == old(self).save_path_spec(),
    {
        self.ram = ram;
    }

    /// Sets where the save file is written.
    pub fn set_save_path(&mut self, save_path: PathBuf)
        ensures
            final(self).save_path_spec() == Some(save_path),
            final(self).sram() == old(self).sram(),
            final(self).rom_bank() == old(self).rom_bank(),
            final(self).ram_bank() == old(self).ram_bank(),
            final(self).ram_enabled() == old(self).ram_enabled(),
    {
        self.save_path = Some(save_path);
    }

    /// Where the save file is written, if anywhere.
    pub fn save_path(&self) -> (res: &Option<PathBuf>)
        ensures
            *res == self.save_path_spec(),
    {
        &self.save_path
    }

    /// Reads the cartridge ROM `rom` through the controller: zero past its end.
    pub fn readrom(&self, a: u16, rom: &[u8]) -> (res: u8)
        requires
            self.wf(),
        ensures
            res == if rom_index(self.rom_bank(), a) < rom@.len() {
                rom@[rom_index(self.rom_bank(), a)]
            } else {
                0u8
            },
    {
        let idx = if a < 0x4000 {
            a as usize
        } else {
            (self.rombank * 0x4000) + ((a as usize) % 0x4000)
        };
        if idx < rom.len() {
            rom[idx]
        } else {
            0
        }
    }

    /// Reads the cartridge RAM: zero while it is disabled.
    pub fn readram(&self, a: u16) -> (res: u8)
        requires
            self.wf(),
            self.ram_enabled() ==> ram_index(self.ram_bank(), a) < 0x8000,
        ensures
            res == self.ram_read(a),
    {
        if !self.ram_on {
            return 0;
        }
        self.ram.byte((self.rambank * 0x2000) + ((a as usize) % 0x2000))
    }

    /// A write to the ROM area sets the controller's registers: below 0x2000
    /// the RAM enable (on only for 0x0A), then the low eight bits of the ROM
    /// bank, its ninth bit, the RAM bank; 0x6000 to 0x7FFF does nothing.
    pub fn writerom(&mut self, a: u16, v: u8)
        requires
            old(self).wf(),
            a < 0x8000,
        ensures
            old(self).rom_written(*final(self), a, v),
    {
        if a < 0x2000 {
            self.ram_on = v == 0x0A;
        } else if a < 0x3000 {
            self.rombank = (self.rombank / 0x100 % 2) * 0x100 + (v as usize);
        } else if a < 0x4000 {
            self.rombank = (self.rombank % 0x100) + ((v % 2) as usize) * 0x100;
        } else if a < 0x6000 {
            self.rambank = (v % 0x10) as usize;
        }
    }

    /// Writes the cartridge RAM; nothing happens while it is disabled.
    pub fn writeram(&mut self, a: u16, v: u8)
        requires
            old(self).wf(),
            old(self).ram_enabled() ==> ram_index(old(self).ram_bank(), a) < 0x8000,
        ensures
            final(self).wf(),
            old(self).ram_written(*final(self), a, v),
    {
        if !self.ram_on {
            return;
        }
        self.ram.set_byte((self.rambank * 0x2000) + ((a as usize) % 0x2000), v);
    }
}

} // verus!
