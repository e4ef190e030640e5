use vstd::prelude::*;

use crate::game_state::{random_byte, GameState, WRAM_SIZE, ZRAM_SIZE};
use crate::save_state::species::PokemonSpecies;

verus! {

/// The four flags of the SM83 flag register.
#[derive(Debug, Clone, Copy, PartialEq, Eq, Structural)]
pub enum CpuFlag {
    Z,
    N,
    H,
    C,
}

/// The bit of the flag register that holds a flag.
pub open spec fn flag_bit(flag: CpuFlag) -> u8 {
    match flag {
        CpuFlag::Z => 7,
        CpuFlag::N => 6,
        CpuFlag::H => 5,
        CpuFlag::C => 4,
    }
}

/// Whether a flag is set in a flag register value.
pub open spec fn flag_set(f: u8, flag: CpuFlag) -> bool {
    f & (1u8 << flag_bit(flag)) != 0
}

/// A flag register value with one flag set or cleared.
pub open spec fn with_flag(f: u8, flag: CpuFlag, value: bool) -> u8 {
    if value {
        f | (1u8 << flag_bit(flag))
    } else {
        f & !(1u8 << flag_bit(flag))
    }
}

/// The flag register with the given flags and low nibble `low`.
pub open spec fn flags_of(low: u8, z: bool, n: bool, h: bool, c: bool) -> u8 {
    ((low & 0x0f) | (if z { 0x80u8 } else { 0u8 }) | (if n { 0x40u8 } else { 0u8 }) | (if h {
        0x20u8
    } else {
        0u8
    }) | (if c { 0x10u8 } else { 0u8 })) as u8
}

/// Every flag register value is its flags and its low nibble, and setting or
/// clearing one flag changes only that flag.
pub proof fn lemma_flags_of(f: u8, z: bool, n: bool, h: bool, c: bool, v: bool)
    ensures
        f == flags_of(
            f,
            flag_set(f, CpuFlag::Z),
            flag_set(f, CpuFlag::N),
            flag_set(f, CpuFlag::H),
            flag_set(f, CpuFlag::C),
        ),
        with_flag(flags_of(f, z, n, h, c), CpuFlag::Z, v) == flags_of(f, v, n, h, c),
        with_flag(flags_of(f, z, n, h, c), CpuFlag::N, v) == flags_of(f, z, v, h, c),
        with_flag(flags_of(f, z, n, h, c), CpuFlag::H, v) == flags_of(f, z, n, v, c),
        with_flag(flags_of(f, z, n, h, c), CpuFlag::C, v) == flags_of(f, z, n, h, v),
        flag_set(flags_of(f, z, n, h, c), CpuFlag::Z) == z,
        flag_set(flags_of(f, z, n, h, c), CpuFlag::N) == n,
        flag_set(flags_of(f, z, n, h, c), CpuFlag::H) == h,
        flag_set(flags_of(f, z, n, h, c), CpuFlag::C) == c,
        flags_of(flags_of(f, z, n, h, c), z, n, h, c) == flags_of(f, z, n, h, c),
        flags_of(f, z, n, h, c) & 0x0f == f & 0x0f,
{
    let zb: u8 = if z { 0x80 } else { 0 };
    let nb: u8 = if n { 0x40 } else { 0 };
    let hb: u8 = if h { 0x20 } else { 0 };
    let cb: u8 = if c { 0x10 } else { 0 };
    let vz: u8 = if v { 0x80 } else { 0 };
    let vn: u8 = if v { 0x40 } else { 0 };
    let vh: u8 = if v { 0x20 } else { 0 };
    let vc: u8 = if v { 0x10 } else { 0 };
    assert(f == ((f & 0x0f) | (if f & (1u8 << 7u8) != 0 { 0x80u8 } else { 0u8 }) | (if f & (1u8
        << 6u8) != 0 { 0x40u8 } else { 0u8 }) | (if f & (1u8 << 5u8) != 0 { 0x20u8 } else { 0u8 })
        | (if f & (1u8 << 4u8) != 0 { 0x10u8 } else { 0u8 }))) by (bit_vector);
    let g = (f & 0x0f) | zb | nb | hb | cb;
    assert(zb == 0x80 || zb == 0);
    assert(nb == 0x40 || nb == 0);
    assert(hb == 0x20 || hb == 0);
    assert(cb == 0x10 || cb == 0);
    assert(vz == 0x80 || vz == 0);
    assert(vn == 0x40 || vn == 0);
    assert(vh == 0x20 || vh == 0);
    assert(vc == 0x10 || vc == 0);
    assert((zb == 0x80 || zb == 0) && (nb == 0x40 || nb == 0) && (hb == 0x20 || hb == 0) && (cb
        == 0x10 || cb == 0) && (vz == 0x80 || vz == 0) && (vn == 0x40 || vn == 0) && (vh == 0x20
        || vh == 0) && (vc == 0x10 || vc == 0) ==> {
        let g = (f & 0x0f) | zb | nb | hb | cb;
        &&& (if vz != 0 { g | (1u8 << 7u8) } else { g & !(1u8 << 7u8) }) == (g & 0x0f) | vz | nb
            | hb | cb
        &&& (if vn != 0 { g | (1u8 << 6u8) } else { g & !(1u8 << 6u8) }) == (g & 0x0f) | zb | vn
            | hb | cb
        &&& (if vh != 0 { g | (1u8 << 5u8) } else { g & !(1u8 << 5u8) }) == (g & 0x0f) | zb | nb
            | vh | cb
        &&& (if vc != 0 { g | (1u8 << 4u8) } else { g & !(1u8 << 4u8) }) == (g & 0x0f) | zb | nb
            | hb | vc
        &&& (g & (1u8 << 7u8) != 0) == (zb != 0)
        &&& (g & (1u8 << 6u8) != 0) == (nb != 0)
        &&& (g & (1u8 << 5u8) != 0) == (hb != 0)
        &&& (g & (1u8 << 4u8) != 0) == (cb != 0)
        &&& g & 0x0f == f & 0x0f
    }) by (bit_vector);
}

/// Setting or clearing a flag makes it read back as written, leaves the other
/// flags and the low nibble as they were.
pub proof fn lemma_with_flag(f: u8, flag: CpuFlag, v: bool)
    ensures
        flag_set(with_flag(f, flag, v), flag) == v,
        forall|other: CpuFlag|
            other != flag ==> flag_set(#[trigger] with_flag(f, flag, v), other) == flag_set(f, other),
        with_flag(f, flag, v) & 0x0f == f & 0x0f,
{
    let z = flag_set(f, CpuFlag::Z);
    let n = flag_set(f, CpuFlag::N);
    let h = flag_set(f, CpuFlag::H);
    let c = flag_set(f, CpuFlag::C);
    lemma_flags_of(f, z, n, h, c, v);
    let g = with_flag(f, flag, v);
    let gz = flag_set(g, CpuFlag::Z);
    let gn = flag_set(g, CpuFlag::N);
    let gh = flag_set(g, CpuFlag::H);
    let gc = flag_set(g, CpuFlag::C);
    match flag {
        CpuFlag::Z => lemma_flags_of(f, v, n, h, c, v),
        CpuFlag::N => lemma_flags_of(f, z, v, h, c, v),
        CpuFlag::H => lemma_flags_of(f, z, n, v, c, v),
        CpuFlag::C => lemma_flags_of(f, z, n, h, v, v),
    }
}

/// Work that the game code hands to the rest of the emulator, in the order it
/// asks for it: running a routine of the ROM, jumping into the ROM, halting,
/// with the hardware running, until the V-blank handler has cleared
/// hVBlankOccurred, or running the hardware four cycles at a time until the
/// audio engine has cleared wAudioFadeOutControl (at once if it reads zero).
#[derive(Debug, Clone, Copy, PartialEq, Eq, Structural)]
pub enum CpuRequest {
    Call(u16),
    Jump(u16),
    WaitVBlank,
    WaitFadeOut,
}

/// Start of the work RAM in the address space, and one past its end.
pub const WRAM_BEGIN: u16 = 0xC000;

pub const WRAM_END: u16 = 0xE000;

/// Start of the high RAM in the address space, and one past its end.
pub const HRAM_BEGIN: u16 = 0xFF80;

pub const HRAM_END: u16 = 0xFFFF;

/// The byte the bus gives for `addr`, from the work RAM, the high RAM or the
/// rest of the address space.
pub open spec fn bus_byte(wram: Seq<u8>, hram: Seq<u8>, other: Seq<u8>, addr: int) -> u8 {
    if WRAM_BEGIN <= addr < WRAM_END {
        wram[addr - WRAM_BEGIN]
    } else if HRAM_BEGIN <= addr < HRAM_END {
        hram[addr - HRAM_BEGIN]
    } else {
        other[addr]
    }
}

/// The 64 KiB address space made of the work and high RAM in `wram` and the
/// rest of it in `mem`.
#[verifier::opaque]
pub open spec fn bus_of(wram: GameState, mem: [u8; 0x10000]) -> Seq<u8> {
    Seq::new(0x10000, |addr: int| bus_byte(wram.wram(), wram.hram(), mem@, addr))
}

/// A byte written through the bus reads back as written, and every other
/// byte reads as before.
pub proof fn lemma_read_after_write(bus: Seq<u8>, addr: int, value: u8, other: int)
    requires
        bus.len() == 0x10000,
        0 <= addr < 0x10000,
        0 <= other < 0x10000,
    ensures
        bus.update(addr, value)[addr] == value,
        other != addr ==> bus.update(addr, value)[other] == bus[other],
{
}

/// Popping right after pushing gives back the value pushed and puts the
/// stack pointer back where it was.
pub proof fn lemma_push_then_pop(bus: Seq<u8>, sp: u16, value: u16)
    requires
        bus.len() == 0x10000,
    ensures
        ({
            let pushed = bus.update((sp - 1) % 0x10000, (value / 256) as u8).update(
                (sp - 2) % 0x10000,
                (value % 256) as u8,
            );
            let top = (sp - 2) % 0x10000;
            &&& pushed[top] as int + pushed[(top + 1) % 0x10000] as int * 256 == value
            &&& (top + 2) % 0x10000 == sp
        }),
{
    let top = (sp - 2) % 0x10000;
    assert((top + 1) % 0x10000 == (sp - 1) % 0x10000);
    assert(top != (sp - 1) % 0x10000);
}

/// Changing one byte of the work RAM changes that byte of the address space.
pub proof fn lemma_bus_wram_update(w1: GameState, w2: GameState, mem: [u8; 0x10000], i: int, v: u8)
    requires
        0 <= i < (WRAM_END - WRAM_BEGIN),
        w2.wram() == w1.wram().update(i, v),
        w2.hram() == w1.hram(),
    ensures
        bus_of(w2, mem) == bus_of(w1, mem).update(WRAM_BEGIN + i, v),
{
    reveal(bus_of);
    w1.lemma_sizes();
    w2.lemma_sizes();
    assert(bus_of(w2, mem) =~= bus_of(w1, mem).update(WRAM_BEGIN + i, v));
}

/// Changing one byte of the high RAM changes that byte of the address space.
pub proof fn lemma_bus_hram_update(w1: GameState, w2: GameState, mem: [u8; 0x10000], i: int, v: u8)
    requires
        0 <= i < (HRAM_END - HRAM_BEGIN),
        w2.hram() == w1.hram().update(i, v),
        w2.wram() == w1.wram(),
    ensures
        bus_of(w2, mem) == bus_of(w1, mem).update(HRAM_BEGIN + i, v),
{
    reveal(bus_of);
    w1.lemma_sizes();
    w2.lemma_sizes();
    assert(bus_of(w2, mem) =~= bus_of(w1, mem).update(HRAM_BEGIN + i, v));
}

/// Changing two bytes of the high RAM changes those bytes of the address
/// space.
pub proof fn lemma_bus_hram_update2(w1: GameState, w2: GameState, mem: [u8; 0x10000], i: int, v: u8, j: int, u: u8)
    requires
        0 <= i < (HRAM_END - HRAM_BEGIN),
        0 <= j < (HRAM_END - HRAM_BEGIN),
        w2.hram() == w1.hram().update(i, v).update(j, u),
        w2.wram() == w1.wram(),
    ensures
        bus_of(w2, mem) == bus_of(w1, mem).update(HRAM_BEGIN + i, v).update(HRAM_BEGIN + j, u),
{
    reveal(bus_of);
    w1.lemma_sizes();
    w2.lemma_sizes();
    assert(bus_of(w2, mem) =~= bus_of(w1, mem).update(HRAM_BEGIN + i, v).update(HRAM_BEGIN + j, u));
}

/// A byte of the work RAM is the byte the bus shows at its address.
pub proof fn lemma_bus_wram_read(w: GameState, mem: [u8; 0x10000], i: int)
    requires
        0 <= i < (WRAM_END - WRAM_BEGIN),
    ensures
        bus_of(w, mem)[WRAM_BEGIN + i] == w.wram()[i],
{
    reveal(bus_of);
    w.lemma_sizes();
}

/// A byte of the high RAM is the byte the bus shows at its address.
pub proof fn lemma_bus_hram_read(w: GameState, mem: [u8; 0x10000], i: int)
    requires
        0 <= i < (HRAM_END - HRAM_BEGIN),
    ensures
        bus_of(w, mem)[HRAM_BEGIN + i] == w.hram()[i],
{
    reveal(bus_of);
    w.lemma_sizes();
}

/// The register file of the Game Boy's SM83 processor, its address space
/// and the ROM it runs, together with the work it has handed out.
///
/// The library runs the game's own routines on this state. Routines that live
/// in the ROM, and waits on the display and timers, are not run here: they are
/// appended to `requests`, in order, for the emulator's interpreter and
/// hardware to carry out once control returns to it. The clock cycles the
/// game's instructions take add up in `cycles`, for the hardware to catch up
/// on.
pub struct Cpu {
    pub a: u8,
    pub b: u8,
    pub c: u8,
    pub d: u8,
    pub e: u8,
    pub f: u8,
    pub h: u8,
    pub l: u8,
    pub pc: u16,
    pub sp: u16,
    pub halted: bool,
    pub ime: bool,
    pub cycles: u64,
    pub setdi: u8,
    pub starter: PokemonSpecies,
    pub requests: Vec<CpuRequest>,
    /// The address space outside the work and high RAM.
    pub mem: [u8; 0x10000],
    /// The work and high RAM.
    pub wram: GameState,
    /// The cartridge ROM.
    pub rom: Vec<u8>,
}

impl Cpu {
    /// The 64 KiB address space as the bus shows it.
    pub open spec fn bus(&self) -> Seq<u8> {
        bus_of(self.wram, self.mem)
    }

    /// The address space has 64 KiB.
    pub proof fn lemma_bus_len(&self)
        ensures
            self.bus().len() == 0x10000,
    {
        reveal(bus_of);
    }

    /// `self` is `old` with only the work RAM, high RAM and the rest of the
    /// address space changed.
    pub open spec fn only_memory_changed(&self, old: &Cpu) -> bool {
        *self == (Cpu { wram: self.wram, mem: self.mem, ..*old })
    }

    /// `self` is `old` with only the request `r` appended.
    pub open spec fn only_requested(&self, old: &Cpu, r: CpuRequest) -> bool {
        &&& self.requests@ == old.requests@.push(r)
        &&& *self == (Cpu { requests: self.requests, ..*old })
    }

    /// The bytes of the address space outside the RAM when the machine is
    /// switched on: the cartridge's first two ROM banks (bank 0 and the
    /// bank 1 the controller starts with) below 0x8000, as far as the ROM
    /// reaches, and zero elsewhere.
    pub open spec fn power_on_mem(rom: Seq<u8>) -> Seq<u8> {
        Seq::new(0x10000, |i: int| if i < 0x8000 && i < rom.len() { rom[i] } else { 0u8 })
    }

    /// The machine as it is switched on with the cartridge `rom` and the
    /// starter `starter`: all registers zero, the RAM as `GameState::new`
    /// makes it, the first two ROM banks mapped below 0x8000, the rest of the
    /// address space zero, and no work handed out.
    pub open spec fn is_powered_on(&self, rom: Seq<u8>, starter: PokemonSpecies) -> bool {
        &&& self.a == 0 && self.b == 0 && self.c == 0 && self.d == 0 && self.e == 0 && self.f == 0
        &&& self.h == 0 && self.l == 0 && self.pc == 0 && self.sp == 0
        &&& !self.halted && !self.ime && self.setdi == 0 && self.cycles == 0
        &&& self.starter == starter
        &&& self.requests@ == Seq::<CpuRequest>::empty()
        &&& self.rom@ == rom
        &&& self.mem@ == Self::power_on_mem(rom)
        &&& self.wram.wram().len() == WRAM_SIZE
        &&& forall|i: int| 0 <= i < WRAM_SIZE ==> #[trigger] self.wram.wram()[i] == random_byte(42, i)
        &&& self.wram.hram() == Seq::new(ZRAM_SIZE as nat, |i: int| 0u8)
    }

    /// A machine switched on with the cartridge `rom` and the starter `starter`.
    pub fn new(rom: Vec<u8>, starter: PokemonSpecies) -> (res: Cpu)
        ensures
            res.is_powered_on(rom@, starter),
    {
        let mut mem = [0u8; 0x10000];
        let mut i: usize = 0;
        while i < 0x8000 && i < rom.len()
            invariant
                i <= 0x8000,
                i <= rom@.len(),
                mem@.len() == 0x10000,
                forall|j: int| 0 <= j < 0x10000 ==> #[trigger] mem@[j] == if j < i { rom@[j] } else { 0u8 },
            decreases 0x8000 - i,
        {
            mem[i] = rom[i];
            i = i + 1;
        }
        let res = Cpu {
            a: 0,
            b: 0,
            c: 0,
            d: 0,
            e: 0,
            f: 0,
            h: 0,
            l: 0,
            pc: 0,
            sp: 0,
            halted: false,
            ime: false,
            cycles: 0,
            setdi: 0,
            starter,
            requests: Vec::new(),
            mem,
            wram: GameState::new(),
            rom,
        };
        assert(res.mem@ =~= Self::power_on_mem(res.rom@));
        res
    }

    /// Reads a byte through the bus.
    pub fn read_byte(&self, addr: u16) -> (res: u8)
        ensures
            res == self.bus()[addr as int],
    {
        proof {
            self.wram.lemma_sizes();
            reveal(bus_of);
        }
        if WRAM_BEGIN <= addr && addr < WRAM_END {
            self.wram.byte((addr - WRAM_BEGIN) as usize)
        } else if HRAM_BEGIN <= addr && addr < HRAM_END {
            self.wram.high_ram_byte((addr - HRAM_BEGIN) as usize)
        } else {
            self.mem[addr as usize]
        }
    }

    /// Writes a byte through the bus.
    pub fn write_byte(&mut self, addr: u16, value: u8)
        ensures
            final(self).bus() == old(self).bus().update(addr as int, value),
            final(self).only_memory_changed(old(self)),
    {
        proof {
            self.wram.lemma_sizes();
        }
        if WRAM_BEGIN <= addr && addr < WRAM_END {
            self.wram.set_byte((addr - WRAM_BEGIN) as usize, value);
        } else if HRAM_BEGIN <= addr && addr < HRAM_END {
            self.wram.set_high_ram_byte((addr - HRAM_BEGIN) as usize, value);
        } else {
            self.mem[addr as usize] = value;
        }
        proof {
            self.wram.lemma_sizes();
            reveal(bus_of);
        }
        assert(self.bus() =~= old(self).bus().update(addr as int, value));
    }

    /// The work and high RAM.
    pub fn borrow_wram(&self) -> (res: &GameState)
        ensures
            *res == self.wram,
    {
        &self.wram
    }

    /// The work and high RAM, to change them through their named variables.
    pub fn borrow_wram_mut(&mut self) -> (res: &mut GameState)
        ensures
            *res == old(self).wram,
            *final(self) == (Cpu { wram: *final(res), ..*old(self) }),
    {
        &mut self.wram
    }

    pub fn hl(&self) -> (res: u16)
        ensures
            res == self.h as int * 256 + self.l as int,
    {
        (self.h as u16) * 256 + (self.l as u16)
    }

    pub fn bc(&self) -> (res: u16)
        ensures
            res == self.b as int * 256 + self.c as int,
    {
        (self.b as u16) * 256 + (self.c as u16)
    }

    pub fn de(&self) -> (res: u16)
        ensures
            res == self.d as int * 256 + self.e as int,
    {
        (self.d as u16) * 256 + (self.e as u16)
    }

    pub fn set_hl(&mut self, value: u16)
        ensures
            *final(self) == (Cpu { h: (value / 256) as u8, l: (value % 256) as u8, ..*old(self) }),
    {
        self.h = (value / 256) as u8;
        self.l = (value % 256) as u8;
    }

    pub fn set_bc(&mut self, value: u16)
        ensures
            *final(self) == (Cpu { b: (value / 256) as u8, c: (value % 256) as u8, ..*old(self) }),
    {
        self.b = (value / 256) as u8;
        self.c = (value % 256) as u8;
    }

    pub fn set_de(&mut self, value: u16)
        ensures
            *final(self) == (Cpu { d: (value / 256) as u8, e: (value % 256) as u8, ..*old(self) }),
    {
        self.d = (value / 256) as u8;
        self.e = (value % 256) as u8;
    }

    /// Whether a flag is set.
    pub fn flag(&self, flag: CpuFlag) -> (res: bool)
        ensures
            res == flag_set(self.f, flag),
    {
        let bit: u8 = match flag {
            CpuFlag::Z => 7,
            CpuFlag::N => 6,
            CpuFlag::H => 5,
            CpuFlag::C => 4,
        };
        self.f & (1u8 << bit) != 0
    }

    /// Sets or clears a flag.
    pub fn set_flag(&mut self, flag: CpuFlag, value: bool)
        ensures
            *final(self) == (Cpu { f: with_flag(old(self).f, flag, value), ..*old(self) }),
    {
        let bit: u8 = match flag {
            CpuFlag::Z => 7,
            CpuFlag::N => 6,
            CpuFlag::H => 5,
            CpuFlag::C => 4,
        };
        if value {
            self.f = self.f | (1u8 << bit);
        } else {
            self.f = self.f & !(1u8 << bit);
        }
    }

    /// Pushes a 16-bit value: the stack pointer goes down by two, the high
    /// byte lands above the low one.
    pub fn stack_push(&mut self, value: u16)
        ensures
            final(self).sp == (old(self).sp - 2) % 0x10000,
            final(self).bus() == old(self).bus().update(
                (old(self).sp - 1) % 0x10000,
                (value / 256) as u8,
            ).update((old(self).sp - 2) % 0x10000, (value % 256) as u8),
            *final(self) == (Cpu { wram: final(self).wram, mem: final(self).mem, sp: final(self).sp, ..*old(self) }),
    {
        proof {
            self.lemma_bus_len();
        }
        self.sp = self.sp.wrapping_sub(1);
        self.write_byte(self.sp, (value / 256) as u8);
        self.sp = self.sp.wrapping_sub(1);
        self.write_byte(self.sp, (value % 256) as u8);
    }

    /// Pops a 16-bit value: the low byte at the stack pointer, the high byte
    /// above it; the stack pointer goes up by two.
    pub fn stack_pop(&mut self) -> (res: u16)
        ensures
            res == old(self).bus()[old(self).sp as int] as int
                + old(self).bus()[(old(self).sp + 1) % 0x10000] as int * 256,
            *final(self) == (Cpu { sp: ((old(self).sp + 2) % 0x10000) as u16, ..*old(self) }),
    {
        proof {
            self.lemma_bus_len();
        }
        let lo = self.read_byte(self.sp);
        self.sp = self.sp.wrapping_add(1);
        let hi = self.read_byte(self.sp);
        self.sp = self.sp.wrapping_add(1);
        (hi as u16) * 256 + (lo as u16)
    }

    /// Hands a ROM routine to the interpreter.
    pub fn call(&mut self, addr: u16)
        ensures
            final(self).only_requested(old(self), CpuRequest::Call(addr)),
    {
        self.requests.push(CpuRequest::Call(addr));
    }

    /// Continues in the ROM at `addr`.
    pub fn jump(&mut self, addr: u16)
        ensures
            final(self).requests@ == old(self).requests@.push(CpuRequest::Jump(addr)),
            *final(self) == (Cpu { pc: addr, requests: final(self).requests, ..*old(self) }),
    {
        self.pc = addr;
        self.requests.push(CpuRequest::Jump(addr));
    }

    /// Counts `n` clock cycles spent by the game's instructions.
    pub fn cycle(&mut self, n: u32)
        requires
            old(self).cycles + n <= u64::MAX,
        ensures
            *final(self) == (Cpu { cycles: (old(self).cycles + n) as u64, ..*old(self) }),
    {
        self.cycles = self.cycles + n as u64;
    }

    /// Runs the hardware until the audio fade-out is over.
    pub fn wait_fade_out(&mut self)
        ensures
            final(self).only_requested(old(self), CpuRequest::WaitFadeOut),
    {
        self.requests.push(CpuRequest::WaitFadeOut);
    }

    /// Halts until the V-blank handler has run: the hardware runs, four
    /// cycles at a time, until hVBlankOccurred reads zero.
    pub fn wait_vblank(&mut self)
        ensures
            final(self).requests@ == old(self).requests@.push(CpuRequest::WaitVBlank),
            *final(self) == (Cpu { halted: true, requests: final(self).requests, ..*old(self) }),
    {
        self.halted = true;
        self.requests.push(CpuRequest::WaitVBlank);
    }
}

} // verus!
