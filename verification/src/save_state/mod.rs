use vstd::prelude::*;

pub mod party;
pub mod pc_box;
pub mod poke_string;
pub mod species;

use self::pc_box::{BoxView, BoxViewMut};
use self::poke_string::{text_prefix, PokeString};

verus! {

/// The size of the cartridge's battery-backed RAM, which is the save file.
pub const SRAM_SIZE: usize = 0x8000;

/// Where the player's name starts in the save file.
pub const PLAYER_NAME_OFFSET: usize = 0x2598;

/// The save file byte whose bits are the eight badges.
pub const BADGES_OFFSET: usize = 0x2602;

/// The first and last byte of the Pokédex "owned" flags in the save file.
pub const OWNED_FLAGS_FIRST: usize = 0x25a3;

pub const OWNED_FLAGS_LAST: usize = 0x25b5;

/// The number of bits set in a byte.
pub open spec fn popcount(b: int) -> int
    decreases b,
{
    if b <= 0 {
        0
    } else {
        b % 2 + popcount(b / 2)
    }
}

/// The number of bits set in the bytes `data[from..to]`.
pub open spec fn popcount_range(data: Seq<u8>, from: int, to: int) -> int
    decreases to - from,
{
    if to <= from {
        0
    } else {
        popcount_range(data, from, to - 1) + popcount(data[to - 1] as int)
    }
}

proof fn lemma_popcount_bound(b: int)
    requires
        0 <= b,
    ensures
        0 <= popcount(b) <= b,
    decreases b,
{
    if b > 0 {
        lemma_popcount_bound(b / 2);
    }
}

/// The number of bits set in a byte.
pub fn count_ones(b: u8) -> (res: u32)
    ensures
        res == popcount(b as int),
        res <= 8,
{
    let mut x: u8 = b;
    let mut n: u32 = 0;
    proof {
        res_le_8(b);
        lemma_popcount_bound(b as int);
    }
    while x > 0
        invariant
            n + popcount(x as int) == popcount(b as int),
            popcount(b as int) <= 8,
            0 <= popcount(x as int),
        decreases x,
    {
        proof {
            lemma_popcount_bound((x / 2) as int);
        }
        n = n + (x % 2) as u32;
        x = x / 2;
    }
    proof {
        res_le_8(b);
    }
    n
}

spec fn pow2_u8(k: int) -> int
    decreases k,
{
    if k <= 0 {
        1
    } else {
        2 * pow2_u8(k - 1)
    }
}

proof fn res_le_8(b: u8)
    ensures
        popcount(b as int) <= 8,
{
    assert(popcount(b as int) <= 8) by {
        reveal_with_fuel(pow2_u8, 9);
        popcount_le_bits(b as int, 8);
    }
}

proof fn popcount_le_bits(b: int, k: int)
    requires
        0 <= b < pow2_u8(k),
        0 <= k,
    ensures
        popcount(b) <= k,
    decreases k,
{
    if k > 0 && b > 0 {
        popcount_le_bits(b / 2, k - 1);
    }
}

/// The individual values (DVs) of a Pokémon, as the game stores them in two
/// bytes: attack and defense, then speed and special, one nibble each.
#[derive(Debug, PartialEq, Eq, Structural, PartialOrd, Ord, Clone, Copy)]
pub struct DeterminantValues(pub u8, pub u8);

pub open spec fn dv_attack(dvs: DeterminantValues) -> int {
    dvs.0 as int / 16
}

pub open spec fn dv_defense(dvs: DeterminantValues) -> int {
    dvs.0 as int % 16
}

pub open spec fn dv_speed(dvs: DeterminantValues) -> int {
    dvs.1 as int / 16
}

pub open spec fn dv_special(dvs: DeterminantValues) -> int {
    dvs.1 as int % 16
}

/// The HP value is made of the lowest bit of each of the other four.
pub open spec fn dv_hp(dvs: DeterminantValues) -> int {
    (dv_attack(dvs) % 2) * 8 + (dv_defense(dvs) % 2) * 4 + (dv_speed(dvs) % 2) * 2 + dv_special(
        dvs,
    ) % 2
}

impl DeterminantValues {
    pub fn from_bytes(bytes: [u8; 2]) -> (res: DeterminantValues)
        ensures
            res.0 == bytes@[0],
            res.1 == bytes@[1],
    {
        DeterminantValues(bytes[0], bytes[1])
    }

    pub fn hp(&self) -> (res: u8)
        ensures
            res == dv_hp(*self),
    {
        let a = self.attack();
        let d = self.defense();
        let s = self.speed();
        let c = self.special();
        assert(((a & 1) << 3u8) | ((d & 1) << 2u8) | ((s & 1) << 1u8) | (c & 1) == (a % 2) * 8 + (d
            % 2) * 4 + (s % 2) * 2 + c % 2) by (bit_vector);
        ((a & 1) << 3) | ((d & 1) << 2) | ((s & 1) << 1) | (c & 1)
    }

    pub fn attack(&self) -> (res: u8)
        ensures
            res == dv_attack(*self),
    {
        let b = self.0;
        assert((b & 0b1111_0000u8) >> 4u8 == b / 16) by (bit_vector);
        (b & 0b1111_0000) >> 4
    }

    pub fn defense(&self) -> (res: u8)
        ensures
            res == dv_defense(*self),
    {
        let b = self.0;
        assert(b & 0b0000_1111u8 == b % 16) by (bit_vector);
        b & 0b0000_1111
    }

    pub fn speed(&self) -> (res: u8)
        ensures
            res == dv_speed(*self),
    {
        let b = self.1;
        assert((b & 0b1111_0000u8) >> 4u8 == b / 16) by (bit_vector);
        (b & 0b1111_0000) >> 4
    }

    pub fn special(&self) -> (res: u8)
        ensures
            res == dv_special(*self),
    {
        let b = self.1;
        assert(b & 0b0000_1111u8 == b % 16) by (bit_vector);
        b & 0b0000_1111
    }
}

/// The current box and the twelve PC boxes of the save file.
#[derive(Debug, PartialEq, Eq, Structural, PartialOrd, Ord, Hash, Clone, Copy)]
pub enum BoxId {
    Current,
    Box1,
    Box2,
    Box3,
    Box4,
    Box5,
    Box6,
    Box7,
    Box8,
    Box9,
    Box10,
    Box11,
    Box12,
}

/// Where each box starts in the save file.
pub open spec fn box_sram_offset(id: BoxId) -> int {
    match id {
        BoxId::Current => 0x30c0,
        BoxId::Box1 => 0x4000,
        BoxId::Box2 => 0x4462,
        BoxId::Box3 => 0x48c4,
        BoxId::Box4 => 0x4d26,
        BoxId::Box5 => 0x5188,
        BoxId::Box6 => 0x55ea,
        BoxId::Box7 => 0x6000,
        BoxId::Box8 => 0x6462,
        BoxId::Box9 => 0x68c4,
        BoxId::Box10 => 0x6d26,
        BoxId::Box11 => 0x7188,
        BoxId::Box12 => 0x75ea,
    }
}

impl BoxId {
    /// Where the box starts in the save file.
    pub fn sram_offset(&self) -> (res: usize)
        ensures
            res == box_sram_offset(*self),
    {
        match self {
            BoxId::Current => 0x30c0,
            BoxId::Box1 => 0x4000,
            BoxId::Box2 => 0x4462,
            BoxId::Box3 => 0x48c4,
            BoxId::Box4 => 0x4d26,
            BoxId::Box5 => 0x5188,
            BoxId::Box6 => 0x55ea,
            BoxId::Box7 => 0x6000,
            BoxId::Box8 => 0x6462,
            BoxId::Box9 => 0x68c4,
            BoxId::Box10 => 0x6d26,
            BoxId::Box11 => 0x7188,
            BoxId::Box12 => 0x75ea,
        }
    }
}

/// The contents of the cartridge's battery-backed RAM: one save file.
pub struct SaveState {
    data: [u8; 0x8000],
}

impl SaveState {
    /// The bytes of the save file.
    pub closed spec fn bytes(&self) -> Seq<u8> {
        self.data@
    }

    /// A save file always has the cartridge RAM's size.
    pub proof fn lemma_len(&self)
        ensures
            self.bytes().len() == SRAM_SIZE,
    {
    }

    /// The bytes of an empty save file: all zero.
    pub open spec fn new_bytes() -> Seq<u8> {
        Seq::new(SRAM_SIZE as nat, |i: int| 0u8)
    }

    /// An empty save file: every byte zero.
    pub fn new() -> (res: SaveState)
        ensures
            res.bytes() == Self::new_bytes(),
    {
        let res = SaveState { data: [0u8; 0x8000] };
        assert(res.bytes() =~= Seq::new(SRAM_SIZE as nat, |i: int| 0u8));
        res
    }

    /// A save file made of the given bytes.
    pub fn from_data(data: [u8; 0x8000]) -> (res: SaveState)
        ensures
            res.bytes() == data@,
    {
        SaveState { data }
    }

    /// The bytes of the save file.
    pub fn data(&self) -> (res: &[u8; 0x8000])
        ensures
            res@ == self.bytes(),
    {
        &self.data
    }

    pub fn byte(&self, addr: usize) -> (res: u8)
        requires
            addr < SRAM_SIZE,
        ensures
            res == self.bytes()[addr as int],
    {
        self.data[addr]
    }

    pub fn set_byte(&mut self, addr: usize, value: u8)
        requires
            addr < SRAM_SIZE,
        ensures
            final(self).bytes() == old(self).bytes().update(addr as int, value),
    {
        self.data[addr] = value;
    }

    /// The player's name, at most seven letters and stored in an eleven byte field.
    pub fn player_name(&self) -> (res: PokeString)
        ensures
            res@ == text_prefix(self.bytes().skip(PLAYER_NAME_OFFSET as int), 11),
    {
        PokeString::from_bytes(&self.data[PLAYER_NAME_OFFSET..SRAM_SIZE], 11)
    }

    /// The number of badges earned: the bits set in the badge byte.
    pub fn count_badges(&self) -> (res: u32)
        ensures
            res == popcount(self.bytes()[BADGES_OFFSET as int] as int),
    {
        count_ones(self.data[BADGES_OFFSET])
    }

    /// The number of species marked as owned in the Pokédex.
    pub fn count_owned_mons(&self) -> (res: u32)
        ensures
            res == popcount_range(
                self.bytes(),
                OWNED_FLAGS_FIRST as int,
                OWNED_FLAGS_LAST as int + 1,
            ),
    {
        let mut result: u32 = 0;
        let mut addr: usize = OWNED_FLAGS_FIRST;
        while addr <= OWNED_FLAGS_LAST
            invariant
                OWNED_FLAGS_FIRST <= addr <= OWNED_FLAGS_LAST + 1,
                result == popcount_range(self.bytes(), OWNED_FLAGS_FIRST as int, addr as int),
                result <= 8 * (addr - OWNED_FLAGS_FIRST),
            decreases OWNED_FLAGS_LAST + 1 - addr,
        {
            result = result + count_ones(self.data[addr]);
            addr = addr + 1;
        }
        result
    }

    /// A read-only view of one of the boxes.
    pub fn pc_box(&self, id: BoxId) -> (res: BoxView<'_>)
        ensures
            res.bytes() == self.bytes().skip(box_sram_offset(id)),
    {
        BoxView::new(&self.data[id.sram_offset()..SRAM_SIZE])
    }

    /// A view of one of the boxes through which it can be changed.
    pub fn box_mut(&mut self, id: BoxId) -> (res: BoxViewMut<'_>)
        ensures
            res.data@ == old(self).bytes().skip(box_sram_offset(id)),
            final(self).bytes() == old(self).bytes().take(box_sram_offset(id)) + final(res.data)@,
    {
        let off = id.sram_offset();
        let (_, tail) = self.data.split_at_mut(off);
        BoxViewMut::new(tail)
    }
}

} // verus!
