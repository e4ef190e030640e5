use vstd::prelude::*;

pub mod bcd;

use crate::bytes::{
    has_bit, hi8, high_byte, le16, lo8, low_byte, u16_from_le, with_bit, be16,
};
use crate::game::constants::{player_direction_value, PlayerDirection};
use crate::save_state::pc_box::{BoxView, BoxViewMut};
use crate::save_state::party::{PartyView, PartyViewMut};
use crate::save_state::species::{species_index, PokemonSpecies};
use self::bcd::bcd_encoding;

verus! {

/// The size of the work RAM.
pub const WRAM_SIZE: usize = 0x8000;

/// The size of the high RAM.
pub const ZRAM_SIZE: usize = 0x7F;

/// Where the player's battling Pokémon starts in work RAM.
pub const BATTLE_MON_START: usize = 0x1013;

/// Where the current box starts in work RAM.
pub const BOX_DATA_START: usize = 0x1a7f;

/// Where the party starts in work RAM.
pub const PARTY_DATA_START: usize = 0x1162;

/// wFlags_0xcd60, in work RAM.
/// bit 0: is player engaged by trainer (to avoid being engaged by multiple trainers simultaneously) \
/// bit 1: boulder dust animation (from using Strength) pending \
/// bit 3: using generic PC \
/// bit 5: don't play sound when A or B is pressed in menu \
/// bit 6: tried pushing against boulder once (you need to push twice before it will move)
pub const W_CD60: usize = 0x0d60;

/// wd728, in work RAM.
/// bit 0: using Strength outside of battle \
/// bit 1: set by IsSurfingAllowed when surfing's allowed, but the caller resets it after checking the result \
/// bit 3: received Old Rod \
/// bit 4: received Good Rod \
/// bit 5: received Super Rod \
/// bit 6: gave one of the Saffron guards a drink \
/// bit 7: set by ItemUseCardKey, which is leftover code from a previous implementation of the Card Key
pub const W_D728: usize = 0x1727;

/// The multiplier of the generator that fills fresh work RAM.
pub const LCG_A: u32 = 1103515245;

/// The increment of the generator that fills fresh work RAM.
pub const LCG_C: u32 = 12345;

/// One step of the generator: multiply and add, both wrapping at 2^32.
pub open spec fn lcg_next(x: u32) -> u32 {
    (((x as int * LCG_A as int) % 0x1_0000_0000 + LCG_C as int) % 0x1_0000_0000) as u32
}

/// The generator's state after `n` steps from `start`.
pub open spec fn lcg_state(start: u32, n: nat) -> u32
    decreases n,
{
    if n == 0 {
        start
    } else {
        lcg_next(lcg_state(start, (n - 1) as nat))
    }
}

/// The `i`-th byte the generator gives from `start`: bits 23 to 30 of its state
/// after `i + 1` steps.
pub open spec fn random_byte(start: u32, i: int) -> u8 {
    ((lcg_state(start, (i + 1) as nat) as int / 0x80_0000) % 256) as u8
}

/// Fills `slice` with pseudo-random bytes (a linear congruential generator,
/// not for cryptography); each distinct use should pass its own start value.
fn fill_random(slice: &mut [u8], start: u32)
    ensures
        final(slice)@.len() == old(slice)@.len(),
        forall|i: int| 0 <= i < old(slice)@.len() ==> #[trigger] final(slice)@[i] == random_byte(start, i),
{
    let n = slice.len();
    let mut x = start;
    let mut i: usize = 0;
    while i < n
        invariant
            n == slice@.len(),
            n == old(slice)@.len(),
            i <= n,
            x == lcg_state(start, i as nat),
            forall|j: int| 0 <= j < i ==> #[trigger] slice@[j] == random_byte(start, j),
        decreases n - i,
    {
        x = x.wrapping_mul(LCG_A).wrapping_add(LCG_C);
        let v = x;
        assert(((v >> 23u32) & 0xFFu32) == (v / 0x80_0000) % 256) by (bit_vector);
        slice[i] = ((x >> 23) & 0xFF) as u8;
        i = i + 1;
    }
}

/// The outcome of the last battle.
#[derive(Debug, Clone, Copy, PartialEq, Eq, Structural)]
pub enum BattleResult {
    Win,
    Lose,
    Draw,
}

/// The byte that stands for a battle outcome.
pub open spec fn battle_result_value(r: BattleResult) -> u8 {
    match r {
        BattleResult::Win => 0,
        BattleResult::Lose => 1,
        BattleResult::Draw => 2,
    }
}

/// Whether the last attack was a critical hit or a one-hit KO.
#[derive(Debug, Clone, Copy, PartialEq, Eq, Structural)]
pub enum CriticalHitOrOhko {
    NormalAttack,
    CriticalHit,
    SuccessfulOhko,
    FailedOhko,
}

/// The byte that stands for a critical hit or one-hit KO outcome.
pub open spec fn critical_hit_or_ohko_value(v: CriticalHitOrOhko) -> u8 {
    match v {
        CriticalHitOrOhko::NormalAttack => 0,
        CriticalHitOrOhko::CriticalHit => 1,
        CriticalHitOrOhko::SuccessfulOhko => 2,
        CriticalHitOrOhko::FailedOhko => 0xff,
    }
}

/// A view of the player's battling Pokémon through which it can be changed.
pub struct BattleMonViewMut<'a> {
    pub data: &'a mut [u8],
}

impl<'a> BattleMonViewMut<'a> {
    pub fn new(data: &'a mut [u8]) -> (res: BattleMonViewMut<'a>)
        ensures
            res.data@ == old(data)@,
            final(data)@ == final(res.data)@,
    {
        BattleMonViewMut { data }
    }

    /// Sets the species byte: the species' index, or zero for none.
    pub fn set_species(&mut self, value: Option<PokemonSpecies>)
        requires
            old(self).data@.len() >= 1,
        ensures
            final(self).data@ == old(self).data@.update(
                0,
                match value {
                    Some(s) => species_index(s),
                    None => 0u8,
                },
            ),
            final(final(self).data)@ == final(old(self).data)@,
    {
        self.data[0] = match value {
            Some(s) => s.into_index(),
            None => 0,
        };
    }
}

/// A read-only view of the player's battle status bytes.
pub struct BattleStatusView<'a> {
    data: &'a [u8],
}

impl<'a> BattleStatusView<'a> {
    pub closed spec fn bytes(&self) -> Seq<u8> {
        self.data@
    }

    pub fn new(data: &'a [u8]) -> (res: BattleStatusView<'a>)
        ensures
            res.bytes() == data@,
    {
        BattleStatusView { data }
    }

    pub fn storing_energy(&self) -> (res: bool)
        requires
            self.bytes().len() >= 3,
        ensures
            res == has_bit(self.bytes()[0], 0),
    {
        self.data[0] & (1u8 << 0u8) != 0
    }

    pub fn thrashing_about(&self) -> (res: bool)
        requires
            self.bytes().len() >= 3,
        ensures
            res == has_bit(self.bytes()[0], 1),
    {
        self.data[0] & (1u8 << 1u8) != 0
    }

    pub fn attacking_multiple_times(&self) -> (res: bool)
        requires
            self.bytes().len() >= 3,
        ensures
            res == has_bit(self.bytes()[0], 2),
    {
        self.data[0] & (1u8 << 2u8) != 0
    }

    pub fn using_rage(&self) -> (res: bool)
        requires
            self.bytes().len() >= 3,
        ensures
            res == has_bit(self.bytes()[1], 6),
    {
        self.data[1] & (1u8 << 6u8) != 0
    }

    pub fn transformed(&self) -> (res: bool)
        requires
            self.bytes().len() >= 3,
        ensures
            res == has_bit(self.bytes()[2], 3),
    {
        self.data[2] & (1u8 << 3u8) != 0
    }
}

/// A read-only view of one of the current map's four connection headers.
pub struct MapConnectionView<'a> {
    data: &'a [u8],
}

impl<'a> MapConnectionView<'a> {
    pub closed spec fn bytes(&self) -> Seq<u8> {
        self.data@
    }

    pub fn new(data: &'a [u8]) -> (res: MapConnectionView<'a>)
        ensures
            res.bytes() == data@,
    {
        MapConnectionView { data }
    }

    pub fn connected_map(&self) -> (res: u8)
        requires
            self.bytes().len() >= 11,
        ensures
            res == self.bytes()[0],
    {
        self.data[0]
    }

    pub fn connection_strip_src(&self) -> (res: u16)
        requires
            self.bytes().len() >= 11,
        ensures
            res == le16(self.bytes()[1], self.bytes()[2]),
    {
        u16_from_le(self.data[1], self.data[2])
    }

    pub fn connection_strip_dest(&self) -> (res: u16)
        requires
            self.bytes().len() >= 11,
        ensures
            res == le16(self.bytes()[3], self.bytes()[4]),
    {
        u16_from_le(self.data[3], self.data[4])
    }

    pub fn connection_strip_length(&self) -> (res: u8)
        requires
            self.bytes().len() >= 11,
        ensures
            res == self.bytes()[5],
    {
        self.data[5]
    }

    pub fn connected_map_width(&self) -> (res: u8)
        requires
            self.bytes().len() >= 11,
        ensures
            res == self.bytes()[6],
    {
        self.data[6]
    }

    pub fn connected_map_y_alignment(&self) -> (res: u8)
        requires
            self.bytes().len() >= 11,
        ensures
            res == self.bytes()[7],
    {
        self.data[7]
    }

    pub fn connected_map_x_alignment(&self) -> (res: u8)
        requires
            self.bytes().len() >= 11,
        ensures
            res == self.bytes()[8],
    {
        self.data[8]
    }

    pub fn connected_map_view_pointer(&self) -> (res: u16)
        requires
            self.bytes().len() >= 11,
        ensures
            res == le16(self.bytes()[9], self.bytes()[10]),
    {
        u16_from_le(self.data[9], self.data[10])
    }
}

/// Where the north connection header starts in work RAM; the south, west
/// and east ones follow, eleven bytes each.
pub const NORTH_CONNECTION: usize = 0x1370;

pub const SOUTH_CONNECTION: usize = 0x137b;

pub const WEST_CONNECTION: usize = 0x1386;

pub const EAST_CONNECTION: usize = 0x1391;

/// The game's work RAM (0x8000 bytes, at 0xC000 onwards) and high RAM (0x7F
/// bytes, at 0xFF80 onwards), with named accessors for the variables the
/// game's code uses.
pub struct GameState {
    data: [u8; 0x8000],
    high_ram: [u8; 0x7F],
}

impl GameState {
    /// The work RAM bytes.
    pub closed spec fn wram(&self) -> Seq<u8> {
        self.data@
    }

    /// The high RAM bytes.
    pub closed spec fn hram(&self) -> Seq<u8> {
        self.high_ram@
    }

    pub proof fn lemma_sizes(&self)
        ensures
            self.wram().len() == WRAM_SIZE,
            self.hram().len() == ZRAM_SIZE,
    {
    }

    /// Fresh RAM: work RAM filled from the generator started at 42, as real
    /// hardware holds noise at power-on, and high RAM zeroed.
    pub fn new() -> (res: GameState)
        ensures
            res.wram().len() == WRAM_SIZE,
            forall|i: int| 0 <= i < WRAM_SIZE ==> #[trigger] res.wram()[i] == random_byte(42, i),
            res.hram() == Seq::new(ZRAM_SIZE as nat, |i: int| 0u8),
    {
        let mut data = [0u8; 0x8000];
        fill_random(&mut data, 42);
        let res = GameState { data, high_ram: [0u8; 0x7F] };
        assert(res.hram() =~= Seq::new(ZRAM_SIZE as nat, |i: int| 0u8));
        res
    }

    pub fn byte(&self, addr: usize) -> (res: u8)
        requires
            addr < WRAM_SIZE,
        ensures
            res == self.wram()[addr as int],
    {
        self.data[addr]
    }

    pub fn set_byte(&mut self, addr: usize, value: u8)
        requires
            addr < WRAM_SIZE,
        ensures
            final(self).wram() == old(self).wram().update(addr as int, value),
            final(self).hram() == old(self).hram(),
    {
        self.data[addr] = value;
    }

    pub fn high_ram_byte(&self, addr: usize) -> (res: u8)
        requires
            addr < ZRAM_SIZE,
        ensures
            res == self.hram()[addr as int],
    {
        self.high_ram[addr]
    }

    pub fn set_high_ram_byte(&mut self, addr: usize, value: u8)
        requires
            addr < ZRAM_SIZE,
        ensures
            final(self).hram() == old(self).hram().update(addr as int, value),
            final(self).wram() == old(self).wram(),
    {
        self.high_ram[addr] = value;
    }

    /// The player's battling Pokémon, through which it can be changed.
    pub fn battle_mon_mut(&mut self) -> (res: BattleMonViewMut<'_>)
        ensures
            res.data@ == old(self).wram().skip(BATTLE_MON_START as int),
            final(self).wram() == old(self).wram().take(BATTLE_MON_START as int) + final(res.data)@,
            final(self).hram() == old(self).hram(),
    {
        let (_, tail) = self.data.split_at_mut(BATTLE_MON_START);
        BattleMonViewMut::new(tail)
    }

    /// The current box.
    pub fn pc_box(&self) -> (res: BoxView<'_>)
        ensures
            res.bytes() == self.wram().skip(BOX_DATA_START as int),
    {
        BoxView::new(&self.data[BOX_DATA_START..WRAM_SIZE])
    }

    /// The current box, through which it can be changed.
    pub fn box_mut(&mut self) -> (res: BoxViewMut<'_>)
        ensures
            res.data@ == old(self).wram().skip(BOX_DATA_START as int),
            final(self).wram() == old(self).wram().take(BOX_DATA_START as int) + final(res.data)@,
            final(self).hram() == old(self).hram(),
    {
        let (_, tail) = self.data.split_at_mut(BOX_DATA_START);
        BoxViewMut::new(tail)
    }

    /// The party.
    pub fn party(&self) -> (res: PartyView<'_>)
        ensures
            res.bytes() == self.wram().skip(PARTY_DATA_START as int),
    {
        PartyView::new(&self.data[PARTY_DATA_START..WRAM_SIZE])
    }

    /// The party, through which it can be changed.
    pub fn party_mut(&mut self) -> (res: PartyViewMut<'_>)
        ensures
            res.data@ == old(self).wram().skip(PARTY_DATA_START as int),
            final(self).wram() == old(self).wram().take(PARTY_DATA_START as int) + final(res.data)@,
            final(self).hram() == old(self).hram(),
    {
        let (_, tail) = self.data.split_at_mut(PARTY_DATA_START);
        PartyViewMut::new(tail)
    }

    /// The player's battle status bytes.
    pub fn player_battle_status(&self) -> (res: BattleStatusView<'_>)
        ensures
            res.bytes() == self.wram().skip(0x1061),
    {
        BattleStatusView::new(&self.data[0x1061..WRAM_SIZE])
    }

    /// The current map's north connection header.
    pub fn north(&self) -> (res: MapConnectionView<'_>)
        ensures
            res.bytes() == self.wram().skip(NORTH_CONNECTION as int),
    {
        MapConnectionView::new(&self.data[NORTH_CONNECTION..WRAM_SIZE])
    }

    /// The current map's south connection header.
    pub fn south(&self) -> (res: MapConnectionView<'_>)
        ensures
            res.bytes() == self.wram().skip(SOUTH_CONNECTION as int),
    {
        MapConnectionView::new(&self.data[SOUTH_CONNECTION..WRAM_SIZE])
    }

    /// The current map's west connection header.
    pub fn west(&self) -> (res: MapConnectionView<'_>)
        ensures
            res.bytes() == self.wram().skip(WEST_CONNECTION as int),
    {
        MapConnectionView::new(&self.data[WEST_CONNECTION..WRAM_SIZE])
    }

    /// The current map's east connection header.
    pub fn east(&self) -> (res: MapConnectionView<'_>)
        ensures
            res.bytes() == self.wram().skip(EAST_CONNECTION as int),
    {
        MapConnectionView::new(&self.data[EAST_CONNECTION..WRAM_SIZE])
    }

    /// The outcome of the last battle; the byte must hold one of the three outcomes.
    pub fn battle_result(&self) -> (res: BattleResult)
        requires
            self.wram()[0x0f0b] <= 2,
        ensures
            battle_result_value(res) == self.wram()[0x0f0b],
    {
        match self.data[0x0f0b] {
            0 => BattleResult::Win,
            1 => BattleResult::Lose,
            _ => BattleResult::Draw,
        }
    }

    pub fn set_battle_result(&mut self, value: BattleResult)
        ensures
            final(self).wram() == old(self).wram().update(0x0f0b, battle_result_value(value)),
            final(self).hram() == old(self).hram(),
    {
        self.data[0x0f0b] = match value {
            BattleResult::Win => 0,
            BattleResult::Lose => 1,
            BattleResult::Draw => 2,
        };
    }

    pub fn set_critical_hit_or_ohko(&mut self, value: CriticalHitOrOhko)
        ensures
            final(self).wram() == old(self).wram().update(0x105d, critical_hit_or_ohko_value(value)),
            final(self).hram() == old(self).hram(),
    {
        self.data[0x105d] = match value {
            CriticalHitOrOhko::NormalAttack => 0,
            CriticalHitOrOhko::CriticalHit => 1,
            CriticalHitOrOhko::SuccessfulOhko => 2,
            CriticalHitOrOhko::FailedOhko => 0xff,
        };
    }

    /// Total amount of money made using Pay Day during the current battle,
    /// stored as six BCD digits: the value's last six decimal digits.
    pub fn set_total_pay_day_money(&mut self, value: u32)
        ensures
            final(self).wram() == old(self).wram().update(0x0ce5, bcd_encoding(value as int)[0]).update(0x0ce6, bcd_encoding(value as int)[1]).update(0x0ce7, bcd_encoding(value as int)[2]),
            final(self).hram() == old(self).hram(),
    {
        let digit0 = (value % 10) as u8;
        let digit1 = ((value / 10) % 10) as u8;
        let digit2 = ((value / 100) % 10) as u8;
        let digit3 = ((value / 1000) % 10) as u8;
        let digit4 = ((value / 10000) % 10) as u8;
        let digit5 = ((value / 100000) % 10) as u8;
        assert((digit5 << 4u8) | digit4 == digit5 * 16 + digit4) by (bit_vector)
            requires
                digit5 < 10,
                digit4 < 10,
        ;
        assert((digit3 << 4u8) | digit2 == digit3 * 16 + digit2) by (bit_vector)
            requires
                digit3 < 10,
                digit2 < 10,
        ;
        assert((digit1 << 4u8) | digit0 == digit1 * 16 + digit0) by (bit_vector)
            requires
                digit1 < 10,
                digit0 < 10,
        ;
        self.data[0x0ce5] = (digit5 << 4) | digit4;
        self.data[0x0ce6] = (digit3 << 4) | digit2;
        self.data[0x0ce7] = (digit1 << 4) | digit0;
    }

    /// Pointer to the trainer's picture, little-endian.
    pub fn trainer_pic_pointer(&self) -> (res: u16)
        ensures
            res == le16(self.wram()[0x1032], self.wram()[0x1033]),
    {
        let lo = self.data[0x1032];
        let hi = self.data[0x1033];
        assert((lo as u16) | ((hi as u16) << 8u16) == hi as u16 * 256 + lo as u16) by (bit_vector);
        (lo as u16) | ((hi as u16) << 8)
    }

    pub fn entering_cable_club(&self) -> (res: bool)
        ensures
            res == (self.wram()[0x0c47] != 0),
    {
        self.data[0x0c47] != 0
    }

    /// The tiles over which the player can talk to someone (counters).
    pub fn tileset_talking_over_tiles(&self) -> (res: [u8; 3])
        ensures
            res@ == self.wram().subrange(0x1531, 0x1534),
    {
        let res = [self.data[0x1531], self.data[0x1532], self.data[0x1533]];
        assert(res@ =~= self.wram().subrange(0x1531, 0x1534));
        res
    }

    pub fn set_player_direction(&mut self, direction: PlayerDirection)
        ensures
            final(self).wram() == old(self).wram().update(0x1529, player_direction_value(direction)),
            final(self).hram() == old(self).hram(),
    {
        self.data[0x1529] = direction.value();
    }

    pub fn set_sprite_player_state_data1_y_step_vector(&mut self, value: i8)
        ensures
            final(self).wram() == old(self).wram().update(0x0103, value as u8),
            final(self).hram() == old(self).hram(),
    {
        self.data[0x0103] = value as u8;
    }

    pub fn set_sprite_player_state_data1_x_step_vector(&mut self, value: i8)
        ensures
            final(self).wram() == old(self).wram().update(0x0105, value as u8),
            final(self).hram() == old(self).hram(),
    {
        self.data[0x0105] = value as u8;
    }

    /// remnant of debug mode; only set by the debug build. \
    /// if it is set: \
    /// 1. skips most of Prof. Oak's speech, and uses NINTEN as the player's name and SONY as the rival's name \
    /// 2. does not have the player start in floor two of the player's house (instead sending them to [wLastMap]) \
    /// 3. allows wild battles to be avoided by holding down B
    ///
    /// furthermore, in the debug build: \
    /// 4. allows trainers to be avoided by holding down B \
    /// 5. skips Safari Zone step counter by holding down B \
    /// 6. skips the NPC who blocks Route 3 before beating Brock by holding down B \
    /// 7. skips Cerulean City rival battle by holding down B \
    /// 8. skips Pokémon Tower rival battle by holding down B
    pub fn debug_mode(&self) -> (res: bool)
        ensures
            res == has_bit(self.wram()[0x1731], 1),
    {
        self.data[0x1731] & (1u8 << 1u8) != 0
    }

    /// Target warp is a fly warp or a dungeon warp
    pub fn set_fly_or_dungeon_warp(&mut self, value: bool)
        ensures
            final(self).wram() == old(self).wram().update(0x1731, with_bit(old(self).wram()[0x1731], 2, value)),
            final(self).hram() == old(self).hram(),
    {
        let current = self.data[0x1731];
        self.data[0x1731] = if value {
            current | (1u8 << 2u8)
        } else {
            current & !(1u8 << 2u8)
        };
    }

    /// Used warp pad, escape rope, dig, teleport, or fly, so the target warp is a "fly warp"
    pub fn used_warp_pad(&self) -> (res: bool)
        ensures
            res == has_bit(self.wram()[0x1731], 3),
    {
        self.data[0x1731] & (1u8 << 3u8) != 0
    }

    pub fn set_used_warp_pad(&mut self, value: bool)
        ensures
            final(self).wram() == old(self).wram().update(0x1731, with_bit(old(self).wram()[0x1731], 3, value)),
            final(self).hram() == old(self).hram(),
    {
        let current = self.data[0x1731];
        self.data[0x1731] = if value {
            current | (1u8 << 3u8)
        } else {
            current & !(1u8 << 3u8)
        };
    }

    /// Jumped into hole (Pokemon Mansion, Seafoam Islands, Victory Road) or went down waterfall (Seafoam Islands), so the target warp is a "dungeon warp"
    pub fn jumped_into_hole(&self) -> (res: bool)
        ensures
            res == has_bit(self.wram()[0x1731], 4),
    {
        self.data[0x1731] & (1u8 << 4u8) != 0
    }

    /// Currently being forced to ride bike (cycling road)
    pub fn set_forced_to_ride_bike(&mut self, value: bool)
        ensures
            final(self).wram() == old(self).wram().update(0x1731, with_bit(old(self).wram()[0x1731], 5, value)),
            final(self).hram() == old(self).hram(),
    {
        let current = self.data[0x1731];
        self.data[0x1731] = if value {
            current | (1u8 << 5u8)
        } else {
            current & !(1u8 << 5u8)
        };
    }

    pub fn standing_on_warp(&self) -> (res: bool)
        ensures
            res == has_bit(self.wram()[0x1735], 2),
    {
        self.data[0x1735] & (1u8 << 2u8) != 0
    }

    pub fn set_standing_on_warp(&mut self, value: bool)
        ensures
            final(self).wram() == old(self).wram().update(0x1735, with_bit(old(self).wram()[0x1735], 2, value)),
            final(self).hram() == old(self).hram(),
    {
        let current = self.data[0x1735];
        self.data[0x1735] = if value {
            current | (1u8 << 2u8)
        } else {
            current & !(1u8 << 2u8)
        };
    }

    pub fn set_warped_from_which_warp(&mut self, value: u8)
        ensures
            final(self).wram() == old(self).wram().update(0x173a, value),
            final(self).hram() == old(self).hram(),
    {
        self.data[0x173a] = value;
    }

    pub fn set_warped_from_which_map(&mut self, value: u8)
        ensures
            final(self).wram() == old(self).wram().update(0x173b, value),
            final(self).hram() == old(self).hram(),
    {
        self.data[0x173b] = value;
    }

    /// `walk_bike_surf_state` is sometimes copied here, but it doesn't seem to be used for anything
    pub fn set_walk_bike_surf_state_copy(&mut self, value: u8)
        ensures
            final(self).wram() == old(self).wram().update(0x1119, value),
            final(self).hram() == old(self).hram(),
    {
        self.data[0x1119] = value;
    }

    /// Non-zero when the whole party has fainted due to out-of-battle poison damage
    pub fn out_of_battle_blackout(&self) -> (res: u8)
        ensures
            res == self.wram()[0x112c],
    {
        self.data[0x112c]
    }

    /// Counts down once every step
    pub fn step_counter(&self) -> (res: u8)
        ensures
            res == self.wram()[0x113a],
    {
        self.data[0x113a]
    }

    pub fn set_step_counter(&mut self, value: u8)
        ensures
            final(self).wram() == old(self).wram().update(0x113a, value),
            final(self).hram() == old(self).hram(),
    {
        self.data[0x113a] = value;
    }

    /// after a battle, you have at least 3 steps before a random battle can occur
    pub fn number_of_no_random_battle_steps_left(&self) -> (res: u8)
        ensures
            res == self.wram()[0x113b],
    {
        self.data[0x113b]
    }

    pub fn set_number_of_no_random_battle_steps_left(&mut self, value: u8)
        ensures
            final(self).wram() == old(self).wram().update(0x113b, value),
            final(self).hram() == old(self).hram(),
    {
        self.data[0x113b] = value;
    }

    /// Offset subtracted from FadePal4 to get the background and object palettes for the current map
    /// normally, it is 0. It is 6 when Flash is needed, causing FadePal2 to be used instead of FadePal4
    pub fn map_pal_offset(&self) -> (res: u8)
        ensures
            res == self.wram()[0x135c],
    {
        self.data[0x135c]
    }

    pub fn set_map_pal_offset(&mut self, value: u8)
        ensures
            final(self).wram() == old(self).wram().update(0x135c, value),
            final(self).hram() == old(self).hram(),
    {
        self.data[0x135c] = value;
    }

    /// bit 0: If 0, limit the delay to 1 frame. Note that this has no effect if
    ///        the delay has been disabled entirely through bit 1 of this variable
    ///        or bit 6 of wd730. \
    /// bit 1: If 0, no delay.
    pub fn letter_printing_delay_flags(&self) -> (res: u8)
        ensures
            res == self.wram()[0x1357],
    {
        self.data[0x1357]
    }

    pub fn set_letter_printing_delay_flags(&mut self, value: u8)
        ensures
            final(self).wram() == old(self).wram().update(0x1357, value),
            final(self).hram() == old(self).hram(),
    {
        self.data[0x1357] = value;
    }

    pub fn player_move_list_index(&self) -> (res: u8)
        ensures
            res == self.wram()[0x0c2e],
    {
        self.data[0x0c2e]
    }

    pub fn player_mon_number(&self) -> (res: u8)
        ensures
            res == self.wram()[0x0c2f],
    {
        self.data[0x0c2f]
    }

    /// The next simulated joypad state is at wSimulatedJoypadStatesEnd plus this value minus 1
    ///
    /// 0 if the joypad state is not being simulated
    pub fn simulated_joypad_states_index(&self) -> (res: u8)
        ensures
            res == self.wram()[0x0d38],
    {
        self.data[0x0d38]
    }

    pub fn set_simulated_joypad_states_index(&mut self, value: u8)
        ensures
            final(self).wram() == old(self).wram().update(0x0d38, value),
            final(self).hram() == old(self).hram(),
    {
        self.data[0x0d38] = value;
    }

    /// 0 = neither \
    /// 1 = warp pad \
    /// 2 = hole
    pub fn standing_on_warp_pad_or_hole(&self) -> (res: u8)
        ensures
            res == self.wram()[0x0d5b],
    {
        self.data[0x0d5b]
    }

    pub fn set_joy_ignore(&mut self, value: u8)
        ensures
            final(self).wram() == old(self).wram().update(0x0d6b, value),
            final(self).hram() == old(self).hram(),
    {
        self.data[0x0d6b] = value;
    }

    /// Walk animation counter
    pub fn walk_counter(&self) -> (res: u8)
        ensures
            res == self.wram()[0x0fc4],
    {
        self.data[0x0fc4]
    }

    pub fn set_walk_counter(&mut self, value: u8)
        ensures
            final(self).wram() == old(self).wram().update(0x0fc4, value),
            final(self).hram() == old(self).hram(),
    {
        self.data[0x0fc4] = value;
    }

    /// Background tile number in front of the player (either 1 or 2 steps ahead)
    pub fn tile_in_front_of_player(&self) -> (res: u8)
        ensures
            res == self.wram()[0x0fc5],
    {
        self.data[0x0fc5]
    }

    pub fn enemy_mon_species2(&self) -> (res: u8)
        ensures
            res == self.wram()[0x0fd7],
    {
        self.data[0x0fd7]
    }

    pub fn set_enemy_mon_species2(&mut self, value: u8)
        ensures
            final(self).wram() == old(self).wram().update(0x0fd7, value),
            final(self).hram() == old(self).hram(),
    {
        self.data[0x0fd7] = value;
    }

    pub fn set_trainer_class(&mut self, value: u8)
        ensures
            final(self).wram() == old(self).wram().update(0x1030, value),
            final(self).hram() == old(self).hram(),
    {
        self.data[0x1030] = value;
    }

    /// number of times remaining that AI action can occur
    pub fn set_ai_count(&mut self, value: u8)
        ensures
            final(self).wram() == old(self).wram().update(0x0cdf, value),
            final(self).hram() == old(self).hram(),
    {
        self.data[0x0cdf] = value;
    }

    pub fn set_enemy_mon_party_pos(&mut self, value: u8)
        ensures
            final(self).wram() == old(self).wram().update(0x0fe7, value),
            final(self).hram() == old(self).hram(),
    {
        self.data[0x0fe7] = value;
    }

    pub fn is_in_battle(&self) -> (res: u8)
        ensures
            res == self.wram()[0x1056],
    {
        self.data[0x1056]
    }

    pub fn set_is_in_battle(&mut self, value: u8)
        ensures
            final(self).wram() == old(self).wram().update(0x1056, value),
            final(self).hram() == old(self).hram(),
    {
        self.data[0x1056] = value;
    }

    pub fn gym_leader_no(&self) -> (res: u8)
        ensures
            res == self.wram()[0x105b],
    {
        self.data[0x105b]
    }

    pub fn cur_map(&self) -> (res: u8)
        ensures
            res == self.wram()[0x135d],
    {
        self.data[0x135d]
    }

    pub fn set_cur_map(&mut self, value: u8)
        ensures
            final(self).wram() == old(self).wram().update(0x135d, value),
            final(self).hram() == old(self).hram(),
    {
        self.data[0x135d] = value;
    }

    /// in a wild battle, this is the species of pokemon \
    /// in a trainer battle, this is the trainer class + OPP_ID_OFFSET
    pub fn cur_opponent(&self) -> (res: u8)
        ensures
            res == self.wram()[0x1058],
    {
        self.data[0x1058]
    }

    pub fn set_cur_opponent(&mut self, value: u8)
        ensures
            final(self).wram() == old(self).wram().update(0x1058, value),
            final(self).hram() == old(self).hram(),
    {
        self.data[0x1058] = value;
    }

    pub fn set_link_timeout_counter(&mut self, value: u8)
        ensures
            final(self).wram() == old(self).wram().update(0x0c47, value),
            final(self).hram() == old(self).hram(),
    {
        self.data[0x0c47] = value;
    }

    pub fn check_for_180_degree_turn(&self) -> (res: u8)
        ensures
            res == self.wram()[0x0c4b],
    {
        self.data[0x0c4b]
    }

    pub fn set_check_for_180_degree_turn(&mut self, value: u8)
        ensures
            final(self).wram() == old(self).wram().update(0x0c4b, value),
            final(self).hram() == old(self).hram(),
    {
        self.data[0x0c4b] = value;
    }

    pub fn is_player_engaged_by_trainer(&self) -> (res: bool)
        ensures
            res == has_bit(self.wram()[0x0d60], 0),
    {
        self.data[0x0d60] & (1u8 << 0u8) != 0
    }

    pub fn boulder_dust_animation_pending(&self) -> (res: bool)
        ensures
            res == has_bit(self.wram()[0x0d60], 1),
    {
        self.data[0x0d60] & (1u8 << 1u8) != 0
    }

    pub fn cd60_unknown_bit_2(&self) -> (res: bool)
        ensures
            res == has_bit(self.wram()[0x0d60], 2),
    {
        self.data[0x0d60] & (1u8 << 2u8) != 0
    }

    pub fn set_cd60_unknown_bit_2(&mut self, value: bool)
        ensures
            final(self).wram() == old(self).wram().update(0x0d60, with_bit(old(self).wram()[0x0d60], 2, value)),
            final(self).hram() == old(self).hram(),
    {
        let current = self.data[0x0d60];
        self.data[0x0d60] = if value {
            current | (1u8 << 2u8)
        } else {
            current & !(1u8 << 2u8)
        };
    }

    /// This has overlapping related uses. \
    /// When the player tries to use an item or use certain field moves, 0 is stored
    /// when the attempt fails and 1 is stored when the attempt succeeds. \
    /// In addition, some items store 2 for certain types of failures, but this
    /// cannot happen in battle. \
    /// In battle, a non-zero value indicates the player has taken their turn using
    /// something other than a move (e.g. using an item or switching pokemon). \
    /// So, when an item is successfully used in battle, this value becomes non-zero
    /// and the player is not allowed to make a move and the two uses are compatible.
    pub fn set_action_result_or_took_battle_turn(&mut self, value: u8)
        ensures
            final(self).wram() == old(self).wram().update(0x0d6a, value),
            final(self).hram() == old(self).hram(),
    {
        self.data[0x0d6a] = value;
    }

    /// Used in CheckForTilePairCollisions2 to store the tile the player is on
    pub fn tile_player_standing_on(&self) -> (res: u8)
        ensures
            res == self.wram()[0x0f0e],
    {
        self.data[0x0f0e]
    }

    pub fn set_tile_player_standing_on(&mut self, value: u8)
        ensures
            final(self).wram() == old(self).wram().update(0x0f0e, value),
            final(self).hram() == old(self).hram(),
    {
        self.data[0x0f0e] = value;
    }

    /// Offset of the current top menu item from the beginning of the list.
    ///
    /// Keeps track of what section of the list is on screen.
    pub fn set_list_scroll_offset(&mut self, value: u8)
        ensures
            final(self).wram() == old(self).wram().update(0x0c36, value),
            final(self).hram() == old(self).hram(),
    {
        self.data[0x0c36] = value;
    }

    /// Which NPC movement script pointer is being used.
    ///
    /// 0 if an NPC movement script is not running.
    pub fn npc_movement_script_pointer_table_num(&self) -> (res: u8)
        ensures
            res == self.wram()[0x0c57],
    {
        self.data[0x0c57]
    }

    /// Flags that indicate which party members should be be given exp when GainExperience is called.
    pub fn set_party_gain_exp_flags(&mut self, value: u8)
        ensures
            final(self).wram() == old(self).wram().update(0x1057, value),
            final(self).hram() == old(self).hram(),
    {
        self.data[0x1057] = value;
    }

    /// Index in party of currently battling mon.
    pub fn set_player_mon_number(&mut self, value: u8)
        ensures
            final(self).wram() == old(self).wram().update(0x0c2f, value),
            final(self).hram() == old(self).hram(),
    {
        self.data[0x0c2f] = value;
    }

    /// True when an item or move that allows escape from battle was used.
    pub fn set_escaped_from_battle(&mut self, value: bool)
        ensures
            final(self).wram() == old(self).wram().update(0x1077, if value { 1u8 } else { 0u8 }),
            final(self).hram() == old(self).hram(),
    {
        self.data[0x1077] = if value { 1 } else { 0 };
    }

    pub fn predef_parent_bank(&self) -> (res: u8)
        ensures
            res == self.wram()[0x0f12],
    {
        self.data[0x0f12]
    }

    pub fn set_player_hp_bar_color(&mut self, value: u8)
        ensures
            final(self).wram() == old(self).wram().update(0x0f1c, value),
            final(self).hram() == old(self).hram(),
    {
        self.data[0x0f1c] = value;
    }

    pub fn set_enemy_hp_bar_color(&mut self, value: u8)
        ensures
            final(self).wram() == old(self).wram().update(0x0f1d, value),
            final(self).hram() == old(self).hram(),
    {
        self.data[0x0f1d] = value;
    }

    /// 1 flag for each party member indicating whether it can evolve. \
    /// The purpose of these flags is to track which mons levelled up during the
    /// current battle at the end of the battle when evolution occurs. \
    /// Other methods of evolution simply set it by calling TryEvolvingMon.
    pub fn set_can_evolve_flags(&mut self, value: u8)
        ensures
            final(self).wram() == old(self).wram().update(0x0cd3, value),
            final(self).hram() == old(self).hram(),
    {
        self.data[0x0cd3] = value;
    }

    pub fn set_force_evolution(&mut self, value: bool)
        ensures
            final(self).wram() == old(self).wram().update(0x0cd4, if value { 1u8 } else { 0u8 }),
            final(self).hram() == old(self).hram(),
    {
        self.data[0x0cd4] = if value { 1 } else { 0 };
    }

    /// The desired fade counter reload value is stored here prior to calling
    /// PlaySound in order to cause the current music to fade out before the new
    /// music begins playing. Storing 0 causes no fade out to occur and the new music
    /// to begin immediately.
    ///
    /// This variable has another use related to fade-out, as well. PlaySound stores
    /// the sound ID of the music that should be played after the fade-out is finished
    /// in this variable. FadeOutAudio checks if it's non-zero every V-Blank and
    /// fades out the current audio if it is. Once it has finished fading out the
    /// audio, it zeroes this variable and starts playing the sound ID stored in it.
    pub fn audio_fade_out_control(&self) -> (res: u8)
        ensures
            res == self.wram()[0x0fc6],
    {
        self.data[0x0fc6]
    }

    pub fn set_audio_fade_out_control(&mut self, value: u8)
        ensures
            final(self).wram() == old(self).wram().update(0x0fc6, value),
            final(self).hram() == old(self).hram(),
    {
        self.data[0x0fc6] = value;
    }

    /// $00 = causes sprites to be hidden and the value to change to $ff \
    /// $01 = enabled \
    /// $ff = disabled \
    /// other values aren't used
    pub fn update_sprites_enabled(&self) -> (res: u8)
        ensures
            res == self.wram()[0x0fca],
    {
        self.data[0x0fca]
    }

    pub fn set_update_sprites_enabled(&mut self, value: u8)
        ensures
            final(self).wram() == old(self).wram().update(0x0fca, value),
            final(self).hram() == old(self).hram(),
    {
        self.data[0x0fca] = value;
    }

    /// Low health alarm counter/enable. \
    /// high bit = enable, others = timer to cycle frequencies
    pub fn set_low_health_alarm(&mut self, value: u8)
        ensures
            final(self).wram() == old(self).wram().update(0x1082, value),
            final(self).hram() == old(self).hram(),
    {
        self.data[0x1082] = value;
    }

    /// Counts downward each frame.
    ///
    /// When it hits 0, bit 5 (ignore input bit) of wd730 is reset.
    pub fn set_ignore_input_counter(&mut self, value: u8)
        ensures
            final(self).wram() == old(self).wram().update(0x1139, value),
            final(self).hram() == old(self).hram(),
    {
        self.data[0x1139] = value;
    }

    pub fn set_map_music_sound_id(&mut self, value: u8)
        ensures
            final(self).wram() == old(self).wram().update(0x135a, value),
            final(self).hram() == old(self).hram(),
    {
        self.data[0x135a] = value;
    }

    pub fn set_map_music_rom_bank(&mut self, value: u8)
        ensures
            final(self).wram() == old(self).wram().update(0x135b, value),
            final(self).hram() == old(self).hram(),
    {
        self.data[0x135b] = value;
    }

    /// Pointer to the upper left corner of the current view in the tile block map
    pub fn current_tile_block_map_view_pointer(&self) -> (res: u16)
        ensures
            res == le16(self.wram()[0x135e], self.wram()[0x135f]),
    {
        u16_from_le(self.data[0x135e], self.data[0x135f])
    }

    pub fn set_current_tile_block_map_view_pointer(&mut self, value: u16)
        ensures
            final(self).wram() == old(self).wram().update(0x135e, lo8(value as int)).update(0x135f, hi8(value as int)),
            final(self).hram() == old(self).hram(),
    {
        self.data[0x135e] = low_byte(value);
        self.data[0x135f] = high_byte(value);
    }

    /// Player's Y position on the current map
    pub fn y_coord(&self) -> (res: u8)
        ensures
            res == self.wram()[0x1360],
    {
        self.data[0x1360]
    }

    pub fn set_y_coord(&mut self, value: u8)
        ensures
            final(self).wram() == old(self).wram().update(0x1360, value),
            final(self).hram() == old(self).hram(),
    {
        self.data[0x1360] = value;
    }

    /// Player's X position on the current map
    pub fn x_coord(&self) -> (res: u8)
        ensures
            res == self.wram()[0x1361],
    {
        self.data[0x1361]
    }

    pub fn set_x_coord(&mut self, value: u8)
        ensures
            final(self).wram() == old(self).wram().update(0x1361, value),
            final(self).hram() == old(self).hram(),
    {
        self.data[0x1361] = value;
    }

    /// Player's Y position (by block)
    pub fn y_block_coord(&self) -> (res: u8)
        ensures
            res == self.wram()[0x1362],
    {
        self.data[0x1362]
    }

    pub fn set_y_block_coord(&mut self, value: u8)
        ensures
            final(self).wram() == old(self).wram().update(0x1362, value),
            final(self).hram() == old(self).hram(),
    {
        self.data[0x1362] = value;
    }

    /// Player's X position (by block)
    pub fn x_block_coord(&self) -> (res: u8)
        ensures
            res == self.wram()[0x1363],
    {
        self.data[0x1363]
    }

    pub fn set_x_block_coord(&mut self, value: u8)
        ensures
            final(self).wram() == old(self).wram().update(0x1363, value),
            final(self).hram() == old(self).hram(),
    {
        self.data[0x1363] = value;
    }

    pub fn last_map(&self) -> (res: u8)
        ensures
            res == self.wram()[0x1364],
    {
        self.data[0x1364]
    }

    pub fn set_last_map(&mut self, value: u8)
        ensures
            final(self).wram() == old(self).wram().update(0x1364, value),
            final(self).hram() == old(self).hram(),
    {
        self.data[0x1364] = value;
    }

    pub fn cur_map_tileset(&self) -> (res: u8)
        ensures
            res == self.wram()[0x1366],
    {
        self.data[0x1366]
    }

    pub fn set_cur_map_tileset(&mut self, value: u8)
        ensures
            final(self).wram() == old(self).wram().update(0x1366, value),
            final(self).hram() == old(self).hram(),
    {
        self.data[0x1366] = value;
    }

    pub fn cur_map_height(&self) -> (res: u8)
        ensures
            res == self.wram()[0x1367],
    {
        self.data[0x1367]
    }

    pub fn cur_map_width(&self) -> (res: u8)
        ensures
            res == self.wram()[0x1368],
    {
        self.data[0x1368]
    }

    pub fn cur_map_data_ptr(&self) -> (res: u16)
        ensures
            res == le16(self.wram()[0x1369], self.wram()[0x136a]),
    {
        u16_from_le(self.data[0x1369], self.data[0x136a])
    }

    /// Sprite set ID for the current map
    pub fn set_sprite_set_id(&mut self, value: u8)
        ensures
            final(self).wram() == old(self).wram().update(0x13a7, value),
            final(self).hram() == old(self).hram(),
    {
        self.data[0x13a7] = value;
    }

    /// The tile shown outside the boundaries of the map
    pub fn map_background_tile(&self) -> (res: u8)
        ensures
            res == self.wram()[0x13ac],
    {
        self.data[0x13ac]
    }

    pub fn set_map_background_tile(&mut self, value: u8)
        ensures
            final(self).wram() == old(self).wram().update(0x13ac, value),
            final(self).hram() == old(self).hram(),
    {
        self.data[0x13ac] = value;
    }

    /// Number of warps in current map (up to 32)
    pub fn number_of_warps(&self) -> (res: u8)
        ensures
            res == self.wram()[0x13ad],
    {
        self.data[0x13ad]
    }

    pub fn set_number_of_warps(&mut self, value: u8)
        ensures
            final(self).wram() == old(self).wram().update(0x13ad, value),
            final(self).hram() == old(self).hram(),
    {
        self.data[0x13ad] = value;
    }

    /// If $ff, the player's coordinates are not updated when entering the map
    pub fn destination_warp_id(&self) -> (res: u8)
        ensures
            res == self.wram()[0x142e],
    {
        self.data[0x142e]
    }

    pub fn set_destination_warp_id(&mut self, value: u8)
        ensures
            final(self).wram() == old(self).wram().update(0x142e, value),
            final(self).hram() == old(self).hram(),
    {
        self.data[0x142e] = value;
    }

    pub fn set_pikachu_overworld_state_flag_4(&mut self, value: bool)
        ensures
            final(self).wram() == old(self).wram().update(0x142f, with_bit(old(self).wram()[0x142f], 4, value)),
            final(self).hram() == old(self).hram(),
    {
        let current = self.data[0x142f];
        self.data[0x142f] = if value {
            current | (1u8 << 4u8)
        } else {
            current & !(1u8 << 4u8)
        };
    }

    pub fn set_pikachu_overworld_state_flag_5(&mut self, value: bool)
        ensures
            final(self).wram() == old(self).wram().update(0x142f, with_bit(old(self).wram()[0x142f], 5, value)),
            final(self).hram() == old(self).hram(),
    {
        let current = self.data[0x142f];
        self.data[0x142f] = if value {
            current | (1u8 << 5u8)
        } else {
            current & !(1u8 << 5u8)
        };
    }

    pub fn set_pikachu_spawn_state(&mut self, value: u8)
        ensures
            final(self).wram() == old(self).wram().update(0x1430, value),
            final(self).hram() == old(self).hram(),
    {
        self.data[0x1430] = value;
    }

    /// Number of signs in the current map (up to 16)
    pub fn num_signs(&self) -> (res: u8)
        ensures
            res == self.wram()[0x14af],
    {
        self.data[0x14af]
    }

    pub fn set_num_signs(&mut self, value: u8)
        ensures
            final(self).wram() == old(self).wram().update(0x14af, value),
            final(self).hram() == old(self).hram(),
    {
        self.data[0x14af] = value;
    }

    /// Number of sprites on the current map (up to 16)
    pub fn set_num_sprites(&mut self, value: u8)
        ensures
            final(self).wram() == old(self).wram().update(0x14e0, value),
            final(self).hram() == old(self).hram(),
    {
        self.data[0x14e0] = value;
    }

    /// Map height in 2x2 meta-tiles
    pub fn current_map_height_2(&self) -> (res: u8)
        ensures
            res == self.wram()[0x1523],
    {
        self.data[0x1523]
    }

    pub fn set_current_map_height_2(&mut self, value: u8)
        ensures
            final(self).wram() == old(self).wram().update(0x1523, value),
            final(self).hram() == old(self).hram(),
    {
        self.data[0x1523] = value;
    }

    /// Map width in 2x2 meta-tiles
    pub fn current_map_width_2(&self) -> (res: u8)
        ensures
            res == self.wram()[0x1524],
    {
        self.data[0x1524]
    }

    pub fn set_current_map_width_2(&mut self, value: u8)
        ensures
            final(self).wram() == old(self).wram().update(0x1524, value),
            final(self).hram() == old(self).hram(),
    {
        self.data[0x1524] = value;
    }

    /// The address of the upper left corner of the visible portion of the BG tile map in VRAM
    pub fn map_view_vram_pointer(&self) -> (res: u16)
        ensures
            res == le16(self.wram()[0x1525], self.wram()[0x1526]),
    {
        u16_from_le(self.data[0x1525], self.data[0x1526])
    }

    pub fn set_map_view_vram_pointer(&mut self, value: u16)
        ensures
            final(self).wram() == old(self).wram().update(0x1525, lo8(value as int)).update(0x1526, hi8(value as int)),
            final(self).hram() == old(self).hram(),
    {
        self.data[0x1525] = low_byte(value);
        self.data[0x1526] = high_byte(value);
    }

    /// If the player is moving, the current direction. \
    /// If the player is not moving, zero.
    ///
    /// Map scripts write to this in order to change the player's facing direction.
    pub fn player_moving_direction(&self) -> (res: u8)
        ensures
            res == self.wram()[0x1527],
    {
        self.data[0x1527]
    }

    pub fn set_player_moving_direction(&mut self, value: u8)
        ensures
            final(self).wram() == old(self).wram().update(0x1527, value),
            final(self).hram() == old(self).hram(),
    {
        self.data[0x1527] = value;
    }

    /// The direction in which the player was moving before the player last stopped.
    pub fn player_last_stop_direction(&self) -> (res: u8)
        ensures
            res == self.wram()[0x1528],
    {
        self.data[0x1528]
    }

    pub fn set_player_last_stop_direction(&mut self, value: u8)
        ensures
            final(self).wram() == old(self).wram().update(0x1528, value),
            final(self).hram() == old(self).hram(),
    {
        self.data[0x1528] = value;
    }

    /// If the player is moving, the current direction \
    /// If the player is not moving, the last the direction in which the player moved
    pub fn player_direction(&self) -> (res: u8)
        ensures
            res == self.wram()[0x1529],
    {
        self.data[0x1529]
    }

    pub fn tileset_bank(&self) -> (res: u8)
        ensures
            res == self.wram()[0x152a],
    {
        self.data[0x152a]
    }

    pub fn tileset_blocks_pointer(&self) -> (res: u16)
        ensures
            res == le16(self.wram()[0x152b], self.wram()[0x152c]),
    {
        u16_from_le(self.data[0x152b], self.data[0x152c])
    }

    pub fn tileset_gfx_pointer(&self) -> (res: u16)
        ensures
            res == le16(self.wram()[0x152d], self.wram()[0x152e]),
    {
        u16_from_le(self.data[0x152d], self.data[0x152e])
    }

    /// 0 = walking \
    /// 1 = biking \
    /// 2 = surfing
    pub fn walk_bike_surf_state(&self) -> (res: u8)
        ensures
            res == self.wram()[0x16ff],
    {
        self.data[0x16ff]
    }

    pub fn set_walk_bike_surf_state(&mut self, value: u8)
        ensures
            final(self).wram() == old(self).wram().update(0x16ff, value),
            final(self).hram() == old(self).hram(),
    {
        self.data[0x16ff] = value;
    }

    pub fn set_using_strength_out_of_battle(&mut self, value: bool)
        ensures
            final(self).wram() == old(self).wram().update(0x1727, with_bit(old(self).wram()[0x1727], 0, value)),
            final(self).hram() == old(self).hram(),
    {
        let current = self.data[0x1727];
        self.data[0x1727] = if value {
            current | (1u8 << 0u8)
        } else {
            current & !(1u8 << 0u8)
        };
    }

    /// If not set, the 3 minimum steps between random battles have passed
    pub fn block_random_battles(&self) -> (res: bool)
        ensures
            res == has_bit(self.wram()[0x172b], 0),
    {
        self.data[0x172b] & (1u8 << 0u8) != 0
    }

    pub fn set_block_random_battles(&mut self, value: bool)
        ensures
            final(self).wram() == old(self).wram().update(0x172b, with_bit(old(self).wram()[0x172b], 0, value)),
            final(self).hram() == old(self).hram(),
    {
        let current = self.data[0x172b];
        self.data[0x172b] = if value {
            current | (1u8 << 0u8)
        } else {
            current & !(1u8 << 0u8)
        };
    }

    /// Do scripted warp (used to warp back to Lavender Town from the top of the pokemon tower)
    pub fn do_scripted_warp(&self) -> (res: bool)
        ensures
            res == has_bit(self.wram()[0x172c], 3),
    {
        self.data[0x172c] & (1u8 << 3u8) != 0
    }

    pub fn set_do_scripted_warp(&mut self, value: bool)
        ensures
            final(self).wram() == old(self).wram().update(0x172c, with_bit(old(self).wram()[0x172c], 3, value)),
            final(self).hram() == old(self).hram(),
    {
        let current = self.data[0x172c];
        self.data[0x172c] = if value {
            current | (1u8 << 3u8)
        } else {
            current & !(1u8 << 3u8)
        };
    }

    pub fn d730_unknown_bit_2(&self) -> (res: bool)
        ensures
            res == has_bit(self.wram()[0x172f], 2),
    {
        self.data[0x172f] & (1u8 << 2u8) != 0
    }

    /// Set if joypad states are being simulated in the overworld or an NPC's movement is being scripted
    pub fn joypad_is_simulated(&self) -> (res: bool)
        ensures
            res == has_bit(self.wram()[0x172f], 7),
    {
        self.data[0x172f] & (1u8 << 7u8) != 0
    }

    pub fn safari_zone_game_over(&self) -> (res: u8)
        ensures
            res == self.wram()[0x1a45],
    {
        self.data[0x1a45]
    }

    pub fn warp_destination_map(&self) -> (res: u8)
        ensures
            res == self.hram()[0x0b],
    {
        self.high_ram[0x0b]
    }

    pub fn set_warp_destination_map(&mut self, value: u8)
        ensures
            final(self).hram() == old(self).hram().update(0x0b, value),
            final(self).wram() == old(self).wram(),
    {
        self.high_ram[0x0b] = value;
    }

    pub fn previous_tileset(&self) -> (res: u8)
        ensures
            res == self.hram()[0x0b],
    {
        self.high_ram[0x0b]
    }

    pub fn set_previous_tileset(&mut self, value: u8)
        ensures
            final(self).hram() == old(self).hram().update(0x0b, value),
            final(self).wram() == old(self).wram(),
    {
        self.high_ram[0x0b] = value;
    }

    pub fn loaded_rom_bank(&self) -> (res: u8)
        ensures
            res == self.hram()[0x38],
    {
        self.high_ram[0x38]
    }

    pub fn set_loaded_rom_bank(&mut self, value: u8)
        ensures
            final(self).hram() == old(self).hram().update(0x38, value),
            final(self).wram() == old(self).wram(),
    {
        self.high_ram[0x38] = value;
    }

    pub fn set_redraw_row_or_column_mode(&mut self, value: u8)
        ensures
            final(self).hram() == old(self).hram().update(0x50, value),
            final(self).wram() == old(self).wram(),
    {
        self.high_ram[0x50] = value;
    }

    pub fn set_redraw_row_or_column_dest(&mut self, value: u16)
        ensures
            final(self).hram() == old(self).hram().update(0x51, lo8(value as int)).update(0x52, hi8(value as int)),
            final(self).wram() == old(self).wram(),
    {
        self.high_ram[0x51] = low_byte(value);
        self.high_ram[0x52] = high_byte(value);
    }

    /// Controls which tiles are animated.
    ///
    /// 0 = no animations (breaks Surf) \
    /// 1 = water tile $14 is animated \
    /// 2 = water tile $14 and flower tile $03 are animated
    pub fn set_tile_animations(&mut self, value: u8)
        ensures
            final(self).hram() == old(self).hram().update(0x57, value),
            final(self).wram() == old(self).wram(),
    {
        self.high_ram[0x57] = value;
    }

    pub fn set_moving_bg_tiles_counter1(&mut self, value: u8)
        ensures
            final(self).hram() == old(self).hram().update(0x58, value),
            final(self).wram() == old(self).wram(),
    {
        self.high_ram[0x58] = value;
    }
}

} // verus!
