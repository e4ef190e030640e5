use vstd::prelude::*;

use super::pc_box::BoxedPokemon;
use super::poke_string::{
    is_storable_name, lemma_read_name_field, lemma_text_prefix_take, name_field, text_prefix, PokeString,
};
use super::species::{lemma_species_from_index_of_index, species_dex_number, species_from_index, species_index, species_name, PokemonSpecies};
use super::{dv_attack, dv_defense, dv_hp, dv_special, dv_speed, DeterminantValues};
use crate::bytes::{be16, copy_into, hi8, high_byte, lo8, low_byte, overwrite, u16_from_be};

verus! {

/// How many Pokémon a party holds at most.
pub const PARTY_LENGTH: usize = 6;

/// How many bytes the party data takes in the save file.
pub const PARTY_SIZE: usize = 404;

/// Where the base stats table starts in the game's ROM.
pub const BASE_STATS: usize = 0x0383de;

/// How many bytes each species takes in the base stats table.
pub const BASE_DATA_SIZE: usize = 28;

/// The base stats of a species and its growth rate, as the game's base stats
/// table holds them.
#[derive(Debug, Clone, Copy, PartialEq, Eq, Structural)]
pub struct BaseStats {
    pub hp: u8,
    pub attack: u8,
    pub defense: u8,
    pub speed: u8,
    pub special: u8,
    pub growth_rate: u8,
}

/// Where a species' record starts in the base stats table.
pub open spec fn base_stats_pos(species: PokemonSpecies) -> int {
    BASE_STATS + BASE_DATA_SIZE * (species_dex_number(species) - 1)
}

/// A species' base stats as the game's ROM `rom` holds them.
pub open spec fn rom_base_stats(rom: Seq<u8>, species: PokemonSpecies) -> BaseStats {
    let start = base_stats_pos(species);
    BaseStats {
        hp: rom[start + 1],
        attack: rom[start + 2],
        defense: rom[start + 3],
        speed: rom[start + 4],
        special: rom[start + 5],
        growth_rate: rom[start + 19],
    }
}

impl BaseStats {
    /// Reads a species' base stats from the game's ROM.
    pub fn from_rom(rom: &[u8], species: PokemonSpecies) -> (res: BaseStats)
        requires
            rom@.len() >= BASE_STATS + BASE_DATA_SIZE * 151,
        ensures
            res == rom_base_stats(rom@, species),
    {
        let start = BASE_STATS + (BASE_DATA_SIZE * (species.pokedex_number() as usize - 1));
        BaseStats {
            hp: rom[start + 1],
            attack: rom[start + 2],
            defense: rom[start + 3],
            speed: rom[start + 4],
            special: rom[start + 5],
            growth_rate: rom[start + 19],
        }
    }
}

/// A growth rate for which the level is computed: medium fast (0), medium
/// slow (3), fast (4) or slow (5).
pub open spec fn is_supported_growth_rate(rate: u8) -> bool {
    rate == 0 || rate == 3 || rate == 4 || rate == 5
}

/// The experience needed to reach `level` at a growth rate.
pub open spec fn exp_for_level(rate: u8, level: int) -> int {
    if rate == 0 {
        level * level * level
    } else if rate == 3 {
        (6 * (level * level * level)) / 5 + 100 * level - 15 * (level * level) - 140
    } else if rate == 4 {
        (4 * (level * level * level)) / 5
    } else {
        (5 * (level * level * level)) / 4
    }
}

/// `level` is the level that `exp` experience points give: at least 1, at
/// most 100, every level from 2 up to it needs no more than `exp`, and the
/// next one needs more.
pub open spec fn is_level_for_exp(rate: u8, exp: int, level: int) -> bool {
    &&& 1 <= level <= 100
    &&& forall|m: int| 2 <= m <= level ==> #[trigger] exp_for_level(rate, m) <= exp
    &&& level < 100 ==> exp_for_level(rate, level + 1) > exp
}

/// The smallest number whose square is at least `n`: the ceiling of the
/// square root of `n`.
pub open spec fn is_ceil_sqrt(n: int, r: int) -> bool {
    &&& r >= 0
    &&& r * r >= n
    &&& r == 0 || (r - 1) * (r - 1) < n
}

/// The ceiling of the square root of `n`.
pub open spec fn ceil_sqrt_of(n: int) -> int {
    choose|r: int| is_ceil_sqrt(n, r)
}

proof fn lemma_ceil_sqrt_unique(n: int, r: int)
    requires
        is_ceil_sqrt(n, r),
    ensures
        ceil_sqrt_of(n) == r,
{
    let c = ceil_sqrt_of(n);
    assert(is_ceil_sqrt(n, c));
    if c < r {
        assert((r - 1) * (r - 1) >= c * c) by (nonlinear_arith)
            requires
                0 <= c <= r - 1,
        ;
    } else if r < c {
        assert((c - 1) * (c - 1) >= r * r) by (nonlinear_arith)
            requires
                0 <= r <= c - 1,
        ;
    }
}

/// A stat of a party Pokémon: `((base + dv) * 2 + ceil(sqrt(stat_exp)) / 4) * level / 100`.
pub open spec fn stat_core(base: int, dv: int, sqrt_exp: int, level: int) -> int {
    ((base + dv) * 2 + sqrt_exp / 4) * level / 100
}

fn exp_required(rate: u8, level: u32) -> (res: i64)
    requires
        2 <= level <= 100,
    ensures
        res == exp_for_level(rate, level as int),
{
    let l = level as i64;
    assert(0 <= l * l <= 10000) by (nonlinear_arith)
        requires
            2 <= l <= 100,
    ;
    assert(0 <= l * l * l <= 1000000) by (nonlinear_arith)
        requires
            2 <= l <= 100,
            0 <= l * l <= 10000,
    ;
    let sq = l * l;
    let cube = sq * l;
    if rate == 0 {
        cube
    } else if rate == 3 {
        (6 * cube) / 5 + 100 * l - 15 * sq - 140
    } else if rate == 4 {
        (4 * cube) / 5
    } else {
        (5 * cube) / 4
    }
}

/// The level that `exp` experience points give at a growth rate.
fn level_for_exp(rate: u8, exp: u32) -> (res: u8)
    ensures
        is_level_for_exp(rate, exp as int, res as int),
{
    let mut level: u32 = 1;
    loop
        invariant_except_break
            1 <= level < 100,
            forall|m: int| 2 <= m <= level ==> #[trigger] exp_for_level(rate, m) <= exp,
        ensures
            is_level_for_exp(rate, exp as int, level as int),
        decreases 100 - level,
    {
        level = level + 1;
        let req = exp_required(rate, level);
        if req > exp as i64 {
            level = level - 1;
            break ;
        }
        if level == 100 {
            break ;
        }
    }
    level as u8
}

/// The ceiling of the square root of a 16-bit number.
fn ceil_sqrt(n: u16) -> (res: u16)
    ensures
        is_ceil_sqrt(n as int, res as int),
        res <= 256,
{
    let mut r: u32 = 0;
    while r * r < n as u32
        invariant
            r <= 256,
            r * r <= 65536,
            r == 0 || (r - 1) * (r - 1) < n,
        decreases 256 - r,
    {
        assert(r < 256) by (nonlinear_arith)
            requires
                r * r < n,
                n < 65536,
                r <= 256,
        ;
        assert((r + 1) * (r + 1) <= 65536) by (nonlinear_arith)
            requires
                r < 256,
        ;
        r = r + 1;
    }
    r as u16
}

fn stat(base: u8, dv: u8, stat_exp: u16, level: u8) -> (res: u16)
    requires
        dv < 16,
        level <= 100,
    ensures
        res == stat_core(base as int, dv as int, ceil_sqrt_of(stat_exp as int), level as int),
        res <= 604,
{
    let s = ceil_sqrt(stat_exp);
    proof {
        lemma_ceil_sqrt_unique(stat_exp as int, s as int);
    }
    let x = ((base as u16) + (dv as u16)) * 2 + s / 4;
    assert(x * (level as u16) <= 604 * 100) by (nonlinear_arith)
        requires
            x <= 604,
            level <= 100,
    ;
    assert((x * (level as u16)) / 100 <= 604) by (nonlinear_arith)
        requires
            x <= 604,
            level <= 100,
    ;
    (x * (level as u16)) / 100
}


/// A Pokémon as the party stores it: a boxed Pokémon with its level and
/// computed stats.
#[derive(Debug, PartialEq, Eq, PartialOrd, Ord, Clone)]
pub struct PartyPokemon {
    pub species: PokemonSpecies,
    pub hp: u16,
    pub box_level: u8,
    pub status: u8,
    pub type1: u8,
    pub type2: u8,
    pub catch_rate: u8,
    pub moves: [u8; 4],
    pub ot_id: u16,
    pub exp: u32,
    pub hp_exp: u16,
    pub attack_exp: u16,
    pub defense_exp: u16,
    pub speed_exp: u16,
    pub special_exp: u16,
    pub dvs: DeterminantValues,
    pub pp: [u8; 4],
    pub level: u8,
    pub max_hp: u16,
    pub attack: u16,
    pub defense: u16,
    pub speed: u16,
    pub special: u16,
    pub ot_name: PokeString,
    pub nickname: Option<PokeString>,
}

/// `q` carries over every field that a boxed Pokémon `p` has.
pub open spec fn party_keeps_boxed(p: BoxedPokemon, q: PartyPokemon) -> bool {
    &&& q.species == p.species
    &&& q.hp == p.hp
    &&& q.box_level == p.level
    &&& q.status == p.status
    &&& q.type1 == p.type1
    &&& q.type2 == p.type2
    &&& q.catch_rate == p.catch_rate
    &&& q.moves == p.moves
    &&& q.ot_id == p.ot_id
    &&& q.exp == p.exp
    &&& q.hp_exp == p.hp_exp
    &&& q.attack_exp == p.attack_exp
    &&& q.defense_exp == p.defense_exp
    &&& q.speed_exp == p.speed_exp
    &&& q.special_exp == p.special_exp
    &&& q.dvs == p.dvs
    &&& q.pp == p.pp
    &&& q.ot_name == p.ot_name
    &&& q.nickname == p.nickname
}

/// `res` is the boxed Pokémon `pokemon` as it enters the party, with the
/// base stats `base` of its species: the level follows from its experience
/// and growth rate, and each stat from the base stats, its individual value,
/// the ceiling of the square root of its stat experience and the level.
pub open spec fn entered_party(pokemon: BoxedPokemon, base: BaseStats, res: PartyPokemon) -> bool {
    &&& party_keeps_boxed(pokemon, res)
    &&& is_level_for_exp(base.growth_rate, pokemon.exp as int, res.level as int)
    &&& res.max_hp == stat_core(base.hp as int, dv_hp(pokemon.dvs), ceil_sqrt_of(pokemon.hp_exp as int), res.level as int) + res.level + 10
    &&& res.attack == stat_core(base.attack as int, dv_attack(pokemon.dvs), ceil_sqrt_of(pokemon.attack_exp as int), res.level as int) + 5
    &&& res.defense == stat_core(base.defense as int, dv_defense(pokemon.dvs), ceil_sqrt_of(pokemon.defense_exp as int), res.level as int) + 5
    &&& res.speed == stat_core(base.speed as int, dv_speed(pokemon.dvs), ceil_sqrt_of(pokemon.speed_exp as int), res.level as int) + 5
    &&& res.special == stat_core(base.special as int, dv_special(pokemon.dvs), ceil_sqrt_of(pokemon.special_exp as int), res.level as int) + 5
}

/// A boxed Pokémon as it enters the party, with its species' base stats
/// read from the game's ROM `rom`.
pub fn party_from_boxed(rom: &[u8], pokemon: BoxedPokemon) -> (res: PartyPokemon)
    requires
        rom@.len() >= BASE_STATS + BASE_DATA_SIZE * 151,
        is_supported_growth_rate(rom_base_stats(rom@, pokemon.species).growth_rate),
    ensures
        entered_party(pokemon, rom_base_stats(rom@, pokemon.species), res),
{
    let base = BaseStats::from_rom(rom, pokemon.species);
    PartyPokemon::from_boxed(pokemon, base)
}

impl PartyPokemon {
    /// A boxed Pokémon as it enters the party: the level follows from its
    /// experience and growth rate, and each stat from the base stats, its
    /// individual value, the ceiling of the square root of its stat
    /// experience and the level.
    pub fn from_boxed(pokemon: BoxedPokemon, base: BaseStats) -> (res: PartyPokemon)
        requires
            is_supported_growth_rate(base.growth_rate),
        ensures
            entered_party(pokemon, base, res),
    {
        let level = level_for_exp(base.growth_rate, pokemon.exp);
        let max_hp = stat(base.hp, pokemon.dvs.hp(), pokemon.hp_exp, level) + level as u16 + 10;
        let attack = stat(base.attack, pokemon.dvs.attack(), pokemon.attack_exp, level) + 5;
        let defense = stat(base.defense, pokemon.dvs.defense(), pokemon.defense_exp, level) + 5;
        let speed = stat(base.speed, pokemon.dvs.speed(), pokemon.speed_exp, level) + 5;
        let special = stat(base.special, pokemon.dvs.special(), pokemon.special_exp, level) + 5;
        PartyPokemon {
            species: pokemon.species,
            hp: pokemon.hp,
            box_level: pokemon.level,
            status: pokemon.status,
            type1: pokemon.type1,
            type2: pokemon.type2,
            catch_rate: pokemon.catch_rate,
            moves: pokemon.moves,
            ot_id: pokemon.ot_id,
            exp: pokemon.exp,
            hp_exp: pokemon.hp_exp,
            attack_exp: pokemon.attack_exp,
            defense_exp: pokemon.defense_exp,
            speed_exp: pokemon.speed_exp,
            special_exp: pokemon.special_exp,
            dvs: pokemon.dvs,
            pp: pokemon.pp,
            level,
            max_hp,
            attack,
            defense,
            speed,
            special,
            ot_name: pokemon.ot_name,
            nickname: pokemon.nickname,
        }
    }
}

/// The boxed form of a party Pokémon: the party-only fields dropped.
pub open spec fn boxed_from_party(p: PartyPokemon) -> BoxedPokemon {
    BoxedPokemon {
        species: p.species,
        hp: p.hp,
        level: p.level,
        status: p.status,
        type1: p.type1,
        type2: p.type2,
        catch_rate: p.catch_rate,
        moves: p.moves,
        ot_id: p.ot_id,
        exp: p.exp,
        hp_exp: p.hp_exp,
        attack_exp: p.attack_exp,
        defense_exp: p.defense_exp,
        speed_exp: p.speed_exp,
        special_exp: p.special_exp,
        dvs: p.dvs,
        pp: p.pp,
        ot_name: p.ot_name,
        nickname: p.nickname,
    }
}

impl vstd::std_specs::convert::FromSpecImpl<PartyPokemon> for BoxedPokemon {
    open spec fn obeys_from_spec() -> bool {
        true
    }

    open spec fn from_spec(v: PartyPokemon) -> BoxedPokemon {
        boxed_from_party(v)
    }
}

impl From<PartyPokemon> for BoxedPokemon {
    fn from(pokemon: PartyPokemon) -> (res: BoxedPokemon) {
        BoxedPokemon {
            species: pokemon.species,
            hp: pokemon.hp,
            level: pokemon.level,
            status: pokemon.status,
            type1: pokemon.type1,
            type2: pokemon.type2,
            catch_rate: pokemon.catch_rate,
            moves: pokemon.moves,
            ot_id: pokemon.ot_id,
            exp: pokemon.exp,
            hp_exp: pokemon.hp_exp,
            attack_exp: pokemon.attack_exp,
            defense_exp: pokemon.defense_exp,
            speed_exp: pokemon.speed_exp,
            special_exp: pokemon.special_exp,
            dvs: pokemon.dvs,
            pp: pokemon.pp,
            ot_name: pokemon.ot_name,
            nickname: pokemon.nickname,
        }
    }
}


/// Where the entry of slot `i` starts in the party data.
pub open spec fn party_entry_pos(i: int) -> int {
    8 + 44 * i
}

/// Where the original trainer's name of slot `i` starts in the party data.
pub open spec fn party_ot_pos(i: int) -> int {
    272 + 11 * i
}

/// Where the nickname of slot `i` starts in the party data.
pub open spec fn party_nick_pos(i: int) -> int {
    338 + 11 * i
}

/// One past the last byte that slot `i` of the party data uses.
pub open spec fn party_slot_end(i: int) -> int {
    if party_entry_pos(i) + 44 > party_nick_pos(i) + 11 {
        party_entry_pos(i) + 44
    } else {
        party_nick_pos(i) + 11
    }
}

/// The name written into the nickname field: the nickname, or the species'
/// name when there is none.
pub open spec fn party_nickname_text(p: PartyPokemon) -> Seq<u8> {
    match p.nickname {
        Some(n) => n@,
        None => species_name(p.species),
    }
}

/// The 44 bytes of a party entry.
pub open spec fn party_entry_bytes(p: PartyPokemon) -> Seq<u8> {
    seq![
        species_index(p.species),
        hi8(p.hp as int),
        lo8(p.hp as int),
        p.box_level,
        p.status,
        p.type1,
        p.type2,
        p.catch_rate,
        p.moves@[0],
        p.moves@[1],
        p.moves@[2],
        p.moves@[3],
        hi8(p.ot_id as int),
        lo8(p.ot_id as int),
        ((p.exp as int / 65536) % 256) as u8,
        hi8(p.exp as int),
        lo8(p.exp as int),
        hi8(p.hp_exp as int),
        lo8(p.hp_exp as int),
        hi8(p.attack_exp as int),
        lo8(p.attack_exp as int),
        hi8(p.defense_exp as int),
        lo8(p.defense_exp as int),
        hi8(p.speed_exp as int),
        lo8(p.speed_exp as int),
        hi8(p.special_exp as int),
        lo8(p.special_exp as int),
        p.dvs.0,
        p.dvs.1,
        p.pp@[0],
        p.pp@[1],
        p.pp@[2],
        p.pp@[3],
        p.level,
        hi8(p.max_hp as int),
        lo8(p.max_hp as int),
        hi8(p.attack as int),
        lo8(p.attack as int),
        hi8(p.defense as int),
        lo8(p.defense as int),
        hi8(p.speed as int),
        lo8(p.speed as int),
        hi8(p.special as int),
        lo8(p.special as int)
    ]
}

/// `p` is what slot `i` of the party bytes `d` holds.
pub open spec fn party_entry_decodes(d: Seq<u8>, i: int, p: PartyPokemon) -> bool {
    let o = party_entry_pos(i);
    &&& species_from_index(d[o]) == Some(p.species)
    &&& p.hp == be16(d[o + 1], d[o + 2])
    &&& p.box_level == d[o + 3]
    &&& p.status == d[o + 4]
    &&& p.type1 == d[o + 5]
    &&& p.type2 == d[o + 6]
    &&& p.catch_rate == d[o + 7]
    &&& p.moves@ == d.subrange(o + 8, o + 12)
    &&& p.ot_id == be16(d[o + 12], d[o + 13])
    &&& p.exp == d[o + 14] as int * 65536 + be16(d[o + 15], d[o + 16])
    &&& p.hp_exp == be16(d[o + 17], d[o + 18])
    &&& p.attack_exp == be16(d[o + 19], d[o + 20])
    &&& p.defense_exp == be16(d[o + 21], d[o + 22])
    &&& p.speed_exp == be16(d[o + 23], d[o + 24])
    &&& p.special_exp == be16(d[o + 25], d[o + 26])
    &&& p.dvs.0 == d[o + 27]
    &&& p.dvs.1 == d[o + 28]
    &&& p.pp@ == d.subrange(o + 29, o + 33)
    &&& p.level == d[o + 33]
    &&& p.max_hp == be16(d[o + 34], d[o + 35])
    &&& p.attack == be16(d[o + 36], d[o + 37])
    &&& p.defense == be16(d[o + 38], d[o + 39])
    &&& p.speed == be16(d[o + 40], d[o + 41])
    &&& p.special == be16(d[o + 42], d[o + 43])
    &&& p.ot_name@ == text_prefix(d.skip(party_ot_pos(i)), 11)
    &&& (if text_prefix(d.skip(party_nick_pos(i)), 11) == species_name(p.species) {
        p.nickname is None
    } else {
        p.nickname matches Some(n) && n@ == text_prefix(d.skip(party_nick_pos(i)), 11)
    })
}

/// Slot `i` of the party bytes `d` is below the count and listed.
pub open spec fn party_slot_listed(d: Seq<u8>, i: int) -> bool {
    0 <= i < d[0] && d[1 + i] != 0xff
}

/// Reading slot `i` of the party bytes `d` stays within `d` and finds a known species.
pub open spec fn party_get_ok(d: Seq<u8>, i: int) -> bool {
    &&& d.len() >= 1
    &&& 0 <= i < d[0] ==> 1 + i < d.len()
    &&& party_slot_listed(d, i) ==> d.len() >= party_slot_end(i) && species_from_index(
        d[party_entry_pos(i)],
    ) is Some
}

/// Slot `i` of the party bytes `d` is listed and holds `p`.
pub open spec fn party_slot_decodes(d: Seq<u8>, i: int, p: PartyPokemon) -> bool {
    party_slot_listed(d, i) && party_entry_decodes(d, i, p)
}

/// `s` holds what the first slots of the party bytes `d` hold, in order.
pub open spec fn party_entries_decode(d: Seq<u8>, s: Seq<PartyPokemon>) -> bool {
    forall|i: int| 0 <= i < s.len() ==> #[trigger] party_slot_decodes(d, i, s[i])
}

/// The party bytes `d` after writing `p` into slot `i`.
pub open spec fn party_write_slot(d: Seq<u8>, i: int, p: PartyPokemon) -> Seq<u8> {
    overwrite(
        overwrite(
            overwrite(
                overwrite(d, 1 + i, seq![species_index(p.species)]),
                party_entry_pos(i),
                party_entry_bytes(p),
            ),
            party_ot_pos(i),
            name_field(p.ot_name@),
        ),
        party_nick_pos(i),
        name_field(party_nickname_text(p)),
    )
}

/// The party bytes `d` after the Pokémon of slot `from` is read and written into slot `to`.
pub open spec fn party_move_slot(d: Seq<u8>, from: int, to: int) -> Seq<u8> {
    let o = party_entry_pos(from);
    overwrite(
        overwrite(
            overwrite(
                overwrite(d, 1 + to, seq![d[o]]),
                party_entry_pos(to),
                d.subrange(o, o + 44),
            ),
            party_ot_pos(to),
            name_field(text_prefix(d.skip(party_ot_pos(from)), 11)),
        ),
        party_nick_pos(to),
        name_field(text_prefix(d.skip(party_nick_pos(from)), 11)),
    )
}

/// The party bytes `d` after the slots from `index + 1` up to (not
/// including) `k` have each moved one slot down, in that order.
pub open spec fn party_shift(d: Seq<u8>, index: int, k: int) -> Seq<u8>
    decreases k - index,
{
    if k <= index + 1 {
        d
    } else {
        party_move_slot(party_shift(d, index, k - 1), k - 1, k - 2)
    }
}

/// Every slot that removing slot `index` moves down can be read, when its
/// turn comes, from the party bytes as the moves before it left them.
pub open spec fn party_remove_ok(d: Seq<u8>, index: int) -> bool {
    forall|k: int|
        index + 1 <= k < d[0] ==> #[trigger] party_get_ok(party_shift(d, index, k), k)
            && party_slot_listed(party_shift(d, index, k), k)
}

/// Two Pokémon that the party stores alike.
pub open spec fn party_same(p: PartyPokemon, q: PartyPokemon) -> bool {
    &&& p.species == q.species
    &&& p.hp == q.hp
    &&& p.box_level == q.box_level
    &&& p.status == q.status
    &&& p.type1 == q.type1
    &&& p.type2 == q.type2
    &&& p.catch_rate == q.catch_rate
    &&& p.moves@ == q.moves@
    &&& p.ot_id == q.ot_id
    &&& p.exp == q.exp
    &&& p.hp_exp == q.hp_exp
    &&& p.attack_exp == q.attack_exp
    &&& p.defense_exp == q.defense_exp
    &&& p.speed_exp == q.speed_exp
    &&& p.special_exp == q.special_exp
    &&& p.dvs == q.dvs
    &&& p.pp@ == q.pp@
    &&& p.level == q.level
    &&& p.max_hp == q.max_hp
    &&& p.attack == q.attack
    &&& p.defense == q.defense
    &&& p.speed == q.speed
    &&& p.special == q.special
    &&& p.ot_name@ == q.ot_name@
    &&& party_nickname_text(p) == party_nickname_text(q)
}

fn encode_party_entry(pokemon: &PartyPokemon) -> (res: Vec<u8>)
    ensures
        res@ == party_entry_bytes(*pokemon),
{
    let mut e: Vec<u8> = Vec::new();
    e.push(pokemon.species.into_index());
    e.push(high_byte(pokemon.hp));
    e.push(low_byte(pokemon.hp));
    e.push(pokemon.box_level);
    e.push(pokemon.status);
    e.push(pokemon.type1);
    e.push(pokemon.type2);
    e.push(pokemon.catch_rate);
    e.push(pokemon.moves[0]);
    e.push(pokemon.moves[1]);
    e.push(pokemon.moves[2]);
    e.push(pokemon.moves[3]);
    e.push(high_byte(pokemon.ot_id));
    e.push(low_byte(pokemon.ot_id));
    e.push(((pokemon.exp / 65536) % 256) as u8);
    e.push(((pokemon.exp / 256) % 256) as u8);
    e.push((pokemon.exp % 256) as u8);
    e.push(high_byte(pokemon.hp_exp));
    e.push(low_byte(pokemon.hp_exp));
    e.push(high_byte(pokemon.attack_exp));
    e.push(low_byte(pokemon.attack_exp));
    e.push(high_byte(pokemon.defense_exp));
    e.push(low_byte(pokemon.defense_exp));
    e.push(high_byte(pokemon.speed_exp));
    e.push(low_byte(pokemon.speed_exp));
    e.push(high_byte(pokemon.special_exp));
    e.push(low_byte(pokemon.special_exp));
    e.push(pokemon.dvs.0);
    e.push(pokemon.dvs.1);
    e.push(pokemon.pp[0]);
    e.push(pokemon.pp[1]);
    e.push(pokemon.pp[2]);
    e.push(pokemon.pp[3]);
    e.push(pokemon.level);
    e.push(high_byte(pokemon.max_hp));
    e.push(low_byte(pokemon.max_hp));
    e.push(high_byte(pokemon.attack));
    e.push(low_byte(pokemon.attack));
    e.push(high_byte(pokemon.defense));
    e.push(low_byte(pokemon.defense));
    e.push(high_byte(pokemon.speed));
    e.push(low_byte(pokemon.speed));
    e.push(high_byte(pokemon.special));
    e.push(low_byte(pokemon.special));
    assert(e@ =~= party_entry_bytes(*pokemon));
    e
}

fn decode_party_entry(data: &[u8], index: usize) -> (res: PartyPokemon)
    requires
        party_get_ok(data@, index as int),
        party_slot_listed(data@, index as int),
    ensures
        party_entry_decodes(data@, index as int, res),
{
    let offset = 8 + (index * 44);
    let species = PokemonSpecies::from_index(data[offset]).unwrap();
    let ot_name = PokeString::from_bytes(&data[(272 + (index * 11))..data.len()], 11);
    let nickname = PokeString::from_bytes(&data[(338 + (index * 11))..data.len()], 11);
    let default_name = species.name();
    let nickname = if nickname.same_text(&default_name) {
        None
    } else {
        Some(nickname)
    };
    let moves = [data[offset + 8], data[offset + 9], data[offset + 10], data[offset + 11]];
    let pp = [data[offset + 29], data[offset + 30], data[offset + 31], data[offset + 32]];
    assert(moves@ =~= data@.subrange(offset + 8, offset + 12));
    assert(pp@ =~= data@.subrange(offset + 29, offset + 33));
    PartyPokemon {
        species,
        hp: u16_from_be(data[offset + 1], data[offset + 2]),
        box_level: data[offset + 3],
        status: data[offset + 4],
        type1: data[offset + 5],
        type2: data[offset + 6],
        catch_rate: data[offset + 7],
        moves,
        ot_id: u16_from_be(data[offset + 12], data[offset + 13]),
        exp: (data[offset + 14] as u32) * 65536 + (u16_from_be(data[offset + 15], data[offset + 16]) as u32),
        hp_exp: u16_from_be(data[offset + 17], data[offset + 18]),
        attack_exp: u16_from_be(data[offset + 19], data[offset + 20]),
        defense_exp: u16_from_be(data[offset + 21], data[offset + 22]),
        speed_exp: u16_from_be(data[offset + 23], data[offset + 24]),
        special_exp: u16_from_be(data[offset + 25], data[offset + 26]),
        dvs: DeterminantValues::from_bytes([data[offset + 27], data[offset + 28]]),
        pp,
        level: data[offset + 33],
        max_hp: u16_from_be(data[offset + 34], data[offset + 35]),
        attack: u16_from_be(data[offset + 36], data[offset + 37]),
        defense: u16_from_be(data[offset + 38], data[offset + 39]),
        speed: u16_from_be(data[offset + 40], data[offset + 41]),
        special: u16_from_be(data[offset + 42], data[offset + 43]),
        ot_name,
        nickname,
    }
}

proof fn lemma_party_entries_push(d: Seq<u8>, s: Seq<PartyPokemon>, p: PartyPokemon)
    requires
        party_entries_decode(d, s),
        party_slot_listed(d, s.len() as int),
        party_entry_decodes(d, s.len() as int, p),
    ensures
        party_entries_decode(d, s.push(p)),
{
    assert forall|i: int| 0 <= i < s.push(p).len() implies #[trigger] party_slot_decodes(d, i, s.push(p)[i]) by {
        if i < s.len() {
            assert(s.push(p)[i] == s[i]);
            assert(party_slot_decodes(d, i, s[i]));
        }
    }
}

/// A read-only view of the party data: the work RAM bytes from the party's start on.
pub struct PartyView<'a> {
    data: &'a [u8],
}

impl<'a> PartyView<'a> {
    pub closed spec fn bytes(&self) -> Seq<u8> {
        self.data@
    }

    pub fn new(data: &'a [u8]) -> (res: PartyView<'a>)
        ensures
            res.bytes() == data@,
    {
        PartyView { data }
    }

    /// The number of Pokémon in the party, from its count byte.
    pub fn len(&self) -> (res: usize)
        requires
            self.bytes().len() >= 1,
        ensures
            res == self.bytes()[0],
    {
        self.data[0] as usize
    }

    /// The Pokémon in slot `index`: none when `index` is past the count or
    /// the species list ends before it.
    pub fn get(&self, index: usize) -> (res: Option<PartyPokemon>)
        requires
            party_get_ok(self.bytes(), index as int),
        ensures
            res is Some <==> party_slot_listed(self.bytes(), index as int),
            res matches Some(p) ==> party_entry_decodes(self.bytes(), index as int, p),
    {
        if index >= self.len() {
            return None;
        }
        if self.data[1 + index] == 0xff {
            return None;
        }
        Some(decode_party_entry(self.data, index))
    }

    /// The Pokémon of the party in slot order, up to the first empty slot.
    pub fn iter(&self) -> (res: Vec<PartyPokemon>)
        requires
            forall|i: int| 0 <= i <= self.bytes()[0] ==> party_get_ok(self.bytes(), i),
            self.bytes().len() >= 1,
        ensures
            res@.len() <= self.bytes()[0],
            party_entries_decode(self.bytes(), res@),
            res@.len() < self.bytes()[0] ==> !party_slot_listed(self.bytes(), res@.len() as int),
    {
        let mut res: Vec<PartyPokemon> = Vec::new();
        let mut index: usize = 0;
        let n = self.len();
        while index < n
            invariant
                n == self.bytes()[0],
                index <= n,
                res@.len() == index,
                forall|i: int| 0 <= i <= self.bytes()[0] ==> party_get_ok(self.bytes(), i),
                party_entries_decode(self.bytes(), res@),
            decreases n - index,
        {
            let r = self.get(index);
            if r.is_none() {
                return res;
            }
            let p = r.unwrap();
            proof {
                lemma_party_entries_push(self.bytes(), res@, p);
            }
            res.push(p);
            index = index + 1;
        }
        res
    }
}

/// A view of the party data through which it can be changed.
pub struct PartyViewMut<'a> {
    pub data: &'a mut [u8],
}

impl<'a> PartyViewMut<'a> {
    /// The party bytes the view refers to.
    pub open spec fn bytes(&self) -> Seq<u8> {
        self.data@
    }

    pub fn new(data: &'a mut [u8]) -> (res: PartyViewMut<'a>)
        ensures
            res.data@ == old(data)@,
            final(data)@ == final(res.data)@,
    {
        PartyViewMut { data }
    }

    /// The number of Pokémon in the party, from its count byte.
    pub fn len(&self) -> (res: usize)
        requires
            self.bytes().len() >= 1,
        ensures
            res == self.bytes()[0],
    {
        self.data[0] as usize
    }

    /// The Pokémon in slot `index`, as `PartyView::get` reads it.
    pub fn get(&self, index: usize) -> (res: Option<PartyPokemon>)
        requires
            party_get_ok(self.bytes(), index as int),
        ensures
            res is Some <==> party_slot_listed(self.bytes(), index as int),
            res matches Some(p) ==> party_entry_decodes(self.bytes(), index as int, p),
    {
        let view = PartyView::new(self.data);
        view.get(index)
    }

    /// Writes `pokemon` into slot `index`, which must be below the count.
    pub fn set(&mut self, index: usize, pokemon: PartyPokemon)
        requires
            index < old(self).data@[0],
            old(self).data@.len() >= party_slot_end(index as int),
        ensures
            final(self).data@ == party_write_slot(old(self).data@, index as int, pokemon),
            final(final(self).data)@ == final(old(self).data)@,
    {
        let species_index = pokemon.species.into_index();
        self.data[1 + index] = species_index;
        assert(self.data@ =~= overwrite(old(self).data@, 1 + index, seq![species_index]));
        let entry = encode_party_entry(&pokemon);
        copy_into(self.data, 8 + (index * 44), entry.as_slice());
        let ot = pokemon.ot_name.name_field_bytes();
        copy_into(self.data, 272 + (index * 11), ot.as_slice());
        let name = match pokemon.nickname {
            Some(n) => n,
            None => pokemon.species.name(),
        };
        let nick = name.name_field_bytes();
        copy_into(self.data, 338 + (index * 11), nick.as_slice());
    }

    /// Adds `pokemon` after the last Pokémon of a party with fewer than six.
    pub fn push(&mut self, pokemon: PartyPokemon)
        requires
            old(self).data@[0] < PARTY_LENGTH,
            old(self).data@.len() >= party_slot_end(old(self).data@[0] as int),
        ensures
            final(self).data@ == party_write_slot(
                old(self).data@.update(0, (old(self).data@[0] + 1) as u8),
                old(self).data@[0] as int,
                pokemon,
            ),
            final(final(self).data)@ == final(old(self).data)@,
    {
        let index = self.data[0] as usize;
        self.data[0] = self.data[0] + 1;
        self.set(index, pokemon);
    }

    /// Takes the Pokémon out of slot `index` and moves each one after it up a slot.
    pub fn remove(&mut self, index: usize) -> (res: PartyPokemon)
        requires
            index < old(self).data@[0],
            party_get_ok(old(self).data@, index as int),
            party_slot_listed(old(self).data@, index as int),
            party_remove_ok(old(self).data@, index as int),
        ensures
            party_entry_decodes(old(self).data@, index as int, res),
            final(self).data@ == party_shift(old(self).data@, index as int, old(self).data@[0] as int)
                .update(0, (old(self).data@[0] - 1) as u8)
                .update(old(self).data@[0] as int, 0xff),
            final(final(self).data)@ == final(old(self).data)@,
    {
        let prev_len = self.data[0] as usize;
        let pokemon = self.get(index).unwrap();
        let mut i: usize = index + 1;
        let ghost d0 = self.data@;
        while i < prev_len
            invariant
                index + 1 <= i <= prev_len,
                prev_len == d0[0],
                index < prev_len,
                party_remove_ok(d0, index as int),
                self.data@ == party_shift(d0, index as int, i as int),
                final(self.data)@ == final(old(self).data)@,
            decreases prev_len - i,
        {
            proof {
                lemma_party_shift_count(d0, index as int, i as int);
                assert(party_get_ok(party_shift(d0, index as int, i as int), i as int));
            }
            let moved = self.get(i).unwrap();
            proof {
                lemma_party_write_decoded_is_move(self.data@, i as int, (i - 1) as int, moved);
                lemma_party_shift_count(d0, index as int, i as int);
            }
            self.set(i - 1, moved);
            i = i + 1;
        }
        proof {
            lemma_party_shift_count(d0, index as int, prev_len as int);
        }
        let next_len = prev_len - 1;
        self.data[0] = next_len as u8;
        self.data[1 + next_len] = 0xff;
        pokemon
    }
}

/// Moving slots down never changes the count byte or the length.
proof fn lemma_party_shift_count(d: Seq<u8>, index: int, k: int)
    requires
        0 <= index,
        forall|j: int| index + 1 <= j < k ==> #[trigger] party_get_ok(party_shift(d, index, j), j)
            && party_slot_listed(party_shift(d, index, j), j),
    ensures
        party_shift(d, index, k).len() == d.len(),
        party_shift(d, index, k)[0] == d[0],
    decreases k - index,
{
    if k > index + 1 {
        lemma_party_shift_count(d, index, k - 1);
        assert(party_get_ok(party_shift(d, index, k - 1), k - 1));
        let prev = party_shift(d, index, k - 1);
        assert(party_shift(d, index, k) == party_move_slot(prev, k - 1, k - 2));
        assert(party_move_slot(prev, k - 1, k - 2)[0] == prev[0]);
    }
}

proof fn lemma_party_be16_bytes(hi: u8, lo: u8)
    ensures
        hi8(be16(hi, lo)) == hi,
        lo8(be16(hi, lo)) == lo,
{
}

proof fn lemma_species_index_roundtrip(b: u8)
    requires
        species_from_index(b) is Some,
    ensures
        species_index(species_from_index(b).unwrap()) == b,
{
}

#[verifier::rlimit(100)]
#[verifier::spinoff_prover]
proof fn lemma_party_entry_roundtrip(d: Seq<u8>, from: int, q: PartyPokemon)
    requires
        party_get_ok(d, from),
        party_slot_listed(d, from),
        party_entry_decodes(d, from, q),
    ensures
        party_entry_bytes(q) == d.subrange(party_entry_pos(from), party_entry_pos(from) + 44),
        species_index(q.species) == d[party_entry_pos(from)],
        party_nickname_text(q) == text_prefix(d.skip(party_nick_pos(from)), 11),
{
    let o = party_entry_pos(from);
    lemma_species_index_roundtrip(d[o]);
    lemma_party_be16_bytes(d[o + 1], d[o + 2]);
    lemma_party_be16_bytes(d[o + 12], d[o + 13]);
    lemma_party_be16_bytes(d[o + 15], d[o + 16]);
    lemma_party_be16_bytes(d[o + 17], d[o + 18]);
    lemma_party_be16_bytes(d[o + 19], d[o + 20]);
    lemma_party_be16_bytes(d[o + 21], d[o + 22]);
    lemma_party_be16_bytes(d[o + 23], d[o + 24]);
    lemma_party_be16_bytes(d[o + 25], d[o + 26]);
    lemma_party_be16_bytes(d[o + 34], d[o + 35]);
    lemma_party_be16_bytes(d[o + 36], d[o + 37]);
    lemma_party_be16_bytes(d[o + 38], d[o + 39]);
    lemma_party_be16_bytes(d[o + 40], d[o + 41]);
    lemma_party_be16_bytes(d[o + 42], d[o + 43]);
    assert(((q.exp as int / 65536) % 256) as u8 == d[o + 14]);
    assert(hi8(q.exp as int) == d[o + 15]);
    assert(lo8(q.exp as int) == d[o + 16]);
    assert(party_entry_bytes(q) =~= d.subrange(o, o + 44));
}

proof fn lemma_party_write_decoded_is_move(d: Seq<u8>, from: int, to: int, q: PartyPokemon)
    requires
        party_get_ok(d, from),
        party_slot_listed(d, from),
        party_entry_decodes(d, from, q),
    ensures
        party_write_slot(d, to, q) == party_move_slot(d, from, to),
{
    lemma_party_entry_roundtrip(d, from, q);
}

/// A Pokémon written into a party slot reads back the same, under the
/// conditions of the box's law: one of the six slots, storable names, and
/// experience below 2^24.
#[verifier::spinoff_prover]
#[verifier::rlimit(100)]
pub proof fn lemma_party_set_then_get(d: Seq<u8>, i: int, p: PartyPokemon)
    requires
        0 <= i < d[0],
        i < PARTY_LENGTH,
        d.len() >= party_slot_end(i),
        is_storable_name(p.ot_name@),
        is_storable_name(party_nickname_text(p)),
        p.exp < 0x1000000,
    ensures
        party_get_ok(party_write_slot(d, i, p), i),
        party_slot_listed(party_write_slot(d, i, p), i),
        forall|q: PartyPokemon|
            party_entry_decodes(party_write_slot(d, i, p), i, q) ==> party_same(p, q),
{
    let d2 = party_write_slot(d, i, p);
    let o = party_entry_pos(i);
    let e = party_entry_bytes(p);
    assert(d2.len() == d.len());
    assert(d2[0] == d[0]);
    assert(d2[1 + i] == species_index(p.species));
    lemma_species_from_index_of_index(p.species);
    assert forall|k: int| 0 <= k < 44 implies d2[o + k] == e[k] by {}
    assert forall|k: int| 0 <= k < 11 implies d2[party_ot_pos(i) + k] == #[trigger] name_field(p.ot_name@)[k] by {}
    assert forall|k: int| 0 <= k < 11 implies d2[party_nick_pos(i) + k] == #[trigger] name_field(party_nickname_text(p))[k] by {}
    lemma_read_name_field(d2, party_ot_pos(i), p.ot_name@);
    lemma_read_name_field(d2, party_nick_pos(i), party_nickname_text(p));
    assert(d2.subrange(o + 8, o + 12) =~= p.moves@);
    assert(d2.subrange(o + 29, o + 33) =~= p.pp@);
    assert forall|q: PartyPokemon| party_entry_decodes(d2, i, q) implies party_same(p, q) by {
        assert(q.exp == p.exp);
        assert(q.dvs == p.dvs);
    }
}


/// Writing a Pokémon into one slot of a party leaves every other slot as it
/// was: whether it can be read, whether it is listed, and what it holds.
#[verifier::spinoff_prover]
#[verifier::rlimit(100)]
pub proof fn lemma_party_set_keeps_other_slots(d: Seq<u8>, i: int, p: PartyPokemon, j: int)
    requires
        0 <= i < PARTY_LENGTH,
        0 <= j < PARTY_LENGTH,
        i != j,
        d.len() >= PARTY_SIZE,
    ensures
        party_get_ok(party_write_slot(d, i, p), j) == party_get_ok(d, j),
        party_slot_listed(party_write_slot(d, i, p), j) == party_slot_listed(d, j),
        forall|q: PartyPokemon|
            party_entry_decodes(party_write_slot(d, i, p), j, q) == party_entry_decodes(d, j, q),
{
    let d2 = party_write_slot(d, i, p);
    let o = party_entry_pos(j);
    let ot = party_ot_pos(j);
    let nick = party_nick_pos(j);
    assert(d2.len() == d.len());
    assert(d2[0] == d[0]);
    assert(d2[1 + j] == d[1 + j]);
    assert forall|a: int| o <= a < o + 44 implies d2[a] == d[a] by {}
    assert(d2.subrange(o + 8, o + 12) =~= d.subrange(o + 8, o + 12));
    assert(d2.subrange(o + 29, o + 33) =~= d.subrange(o + 29, o + 33));
    assert(d2.skip(ot).take(11) =~= d.skip(ot).take(11));
    assert(d2.skip(nick).take(11) =~= d.skip(nick).take(11));
    lemma_text_prefix_take(d2.skip(ot), 11);
    lemma_text_prefix_take(d.skip(ot), 11);
    lemma_text_prefix_take(d2.skip(nick), 11);
    lemma_text_prefix_take(d.skip(nick), 11);
}


/// The level a boxed Pokémon enters the party with is the highest level up
/// to 100 whose experience it has, by its growth rate's formula for the
/// experience of level `L`: `L^3` for medium fast (0), `6 L^3 / 5 - 15 L^2 +
/// 100 L - 140` for medium slow (3), `4 L^3 / 5` for fast (4) and `5 L^3 / 4`
/// for slow (5), each rounded down; level 1 needs none.
pub proof fn lemma_party_level_by_growth_rate(pokemon: BoxedPokemon, base: BaseStats, res: PartyPokemon)
    requires
        entered_party(pokemon, base, res),
    ensures
        1 <= res.level <= 100,
        ({
            let l = res.level as int;
            let n = l + 1;
            let e = pokemon.exp as int;
            &&& base.growth_rate == 0 ==> (l >= 2 ==> l * l * l <= e) && (l < 100 ==> n * n * n > e)
            &&& base.growth_rate == 3 ==> (l >= 2 ==> (6 * (l * l * l)) / 5 - 15 * (l * l) + 100 * l - 140
                <= e) && (l < 100 ==> (6 * (n * n * n)) / 5 - 15 * (n * n) + 100 * n - 140 > e)
            &&& base.growth_rate == 4 ==> (l >= 2 ==> (4 * (l * l * l)) / 5 <= e) && (l < 100 ==> (4 * (n
                * n * n)) / 5 > e)
            &&& base.growth_rate == 5 ==> (l >= 2 ==> (5 * (l * l * l)) / 4 <= e) && (l < 100 ==> (5 * (n
                * n * n)) / 4 > e)
        }),
{
    let l = res.level as int;
    if l >= 2 {
        assert(exp_for_level(base.growth_rate, l) <= pokemon.exp);
    }
}

/// Where each field of a party entry lies in its 44 bytes, as the save
/// format lays it out: the species index, the current HP (two bytes, high
/// byte first, as every two-byte field), the level the box keeps, the
/// status, both types, the catch rate, four moves, the original trainer's
/// ID, three bytes of experience, the stat experience of HP, Attack,
/// Defense, Speed and Special, the two DV bytes, four PP bytes, the level,
/// and the maximum HP, Attack, Defense, Speed and Special.
pub proof fn lemma_party_entry_layout(d: Seq<u8>, i: int, p: PartyPokemon)
    requires
        0 <= i,
        8 + 44 * i + 44 <= d.len(),
        party_entry_decodes(d, i, p),
    ensures
        ({
            let o = 8 + 44 * i;
            &&& species_from_index(d[o]) == Some(p.species)
            &&& p.hp == d[o + 1] * 256 + d[o + 2]
            &&& p.box_level == d[o + 3]
            &&& p.status == d[o + 4]
            &&& p.type1 == d[o + 5]
            &&& p.type2 == d[o + 6]
            &&& p.catch_rate == d[o + 7]
            &&& p.moves[0] == d[o + 8] && p.moves[1] == d[o + 9] && p.moves[2] == d[o + 10]
                && p.moves[3] == d[o + 11]
            &&& p.ot_id == d[o + 12] * 256 + d[o + 13]
            &&& p.exp == d[o + 14] * 65536 + d[o + 15] * 256 + d[o + 16]
            &&& p.hp_exp == d[o + 17] * 256 + d[o + 18]
            &&& p.attack_exp == d[o + 19] * 256 + d[o + 20]
            &&& p.defense_exp == d[o + 21] * 256 + d[o + 22]
            &&& p.speed_exp == d[o + 23] * 256 + d[o + 24]
            &&& p.special_exp == d[o + 25] * 256 + d[o + 26]
            &&& p.dvs.0 == d[o + 27] && p.dvs.1 == d[o + 28]
            &&& p.pp[0] == d[o + 29] && p.pp[1] == d[o + 30] && p.pp[2] == d[o + 31] && p.pp[3] == d[o + 32]
            &&& p.level == d[o + 33]
            &&& p.max_hp == d[o + 34] * 256 + d[o + 35]
            &&& p.attack == d[o + 36] * 256 + d[o + 37]
            &&& p.defense == d[o + 38] * 256 + d[o + 39]
            &&& p.speed == d[o + 40] * 256 + d[o + 41]
            &&& p.special == d[o + 42] * 256 + d[o + 43]
        }),
{
    let o = 8 + 44 * i;
    assert(p.moves@ =~= d.subrange(o + 8, o + 12));
    assert(p.pp@ =~= d.subrange(o + 29, o + 33));
    assert(p.moves@[0] == d[o + 8] && p.moves@[1] == d[o + 9] && p.moves@[2] == d[o + 10] && p.moves@[3] == d[o + 11]);
    assert(p.pp@[0] == d[o + 29] && p.pp@[1] == d[o + 30] && p.pp@[2] == d[o + 31] && p.pp@[3] == d[o + 32]);
}

/// Writing a party entry lays each field out where the save format has it:
/// each two-byte field high byte first, the experience's three bytes from
/// the highest, in the order `lemma_party_entry_layout` gives.
pub proof fn lemma_party_entry_bytes_layout(p: PartyPokemon)
    ensures
        ({
            let e = party_entry_bytes(p);
            &&& e.len() == 44
            &&& e[0] == species_index(p.species)
            &&& e[1] == p.hp / 256 && e[2] == p.hp % 256
            &&& e[3] == p.box_level && e[4] == p.status && e[5] == p.type1 && e[6] == p.type2
            &&& e[7] == p.catch_rate
            &&& e[8] == p.moves[0] && e[9] == p.moves[1] && e[10] == p.moves[2] && e[11] == p.moves[3]
            &&& e[12] == p.ot_id / 256 && e[13] == p.ot_id % 256
            &&& e[14] == p.exp / 65536 % 256 && e[15] == p.exp / 256 % 256 && e[16] == p.exp % 256
            &&& e[17] == p.hp_exp / 256 && e[18] == p.hp_exp % 256
            &&& e[19] == p.attack_exp / 256 && e[20] == p.attack_exp % 256
            &&& e[21] == p.defense_exp / 256 && e[22] == p.defense_exp % 256
            &&& e[23] == p.speed_exp / 256 && e[24] == p.speed_exp % 256
            &&& e[25] == p.special_exp / 256 && e[26] == p.special_exp % 256
            &&& e[27] == p.dvs.0 && e[28] == p.dvs.1
            &&& e[29] == p.pp[0] && e[30] == p.pp[1] && e[31] == p.pp[2] && e[32] == p.pp[3]
            &&& e[33] == p.level
            &&& e[34] == p.max_hp / 256 && e[35] == p.max_hp % 256
            &&& e[36] == p.attack / 256 && e[37] == p.attack % 256
            &&& e[38] == p.defense / 256 && e[39] == p.defense % 256
            &&& e[40] == p.speed / 256 && e[41] == p.speed % 256
            &&& e[42] == p.special / 256 && e[43] == p.special % 256
        }),
{
}


proof fn lemma_ceil_sqrt_from(n: int, r: int)
    requires
        0 <= n <= 65536,
        0 <= r <= 256,
        r == 0 || (r - 1) * (r - 1) < n,
    ensures
        is_ceil_sqrt(n, ceil_sqrt_of(n)),
    decreases 256 - r,
{
    if r * r >= n {
        assert(is_ceil_sqrt(n, r));
    } else {
        assert(r < 256) by (nonlinear_arith)
            requires
                r * r < n,
                n <= 65536,
                0 <= r,
        ;
        lemma_ceil_sqrt_from(n, r + 1);
    }
}

/// The square root rounded up of a stat experience: the smallest number
/// whose square reaches it.
pub proof fn lemma_ceil_sqrt_of_stat_exp(n: u16)
    ensures
        ceil_sqrt_of(n as int) >= 0,
        ceil_sqrt_of(n as int) * ceil_sqrt_of(n as int) >= n,
        ceil_sqrt_of(n as int) == 0 || (ceil_sqrt_of(n as int) - 1) * (ceil_sqrt_of(n as int) - 1) < n,
{
    lemma_ceil_sqrt_from(n as int, 0);
}

/// A boxed Pokémon's stats in the party: for Attack, Defense, Speed and
/// Special, `((base + DV) * 2 + ceil(sqrt(stat exp)) / 4) * level / 100 + 5`,
/// and for HP the same plus the level and 10 in place of 5; the Attack DV is
/// the high four bits of the first DV byte, Defense the low four, Speed the
/// high four bits of the second and Special its low four, and the HP DV
/// takes the lowest bit of each of those, Attack's as its highest.
pub proof fn lemma_party_stats(pokemon: BoxedPokemon, base: BaseStats, res: PartyPokemon)
    requires
        entered_party(pokemon, base, res),
    ensures
        ({
            let l = res.level as int;
            let d0 = pokemon.dvs.0 as int;
            let d1 = pokemon.dvs.1 as int;
            let atk = d0 / 16;
            let def = d0 % 16;
            let spd = d1 / 16;
            let spc = d1 % 16;
            let hp_dv = (atk % 2) * 8 + (def % 2) * 4 + (spd % 2) * 2 + spc % 2;
            &&& res.max_hp == ((base.hp + hp_dv) * 2 + ceil_sqrt_of(pokemon.hp_exp as int) / 4) * l / 100 + l + 10
            &&& res.attack == ((base.attack + atk) * 2 + ceil_sqrt_of(pokemon.attack_exp as int) / 4) * l / 100 + 5
            &&& res.defense == ((base.defense + def) * 2 + ceil_sqrt_of(pokemon.defense_exp as int) / 4) * l / 100
                + 5
            &&& res.speed == ((base.speed + spd) * 2 + ceil_sqrt_of(pokemon.speed_exp as int) / 4) * l / 100 + 5
            &&& res.special == ((base.special + spc) * 2 + ceil_sqrt_of(pokemon.special_exp as int) / 4) * l / 100
                + 5
        }),
{
}


/// Writing a Pokémon into slot `i` puts its species index at byte `1 + i` of
/// the species list, its entry at `8 + 44 i`, its original trainer's name
/// at `272 + 11 i` and its nickname (the species' name where it has none)
/// at `338 + 11 i`, and changes no other byte.
pub proof fn lemma_party_write_slot_layout(d: Seq<u8>, i: int, p: PartyPokemon)
    requires
        0 <= i < PARTY_LENGTH,
        d.len() >= PARTY_SIZE,
    ensures
        ({
            let d2 = party_write_slot(d, i, p);
            &&& d2.len() == d.len()
            &&& d2[1 + i] == species_index(p.species)
            &&& forall|k: int| 0 <= k < 44 ==> d2[8 + 44 * i + k] == #[trigger] party_entry_bytes(p)[k]
            &&& forall|k: int| 0 <= k < 11 ==> d2[272 + 11 * i + k] == #[trigger] name_field(p.ot_name@)[k]
            &&& forall|k: int| 0 <= k < 11 ==> d2[338 + 11 * i + k] == #[trigger] name_field(party_nickname_text(p))[k]
            &&& forall|a: int|
                0 <= a < d.len() && a != 1 + i && !(8 + 44 * i <= a < 8 + 44 * i + 44) && !(272 + 11 * i <= a
                    < 272 + 11 * i + 11) && !(338 + 11 * i <= a < 338 + 11 * i + 11) ==> #[trigger] d2[a] == d[a]
        }),
{
}

/// Where a slot's names are read from: the original trainer's name from
/// `272 + 11 i` and the nickname from `338 + 11 i`, no nickname when the
/// name there is the species' own.
pub proof fn lemma_party_names_layout(d: Seq<u8>, i: int, p: PartyPokemon)
    requires
        party_entry_decodes(d, i, p),
    ensures
        p.ot_name@ == text_prefix(d.skip(272 + 11 * i), 11),
        text_prefix(d.skip(338 + 11 * i), 11) == species_name(p.species) ==> p.nickname is None,
        text_prefix(d.skip(338 + 11 * i), 11) != species_name(p.species) ==> (p.nickname matches Some(n) && n@
            == text_prefix(d.skip(338 + 11 * i), 11)),
{
}

} // verus!
