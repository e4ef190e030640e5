use vstd::prelude::*;

use super::party::PartyPokemon;
use super::poke_string::{
    is_storable_name, lemma_read_name_field, lemma_text_prefix_take, name_field, text_prefix, PokeString,
};
use super::species::{lemma_species_from_index_of_index, species_from_index, species_index, species_name, PokemonSpecies};
use super::DeterminantValues;
use crate::bytes::{be16, copy_into, hi8, high_byte, lo8, low_byte, overwrite, u16_from_be};

verus! {

/// How many Pokémon a box holds at most.
pub const BOX_CAPACITY: usize = 20;

/// How many bytes a box takes in the save file.
pub const BOX_SIZE: usize = 0x462;

/// Where the entry of slot `i` starts in a box.
pub open spec fn box_entry_pos(i: int) -> int {
    22 + 33 * i
}

/// Where the original trainer's name of slot `i` starts in a box.
pub open spec fn box_ot_pos(i: int) -> int {
    682 + 11 * i
}

/// Where the nickname of slot `i` starts in a box.
pub open spec fn box_nick_pos(i: int) -> int {
    902 + 11 * i
}

/// One past the last byte that slot `i` of a box uses.
pub open spec fn box_slot_end(i: int) -> int {
    if box_entry_pos(i) + 33 > box_nick_pos(i) + 11 {
        box_entry_pos(i) + 33
    } else {
        box_nick_pos(i) + 11
    }
}

/// A Pokémon as a box stores it.
#[derive(Debug, PartialEq, Eq, PartialOrd, Ord, Clone)]
pub struct BoxedPokemon {
    pub species: PokemonSpecies,
    pub hp: u16,
    pub level: u8,
    pub status: u8,
    pub type1: u8,
    pub type2: u8,
    pub catch_rate: u8,
    pub moves: [u8; 4],
    pub ot_id: u16,
    pub exp: u32,
    pub hp_exp: u16,
    pub attack_exp: u16,
    pub defense_exp: u16,
    pub speed_exp: u16,
    pub special_exp: u16,
    pub dvs: DeterminantValues,
    pub pp: [u8; 4],
    pub ot_name: PokeString,
    pub nickname: Option<PokeString>,
}

/// The name written into the nickname field: the nickname, or the species'
/// name when there is none.
pub open spec fn boxed_nickname_text(p: BoxedPokemon) -> Seq<u8> {
    match p.nickname {
        Some(n) => n@,
        None => species_name(p.species),
    }
}

/// The 33 bytes of a box entry.
pub open spec fn boxed_entry_bytes(p: BoxedPokemon) -> Seq<u8> {
    seq![
        species_index(p.species),
        hi8(p.hp as int),
        lo8(p.hp as int),
        p.level,
        p.status,
        p.type1,
        p.type2,
        p.catch_rate,
        p.moves@[0],
        p.moves@[1],
        p.moves@[2],
        p.moves@[3],
        hi8(p.ot_id as int),
        lo8(p.ot_id as int),
        ((p.exp as int / 65536) % 256) as u8,
        hi8(p.exp as int),
        lo8(p.exp as int),
        hi8(p.hp_exp as int),
        lo8(p.hp_exp as int),
        hi8(p.attack_exp as int),
        lo8(p.attack_exp as int),
        hi8(p.defense_exp as int),
        lo8(p.defense_exp as int),
        hi8(p.speed_exp as int),
        lo8(p.speed_exp as int),
        hi8(p.special_exp as int),
        lo8(p.special_exp as int),
        p.dvs.0,
        p.dvs.1,
        p.pp@[0],
        p.pp@[1],
        p.pp@[2],
        p.pp@[3]
    ]
}

/// The nickname as a read gives it back: none when the stored name is the
/// species' own.
pub open spec fn nickname_matches(stored: Seq<u8>, species: PokemonSpecies, nickname: Option<PokeString>) -> bool {
    if stored == species_name(species) {
        nickname is None
    } else {
        nickname matches Some(n) && n@ == stored
    }
}

/// `p` is what slot `i` of the box bytes `d` holds.
pub open spec fn box_entry_decodes(d: Seq<u8>, i: int, p: BoxedPokemon) -> bool {
    let o = box_entry_pos(i);
    &&& species_from_index(d[o]) == Some(p.species)
    &&& p.hp == be16(d[o + 1], d[o + 2])
    &&& p.level == d[o + 3]
    &&& p.status == d[o + 4]
    &&& p.type1 == d[o + 5]
    &&& p.type2 == d[o + 6]
    &&& p.catch_rate == d[o + 7]
    &&& p.moves@ == d.subrange(o + 8, o + 12)
    &&& p.ot_id == be16(d[o + 12], d[o + 13])
    &&& p.exp == d[o + 14] as int * 65536 + be16(d[o + 15], d[o + 16])
    &&& p.hp_exp == be16(d[o + 17], d[o + 18])
    &&& p.attack_exp == be16(d[o + 19], d[o + 20])
    &&& p.defense_exp == be16(d[o + 21], d[o + 22])
    &&& p.speed_exp == be16(d[o + 23], d[o + 24])
    &&& p.special_exp == be16(d[o + 25], d[o + 26])
    &&& p.dvs.0 == d[o + 27]
    &&& p.dvs.1 == d[o + 28]
    &&& p.pp@ == d.subrange(o + 29, o + 33)
    &&& p.ot_name@ == text_prefix(d.skip(box_ot_pos(i)), 11)
    &&& nickname_matches(text_prefix(d.skip(box_nick_pos(i)), 11), p.species, p.nickname)
}

/// Slot `i` of the box bytes `d` is listed as filled.
pub open spec fn box_slot_listed(d: Seq<u8>, i: int) -> bool {
    0 <= i < d[0] && d[1 + i] != 0xff
}

/// Reading slot `i` of the box bytes `d` stays within `d` and finds a known species.
pub open spec fn box_get_ok(d: Seq<u8>, i: int) -> bool {
    &&& d.len() >= 1
    &&& 0 <= i < d[0] ==> 1 + i < d.len()
    &&& box_slot_listed(d, i) ==> d.len() >= box_slot_end(i) && species_from_index(
        d[box_entry_pos(i)],
    ) is Some
}

/// The box bytes `d` after writing `p` into slot `i`.
pub open spec fn box_write_slot(d: Seq<u8>, i: int, p: BoxedPokemon) -> Seq<u8> {
    overwrite(
        overwrite(
            overwrite(
                overwrite(d, 1 + i, seq![species_index(p.species)]),
                box_entry_pos(i),
                boxed_entry_bytes(p),
            ),
            box_ot_pos(i),
            name_field(p.ot_name@),
        ),
        box_nick_pos(i),
        name_field(boxed_nickname_text(p)),
    )
}

/// The box bytes `d` after the Pokémon of slot `from` is read and written into slot `to`.
pub open spec fn box_move_slot(d: Seq<u8>, from: int, to: int) -> Seq<u8> {
    let o = box_entry_pos(from);
    overwrite(
        overwrite(
            overwrite(
                overwrite(d, 1 + to, seq![d[o]]),
                box_entry_pos(to),
                d.subrange(o, o + 33),
            ),
            box_ot_pos(to),
            name_field(text_prefix(d.skip(box_ot_pos(from)), 11)),
        ),
        box_nick_pos(to),
        name_field(text_prefix(d.skip(box_nick_pos(from)), 11)),
    )
}

/// `s` holds what the first slots of the box bytes `d` hold, in order.
pub open spec fn box_entries_decode(d: Seq<u8>, s: Seq<BoxedPokemon>) -> bool {
    forall|i: int| 0 <= i < s.len() ==> #[trigger] box_slot_decodes(d, i, s[i])
}

/// Slot `i` of the box bytes `d` is listed and holds `p`.
pub open spec fn box_slot_decodes(d: Seq<u8>, i: int, p: BoxedPokemon) -> bool {
    box_slot_listed(d, i) && box_entry_decodes(d, i, p)
}

proof fn lemma_entries_push(d: Seq<u8>, s: Seq<BoxedPokemon>, p: BoxedPokemon)
    requires
        box_entries_decode(d, s),
        box_slot_listed(d, s.len() as int),
        box_entry_decodes(d, s.len() as int, p),
    ensures
        box_entries_decode(d, s.push(p)),
{
    assert forall|i: int| 0 <= i < s.push(p).len() implies #[trigger] box_slot_decodes(d, i, s.push(p)[i]) by {
        if i < s.len() {
            assert(s.push(p)[i] == s[i]);
            assert(box_slot_decodes(d, i, s[i]));
        }
    }
}

/// Two Pokémon that a box stores alike.
pub open spec fn boxed_same(p: BoxedPokemon, q: BoxedPokemon) -> bool {
    &&& p.species == q.species
    &&& p.hp == q.hp
    &&& p.level == q.level
    &&& p.status == q.status
    &&& p.type1 == q.type1
    &&& p.type2 == q.type2
    &&& p.catch_rate == q.catch_rate
    &&& p.moves@ == q.moves@
    &&& p.ot_id == q.ot_id
    &&& p.exp == q.exp
    &&& p.hp_exp == q.hp_exp
    &&& p.attack_exp == q.attack_exp
    &&& p.defense_exp == q.defense_exp
    &&& p.speed_exp == q.speed_exp
    &&& p.special_exp == q.special_exp
    &&& p.dvs == q.dvs
    &&& p.pp@ == q.pp@
    &&& p.ot_name@ == q.ot_name@
    &&& boxed_nickname_text(p) == boxed_nickname_text(q)
}

/// The bytes of a box entry.
fn encode_boxed_entry(pokemon: &BoxedPokemon) -> (res: Vec<u8>)
    ensures
        res@ == boxed_entry_bytes(*pokemon),
{
    let mut e: Vec<u8> = Vec::new();
    e.push(pokemon.species.into_index());
    e.push(high_byte(pokemon.hp));
    e.push(low_byte(pokemon.hp));
    e.push(pokemon.level);
    e.push(pokemon.status);
    e.push(pokemon.type1);
    e.push(pokemon.type2);
    e.push(pokemon.catch_rate);
    e.push(pokemon.moves[0]);
    e.push(pokemon.moves[1]);
    e.push(pokemon.moves[2]);
    e.push(pokemon.moves[3]);
    e.push(high_byte(pokemon.ot_id));
    e.push(low_byte(pokemon.ot_id));
    e.push(((pokemon.exp / 65536) % 256) as u8);
    e.push(((pokemon.exp / 256) % 256) as u8);
    e.push((pokemon.exp % 256) as u8);
    e.push(high_byte(pokemon.hp_exp));
    e.push(low_byte(pokemon.hp_exp));
    e.push(high_byte(pokemon.attack_exp));
    e.push(low_byte(pokemon.attack_exp));
    e.push(high_byte(pokemon.defense_exp));
    e.push(low_byte(pokemon.defense_exp));
    e.push(high_byte(pokemon.speed_exp));
    e.push(low_byte(pokemon.speed_exp));
    e.push(high_byte(pokemon.special_exp));
    e.push(low_byte(pokemon.special_exp));
    e.push(pokemon.dvs.0);
    e.push(pokemon.dvs.1);
    e.push(pokemon.pp[0]);
    e.push(pokemon.pp[1]);
    e.push(pokemon.pp[2]);
    e.push(pokemon.pp[3]);
    assert(e@ =~= boxed_entry_bytes(*pokemon));
    e
}

/// Reads slot `index` of the box bytes `data`, which it requires to be listed.
fn decode_boxed_entry(data: &[u8], index: usize) -> (res: BoxedPokemon)
    requires
        box_get_ok(data@, index as int),
        box_slot_listed(data@, index as int),
    ensures
        box_entry_decodes(data@, index as int, res),
{
    let offset = 22 + (index * 33);
    let species = PokemonSpecies::from_index(data[offset]).unwrap();
    let ot_name = PokeString::from_bytes(&data[(682 + (index * 11))..data.len()], 11);
    let nickname = PokeString::from_bytes(&data[(902 + (index * 11))..data.len()], 11);
    let default_name = species.name();
    let nickname = if nickname.same_text(&default_name) {
        None
    } else {
        Some(nickname)
    };
    let moves = [data[offset + 8], data[offset + 9], data[offset + 10], data[offset + 11]];
    let pp = [data[offset + 29], data[offset + 30], data[offset + 31], data[offset + 32]];
    assert(moves@ =~= data@.subrange(offset + 8, offset + 12));
    assert(pp@ =~= data@.subrange(offset + 29, offset + 33));
    BoxedPokemon {
        species,
        hp: u16_from_be(data[offset + 1], data[offset + 2]),
        level: data[offset + 3],
        status: data[offset + 4],
        type1: data[offset + 5],
        type2: data[offset + 6],
        catch_rate: data[offset + 7],
        moves,
        ot_id: u16_from_be(data[offset + 12], data[offset + 13]),
        exp: (data[offset + 14] as u32) * 65536 + (u16_from_be(data[offset + 15], data[offset + 16]) as u32),
        hp_exp: u16_from_be(data[offset + 17], data[offset + 18]),
        attack_exp: u16_from_be(data[offset + 19], data[offset + 20]),
        defense_exp: u16_from_be(data[offset + 21], data[offset + 22]),
        speed_exp: u16_from_be(data[offset + 23], data[offset + 24]),
        special_exp: u16_from_be(data[offset + 25], data[offset + 26]),
        dvs: DeterminantValues::from_bytes([data[offset + 27], data[offset + 28]]),
        pp,
        ot_name,
        nickname,
    }
}

/// A read-only view of a box: the save file bytes from the box's start on.
pub struct BoxView<'a> {
    data: &'a [u8],
}

impl<'a> BoxView<'a> {
    pub closed spec fn bytes(&self) -> Seq<u8> {
        self.data@
    }

    pub fn new(data: &'a [u8]) -> (res: BoxView<'a>)
        ensures
            res.bytes() == data@,
    {
        BoxView { data }
    }

    /// The number of Pokémon in the box, from its count byte.
    pub fn len(&self) -> (res: usize)
        requires
            self.bytes().len() >= 1,
        ensures
            res == self.bytes()[0],
    {
        self.data[0] as usize
    }

    /// Whether the box holds twenty Pokémon or more.
    pub fn full(&self) -> (res: bool)
        requires
            self.bytes().len() >= 1,
        ensures
            res == (self.bytes()[0] >= BOX_CAPACITY),
    {
        self.data[0] >= 20
    }

    /// The Pokémon in slot `index`: none when `index` is past the count or
    /// the species list ends before it.
    pub fn get(&self, index: usize) -> (res: Option<BoxedPokemon>)
        requires
            box_get_ok(self.bytes(), index as int),
        ensures
            res is Some <==> box_slot_listed(self.bytes(), index as int),
            res matches Some(p) ==> box_entry_decodes(self.bytes(), index as int, p),
    {
        if index >= self.len() {
            return None;
        }
        if self.data[1 + index] == 0xff {
            return None;
        }
        Some(decode_boxed_entry(self.data, index))
    }

    /// The Pokémon of the box in slot order, up to the first empty slot.
    pub fn iter(&self) -> (res: Vec<BoxedPokemon>)
        requires
            forall|i: int| 0 <= i <= self.bytes()[0] ==> box_get_ok(self.bytes(), i),
            self.bytes().len() >= 1,
        ensures
            res@.len() <= self.bytes()[0],
            box_entries_decode(self.bytes(), res@),
            res@.len() < self.bytes()[0] ==> !box_slot_listed(self.bytes(), res@.len() as int),
    {
        let mut res: Vec<BoxedPokemon> = Vec::new();
        let mut index: usize = 0;
        let n = self.len();
        while index < n
            invariant
                n == self.bytes()[0],
                index <= n,
                res@.len() == index,
                forall|i: int| 0 <= i <= self.bytes()[0] ==> box_get_ok(self.bytes(), i),
                box_entries_decode(self.bytes(), res@),
            decreases n - index,
        {
            let r = self.get(index);
            if r.is_none() {
                return res;
            }
            let p = r.unwrap();
            proof {
                lemma_entries_push(self.bytes(), res@, p);
            }
            res.push(p);
            index = index + 1;
        }
        res
    }
}

/// A view of a box through which it can be changed.
pub struct BoxViewMut<'a> {
    pub data: &'a mut [u8],
}

impl<'a> BoxViewMut<'a> {
    /// The box bytes the view refers to.
    pub open spec fn bytes(&self) -> Seq<u8> {
        self.data@
    }

    pub fn new(data: &'a mut [u8]) -> (res: BoxViewMut<'a>)
        ensures
            res.data@ == old(data)@,
            final(data)@ == final(res.data)@,
    {
        BoxViewMut { data }
    }

    /// The number of Pokémon in the box, from its count byte.
    pub fn len(&self) -> (res: usize)
        requires
            self.bytes().len() >= 1,
        ensures
            res == self.bytes()[0],
    {
        self.data[0] as usize
    }

    /// Whether the box holds twenty Pokémon or more.
    pub fn full(&self) -> (res: bool)
        requires
            self.bytes().len() >= 1,
        ensures
            res == (self.bytes()[0] >= BOX_CAPACITY),
    {
        self.data[0] >= 20
    }

    /// The Pokémon in slot `index`, as `BoxView::get` reads it.
    pub fn get(&self, index: usize) -> (res: Option<BoxedPokemon>)
        requires
            box_get_ok(self.bytes(), index as int),
        ensures
            res is Some <==> box_slot_listed(self.bytes(), index as int),
            res matches Some(p) ==> box_entry_decodes(self.bytes(), index as int, p),
    {
        let view = BoxView::new(self.data);
        view.get(index)
    }

    /// Writes `pokemon` into slot `index`, which must be below the count.
    pub fn set(&mut self, index: usize, pokemon: BoxedPokemon)
        requires
            index < old(self).data@[0],
            old(self).data@.len() >= box_slot_end(index as int),
        ensures
            final(self).data@ == box_write_slot(old(self).data@, index as int, pokemon),
            final(final(self).data)@ == final(old(self).data)@,
    {
        let species_index = pokemon.species.into_index();
        self.data[1 + index] = species_index;
        assert(self.data@ =~= overwrite(old(self).data@, 1 + index, seq![species_index]));
        let entry = encode_boxed_entry(&pokemon);
        copy_into(self.data, 22 + (index * 33), entry.as_slice());
        let ot = pokemon.ot_name.name_field_bytes();
        copy_into(self.data, 682 + (index * 11), ot.as_slice());
        let name = match pokemon.nickname {
            Some(n) => n,
            None => pokemon.species.name(),
        };
        let nick = name.name_field_bytes();
        copy_into(self.data, 902 + (index * 11), nick.as_slice());
    }

    /// Empties the box: count zero and an ended species list.
    pub fn clear(&mut self)
        requires
            old(self).data@.len() >= 2,
        ensures
            final(self).data@ == old(self).data@.update(0, 0).update(1, 0xff),
            final(final(self).data)@ == final(old(self).data)@,
    {
        self.data[0] = 0;
        self.data[1] = 0xff;
    }

    /// Adds `pokemon` after the last Pokémon of a box that is not full.
    pub fn push(&mut self, pokemon: BoxedPokemon)
        requires
            old(self).data@[0] < BOX_CAPACITY,
            old(self).data@.len() >= BOX_SIZE,
        ensures
            final(self).data@ == box_write_slot(
                old(self).data@.update(0, (old(self).data@[0] + 1) as u8),
                old(self).data@[0] as int,
                pokemon,
            ).update(2 + old(self).data@[0], 0xff),
            final(final(self).data)@ == final(old(self).data)@,
    {
        let old_len = self.len();
        self.data[0] = self.data[0] + 1;
        self.set(old_len, pokemon);
        self.data[1 + old_len + 1] = 0xff;
    }

    /// Takes the Pokémon out of slot `index` and moves the last one into its place.
    pub fn swap_remove(&mut self, index: usize) -> (res: BoxedPokemon)
        requires
            index < old(self).data@[0],
            box_get_ok(old(self).data@, index as int),
            box_slot_listed(old(self).data@, index as int),
            box_get_ok(old(self).data@, old(self).data@[0] - 1),
            box_slot_listed(old(self).data@, old(self).data@[0] - 1),
        ensures
            box_entry_decodes(old(self).data@, index as int, res),
            final(self).data@ == (if index < old(self).data@[0] - 1 {
                box_move_slot(old(self).data@, old(self).data@[0] - 1, index as int)
            } else {
                old(self).data@
            }).update(0, (old(self).data@[0] - 1) as u8).update(old(self).data@[0] as int, 0xff),
            final(final(self).data)@ == final(old(self).data)@,
    {
        let old_len = self.len();
        let removed = self.get(index).unwrap();
        let new_len = old_len - 1;
        if index < new_len {
            let moved = self.get(new_len).unwrap();
            proof {
                lemma_write_decoded_is_move(self.data@, new_len as int, index as int, moved);
            }
            self.set(index, moved);
        }
        self.data[0] = self.data[0] - 1;
        self.data[1 + new_len] = 0xff;
        removed
    }
}

proof fn lemma_species_index_roundtrip(b: u8)
    requires
        species_from_index(b) is Some,
    ensures
        species_index(species_from_index(b).unwrap()) == b,
{
}

proof fn lemma_be16_bytes(hi: u8, lo: u8)
    ensures
        hi8(be16(hi, lo)) == hi,
        lo8(be16(hi, lo)) == lo,
{
}

/// Writing back a Pokémon that was read from slot `from` into slot `to`
/// moves the slot's bytes, with its names cut at their terminator.
#[verifier::rlimit(100)]
#[verifier::spinoff_prover]
proof fn lemma_write_decoded_is_move(d: Seq<u8>, from: int, to: int, q: BoxedPokemon)
    requires
        box_get_ok(d, from),
        box_slot_listed(d, from),
        box_entry_decodes(d, from, q),
    ensures
        box_write_slot(d, to, q) == box_move_slot(d, from, to),
{
    let o = box_entry_pos(from);
    lemma_species_index_roundtrip(d[o]);
    lemma_be16_bytes(d[o + 1], d[o + 2]);
    lemma_be16_bytes(d[o + 12], d[o + 13]);
    lemma_be16_bytes(d[o + 15], d[o + 16]);
    lemma_be16_bytes(d[o + 17], d[o + 18]);
    lemma_be16_bytes(d[o + 19], d[o + 20]);
    lemma_be16_bytes(d[o + 21], d[o + 22]);
    lemma_be16_bytes(d[o + 23], d[o + 24]);
    lemma_be16_bytes(d[o + 25], d[o + 26]);
    assert(((q.exp as int / 65536) % 256) as u8 == d[o + 14]);
    assert(hi8(q.exp as int) == d[o + 15]);
    assert(lo8(q.exp as int) == d[o + 16]);
    assert(boxed_entry_bytes(q) =~= d.subrange(o, o + 33));
    assert(boxed_nickname_text(q) == text_prefix(d.skip(box_nick_pos(from)), 11));
}

/// A Pokémon written into a box slot reads back the same: same species,
/// numbers, moves and names, with a nickname equal to the species' name read
/// back as no nickname. It holds for the twenty slots of a box, for names that
/// fit their eleven-byte fields without a terminator, and for experience below
/// 2^24, which is all that the entry's three experience bytes hold.
#[verifier::spinoff_prover]
#[verifier::rlimit(100)]
pub proof fn lemma_box_set_then_get(d: Seq<u8>, i: int, p: BoxedPokemon)
    requires
        0 <= i < d[0],
        i < BOX_CAPACITY,
        d.len() >= box_slot_end(i),
        is_storable_name(p.ot_name@),
        is_storable_name(boxed_nickname_text(p)),
        p.exp < 0x1000000,
    ensures
        box_get_ok(box_write_slot(d, i, p), i),
        box_slot_listed(box_write_slot(d, i, p), i),
        forall|q: BoxedPokemon|
            box_entry_decodes(box_write_slot(d, i, p), i, q) ==> boxed_same(p, q),
{
    let d2 = box_write_slot(d, i, p);
    let o = box_entry_pos(i);
    let e = boxed_entry_bytes(p);
    assert(d2.len() == d.len());
    assert(d2[0] == d[0]);
    assert(d2[1 + i] == species_index(p.species));
    lemma_species_from_index_of_index(p.species);
    assert forall|k: int| 0 <= k < 33 implies d2[o + k] == e[k] by {}
    assert forall|k: int| 0 <= k < 11 implies d2[box_ot_pos(i) + k] == #[trigger] name_field(p.ot_name@)[k] by {}
    assert forall|k: int| 0 <= k < 11 implies d2[box_nick_pos(i) + k] == #[trigger] name_field(boxed_nickname_text(p))[k] by {}
    lemma_read_name_field(d2, box_ot_pos(i), p.ot_name@);
    lemma_read_name_field(d2, box_nick_pos(i), boxed_nickname_text(p));
    assert(d2.subrange(o + 8, o + 12) =~= p.moves@);
    assert(d2.subrange(o + 29, o + 33) =~= p.pp@);
    assert forall|q: BoxedPokemon| box_entry_decodes(d2, i, q) implies boxed_same(p, q) by {
        assert(q.exp == p.exp);
        assert(q.dvs == p.dvs);
    }
}


/// Writing a Pokémon into one slot of a box leaves every other slot as it
/// was: whether it can be read, whether it is listed, and what it holds.
#[verifier::spinoff_prover]
#[verifier::rlimit(100)]
pub proof fn lemma_box_set_keeps_other_slots(d: Seq<u8>, i: int, p: BoxedPokemon, j: int)
    requires
        0 <= i < BOX_CAPACITY,
        0 <= j < BOX_CAPACITY,
        i != j,
        d.len() >= BOX_SIZE,
    ensures
        box_get_ok(box_write_slot(d, i, p), j) == box_get_ok(d, j),
        box_slot_listed(box_write_slot(d, i, p), j) == box_slot_listed(d, j),
        forall|q: BoxedPokemon|
            box_entry_decodes(box_write_slot(d, i, p), j, q) == box_entry_decodes(d, j, q),
{
    let d2 = box_write_slot(d, i, p);
    let o = box_entry_pos(j);
    let ot = box_ot_pos(j);
    let nick = box_nick_pos(j);
    assert(d2.len() == d.len());
    assert(d2[0] == d[0]);
    assert(d2[1 + j] == d[1 + j]);
    assert forall|a: int| o <= a < o + 33 implies d2[a] == d[a] by {}
    assert(d2.subrange(o + 8, o + 12) =~= d.subrange(o + 8, o + 12));
    assert(d2.subrange(o + 29, o + 33) =~= d.subrange(o + 29, o + 33));
    assert(d2.skip(ot).take(11) =~= d.skip(ot).take(11));
    assert(d2.skip(nick).take(11) =~= d.skip(nick).take(11));
    lemma_text_prefix_take(d2.skip(ot), 11);
    lemma_text_prefix_take(d.skip(ot), 11);
    lemma_text_prefix_take(d2.skip(nick), 11);
    lemma_text_prefix_take(d.skip(nick), 11);
}


/// Where each field of a box entry lies in its 33 bytes, as the save format
/// lays it out: the species index, the current HP (two bytes, high byte
/// first, as every two-byte field), the level, the status, both types, the
/// catch rate, four moves, the original trainer's ID, three bytes of
/// experience, the stat experience of HP, Attack, Defense, Speed and
/// Special, the two DV bytes and four PP bytes.
pub proof fn lemma_box_entry_layout(d: Seq<u8>, i: int, p: BoxedPokemon)
    requires
        0 <= i,
        22 + 33 * i + 33 <= d.len(),
        box_entry_decodes(d, i, p),
    ensures
        ({
            let o = 22 + 33 * i;
            &&& species_from_index(d[o]) == Some(p.species)
            &&& p.hp == d[o + 1] * 256 + d[o + 2]
            &&& p.level == d[o + 3]
            &&& p.status == d[o + 4]
            &&& p.type1 == d[o + 5]
            &&& p.type2 == d[o + 6]
            &&& p.catch_rate == d[o + 7]
            &&& p.moves[0] == d[o + 8] && p.moves[1] == d[o + 9] && p.moves[2] == d[o + 10]
                && p.moves[3] == d[o + 11]
            &&& p.ot_id == d[o + 12] * 256 + d[o + 13]
            &&& p.exp == d[o + 14] * 65536 + d[o + 15] * 256 + d[o + 16]
            &&& p.hp_exp == d[o + 17] * 256 + d[o + 18]
            &&& p.attack_exp == d[o + 19] * 256 + d[o + 20]
            &&& p.defense_exp == d[o + 21] * 256 + d[o + 22]
            &&& p.speed_exp == d[o + 23] * 256 + d[o + 24]
            &&& p.special_exp == d[o + 25] * 256 + d[o + 26]
            &&& p.dvs.0 == d[o + 27] && p.dvs.1 == d[o + 28]
            &&& p.pp[0] == d[o + 29] && p.pp[1] == d[o + 30] && p.pp[2] == d[o + 31] && p.pp[3] == d[o + 32]
        }),
{
    let o = 22 + 33 * i;
    assert(p.moves@ =~= d.subrange(o + 8, o + 12));
    assert(p.pp@ =~= d.subrange(o + 29, o + 33));
    assert(p.moves@[0] == d[o + 8] && p.moves@[1] == d[o + 9] && p.moves@[2] == d[o + 10] && p.moves@[3] == d[o + 11]);
    assert(p.pp@[0] == d[o + 29] && p.pp@[1] == d[o + 30] && p.pp@[2] == d[o + 31] && p.pp@[3] == d[o + 32]);
}

/// Writing a box entry lays each field out where the save format has it:
/// each two-byte field high byte first, the experience's three bytes from
/// the highest, in the order `lemma_box_entry_layout` gives.
pub proof fn lemma_boxed_entry_bytes_layout(p: BoxedPokemon)
    ensures
        ({
            let e = boxed_entry_bytes(p);
            &&& e.len() == 33
            &&& e[0] == species_index(p.species)
            &&& e[1] == p.hp / 256 && e[2] == p.hp % 256
            &&& e[3] == p.level && e[4] == p.status && e[5] == p.type1 && e[6] == p.type2
            &&& e[7] == p.catch_rate
            &&& e[8] == p.moves[0] && e[9] == p.moves[1] && e[10] == p.moves[2] && e[11] == p.moves[3]
            &&& e[12] == p.ot_id / 256 && e[13] == p.ot_id % 256
            &&& e[14] == p.exp / 65536 % 256 && e[15] == p.exp / 256 % 256 && e[16] == p.exp % 256
            &&& e[17] == p.hp_exp / 256 && e[18] == p.hp_exp % 256
            &&& e[19] == p.attack_exp / 256 && e[20] == p.attack_exp % 256
            &&& e[21] == p.defense_exp / 256 && e[22] == p.defense_exp % 256
            &&& e[23] == p.speed_exp / 256 && e[24] == p.speed_exp % 256
            &&& e[25] == p.special_exp / 256 && e[26] == p.special_exp % 256
            &&& e[27] == p.dvs.0 && e[28] == p.dvs.1
            &&& e[29] == p.pp[0] && e[30] == p.pp[1] && e[31] == p.pp[2] && e[32] == p.pp[3]
        }),
{
}


/// Writing a Pokémon into slot `i` puts its species index at byte `1 + i` of
/// the species list, its entry at `22 + 33 i`, its original trainer's name
/// at `682 + 11 i` and its nickname (the species' name where it has none)
/// at `902 + 11 i`, and changes no other byte.
pub proof fn lemma_box_write_slot_layout(d: Seq<u8>, i: int, p: BoxedPokemon)
    requires
        0 <= i < BOX_CAPACITY,
        d.len() >= BOX_SIZE,
    ensures
        ({
            let d2 = box_write_slot(d, i, p);
            &&& d2.len() == d.len()
            &&& d2[1 + i] == species_index(p.species)
            &&& forall|k: int| 0 <= k < 33 ==> d2[22 + 33 * i + k] == #[trigger] boxed_entry_bytes(p)[k]
            &&& forall|k: int| 0 <= k < 11 ==> d2[682 + 11 * i + k] == #[trigger] name_field(p.ot_name@)[k]
            &&& forall|k: int| 0 <= k < 11 ==> d2[902 + 11 * i + k] == #[trigger] name_field(boxed_nickname_text(p))[k]
            &&& forall|a: int|
                0 <= a < d.len() && a != 1 + i && !(22 + 33 * i <= a < 22 + 33 * i + 33) && !(682 + 11 * i <= a
                    < 682 + 11 * i + 11) && !(902 + 11 * i <= a < 902 + 11 * i + 11) ==> #[trigger] d2[a] == d[a]
        }),
{
}

/// Where a slot's names are read from: the original trainer's name from
/// `682 + 11 i` and the nickname from `902 + 11 i`, no nickname when the
/// name there is the species' own.
pub proof fn lemma_box_names_layout(d: Seq<u8>, i: int, p: BoxedPokemon)
    requires
        box_entry_decodes(d, i, p),
    ensures
        p.ot_name@ == text_prefix(d.skip(682 + 11 * i), 11),
        text_prefix(d.skip(902 + 11 * i), 11) == species_name(p.species) ==> p.nickname is None,
        text_prefix(d.skip(902 + 11 * i), 11) != species_name(p.species) ==> (p.nickname matches Some(n) && n@
            == text_prefix(d.skip(902 + 11 * i), 11)),
{
}

} // verus!
