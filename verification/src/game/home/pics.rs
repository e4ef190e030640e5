use vstd::prelude::*;

use crate::cpu::Cpu;
use crate::game::ram::wram::{W_MON_H_INDEX, W_SPRITE_FLIPPED};
use crate::save_state::species::{species_dex_number, species_from_index, PokemonSpecies};

use super::copy2::pair;

verus! {

/// The bytes of a 7 × 7 tile sprite: 49 tiles of 16 bytes.
pub const SPRITE_BYTES: usize = 784;

/// The bytes of one row of a 7 × 7 tile sprite.
pub const SPRITE_ROW_BYTES: usize = 112;

/// Whether a sprite of `w` × `h` tiles is one that `center_pokemon_sprite`
/// moves: 5 × 5 or 6 × 6.
pub open spec fn is_framed(w: u8, h: u8) -> bool {
    (w == 5 && h == 5) || (w == 6 && h == 6)
}

/// The bytes of input that a `w` × `h` sprite needs.
pub open spec fn sprite_input_len(w: u8, h: u8) -> int {
    if is_framed(w, h) {
        w * w * 16
    } else {
        0
    }
}

/// Byte `o` of the 7 × 7 tile frame that `input`, a `w` × `h` sprite, is
/// centred in: a 5 × 5 or 6 × 6 sprite starts on the frame's second row,
/// against its right edge; a 7 × 7 sprite fills the frame (as far as the
/// input reaches); any other size leaves the frame empty.
pub open spec fn centered_byte(input: Seq<u8>, w: u8, h: u8, o: int) -> u8 {
    let row = o / SPRITE_ROW_BYTES as int;
    let col = o % SPRITE_ROW_BYTES as int;
    let left = (7 - w) * 16;
    if is_framed(w, h) {
        if 1 <= row <= w && left <= col {
            input[(row - 1) * w * 16 + col - left]
        } else {
            0
        }
    } else if w == 7 && h == 7 {
        if o < input.len() {
            input[o]
        } else {
            0
        }
    } else {
        0
    }
}

/// Places a `w` × `h` Pokémon sprite in a 7 × 7 tile frame, as the game
/// shows front sprites.
pub fn center_pokemon_sprite(input: &[u8], w: u8, h: u8) -> (res: [u8; 784])
    requires
        input@.len() >= sprite_input_len(w, h),
    ensures
        forall|o: int| 0 <= o < SPRITE_BYTES ==> #[trigger] res@[o] == centered_byte(input@, w, h, o),
{
    let mut sprite_data = [0u8; 784];
    if (w == 5 && h == 5) || (w == 6 && h == 6) {
        let n: usize = w as usize;
        let left: usize = (7 - n) * 16;
        let mut row: usize = 0;
        while row < n
            invariant
                n == w,
                is_framed(w, h),
                left == (7 - n) * 16,
                row <= n,
                input@.len() >= n * n * 16,
                forall|o: int|
                    0 <= o < SPRITE_BYTES ==> #[trigger] sprite_data@[o] == if 1 <= o / 112 <= row {
                        centered_byte(input@, w, h, o)
                    } else {
                        0
                    },
            decreases n - row,
        {
            let mut c: usize = 0;
            while c < n * 16
                invariant
                    n == w,
                    n <= 6,
                    is_framed(w, h),
                    left == (7 - n) * 16,
                    row < n,
                    c <= n * 16,
                    input@.len() >= n * n * 16,
                    forall|o: int|
                        0 <= o < SPRITE_BYTES ==> #[trigger] sprite_data@[o] == if 1 <= o / 112 <= row
                            || (o / 112 == row + 1 && left <= o % 112 < left + c) {
                            centered_byte(input@, w, h, o)
                        } else {
                            0
                        },
                decreases n * 16 - c,
            {
                assert(row * n * 16 + c < n * n * 16 && n * n * 16 <= 576) by (nonlinear_arith)
                    requires
                        row < n,
                        c < n * 16,
                        n <= 6,
                ;
                let dst = (row + 1) * SPRITE_ROW_BYTES + left + c;
                let src = row * n * 16 + c;
                sprite_data[dst] = input[src];
                proof {
                    assert(dst / 112 == row + 1);
                    assert(dst % 112 == left + c);
                }
                c = c + 1;
            }
            row = row + 1;
        }
    } else if w == 7 && h == 7 {
        let mut o: usize = 0;
        while o < SPRITE_BYTES && o < input.len()
            invariant
                w == 7 && h == 7,
                o <= SPRITE_BYTES,
                forall|p: int|
                    0 <= p < SPRITE_BYTES ==> #[trigger] sprite_data@[p] == if p < o {
                        centered_byte(input@, w, h, p)
                    } else {
                        0
                    },
            decreases SPRITE_BYTES - o,
        {
            sprite_data[o] = input[o];
            o = o + 1;
        }
    }
    sprite_data
}

/// `b` with its bits in the opposite order: a row of 8 pixels of a 2bpp
/// tile mirrored.
pub open spec fn reverse_bits(b: u8) -> u8 {
    (((b & 0x01) << 7u8) | ((b & 0x02) << 5u8) | ((b & 0x04) << 3u8) | ((b & 0x08) << 1u8) | ((b & 0x10)
        >> 1u8) | ((b & 0x20) >> 3u8) | ((b & 0x40) >> 5u8) | ((b & 0x80) >> 7u8)) as u8
}

/// `b` with its bits in the opposite order.
pub fn reverse_byte(b: u8) -> (res: u8)
    ensures
        res == reverse_bits(b),
{
    ((b & 0x01) << 7u8) | ((b & 0x02) << 5u8) | ((b & 0x04) << 3u8) | ((b & 0x08) << 1u8) | ((b & 0x10)
        >> 1u8) | ((b & 0x20) >> 3u8) | ((b & 0x40) >> 5u8) | ((b & 0x80) >> 7u8)
}

/// The address space with `frame` written from `dst` on.
pub open spec fn frame_written(bus: Seq<u8>, dst: int, frame: Seq<u8>) -> Seq<u8> {
    Seq::new(
        0x10000,
        |addr: int| if dst <= addr < dst + frame.len() { frame[addr - dst] } else { bus[addr] },
    )
}

/// The 7 × 7 tile frame of a `w` × `h` sprite.
pub open spec fn centered(input: Seq<u8>, w: u8, h: u8) -> Seq<u8> {
    Seq::new(SPRITE_BYTES as nat, |o: int| centered_byte(input, w, h, o))
}

/// Writes the `w` × `h` sprite `source`, centred in a 7 × 7 tile frame, at
/// DE, then returns.
pub fn write_front_sprite(cpu: &mut Cpu, source: &[u8], w: u8, h: u8)
    requires
        source@.len() >= sprite_input_len(w, h),
        pair(old(cpu).d, old(cpu).e) + SPRITE_BYTES <= 0x10000,
    ensures
        ({
            let bus = frame_written(old(cpu).bus(), pair(old(cpu).d, old(cpu).e), centered(source@, w, h));
            let sp = old(cpu).sp;
            &&& final(cpu).bus() == bus
            &&& *final(cpu) == (Cpu {
                pc: pair(bus[(sp + 1) % 0x10000], bus[sp as int]) as u16,
                sp: ((sp + 2) % 0x10000) as u16,
                wram: final(cpu).wram,
                mem: final(cpu).mem,
                ..*old(cpu)
            })
        }),
{
    let ghost c0 = *cpu;
    let sprite_data = center_pokemon_sprite(source, w, h);
    let de = cpu.de();
    proof {
        c0.lemma_bus_len();
        assert(cpu.bus() =~= frame_written(c0.bus(), de as int, sprite_data@.take(0)));
    }
    let mut offset: usize = 0;
    while offset < SPRITE_BYTES
        invariant
            offset <= SPRITE_BYTES,
            de == pair(c0.d, c0.e),
            de + SPRITE_BYTES <= 0x10000,
            sprite_data@.len() == SPRITE_BYTES,
            cpu.bus() == frame_written(c0.bus(), de as int, sprite_data@.take(offset as int)),
            cpu.only_memory_changed(&c0),
            c0.bus().len() == 0x10000,
        decreases SPRITE_BYTES - offset,
    {
        cpu.write_byte(de + offset as u16, sprite_data[offset]);
        offset = offset + 1;
        assert(cpu.bus() =~= frame_written(c0.bus(), de as int, sprite_data@.take(offset as int)));
    }
    assert(sprite_data@.take(SPRITE_BYTES as int) =~= centered(source@, w, h));
    cpu.pc = cpu.stack_pop();
}

/// The sprite bytes as the game shows them: mirrored when `flipped`.
pub open spec fn maybe_flipped(source: Seq<u8>, flipped: bool) -> Seq<u8> {
    if flipped {
        Seq::new(source.len(), |i: int| reverse_bits(source[i]))
    } else {
        source
    }
}

/// The width of a sprite whose dimensions byte is `dimensions`, and its
/// height.
pub open spec fn dim_w(dimensions: u8) -> u8 {
    dimensions / 16
}

pub open spec fn dim_h(dimensions: u8) -> u8 {
    dimensions % 16
}

/// Shows a Pokémon's decompressed front sprite: mirrored when wSpriteFlipped
/// is set, sized by `dimensions` (width in the high nibble, height in the
/// low), centred in a 7 × 7 tile frame written at DE; then returns.
pub fn write_mon_front_sprite(cpu: &mut Cpu, source: Vec<u8>, dimensions: u8)
    requires
        source@.len() >= sprite_input_len(dim_w(dimensions), dim_h(dimensions)),
        pair(old(cpu).d, old(cpu).e) + SPRITE_BYTES <= 0x10000,
    ensures
        ({
            let flipped = old(cpu).bus()[W_SPRITE_FLIPPED as int] != 0;
            let shown = maybe_flipped(source@, flipped);
            let bus = frame_written(
                old(cpu).bus(),
                pair(old(cpu).d, old(cpu).e),
                centered(shown, dim_w(dimensions), dim_h(dimensions)),
            );
            let sp = old(cpu).sp;
            &&& final(cpu).bus() == bus
            &&& *final(cpu) == (Cpu {
                pc: pair(bus[(sp + 1) % 0x10000], bus[sp as int]) as u16,
                sp: ((sp + 2) % 0x10000) as u16,
                wram: final(cpu).wram,
                mem: final(cpu).mem,
                ..*old(cpu)
            })
        }),
{
    let mut source_data = source;
    let flipped = cpu.read_byte(W_SPRITE_FLIPPED) != 0;
    if flipped {
        let ghost orig = source_data@;
        let mut i: usize = 0;
        while i < source_data.len()
            invariant
                i <= source_data@.len(),
                source_data@.len() == orig.len(),
                forall|j: int|
                    0 <= j < orig.len() ==> #[trigger] source_data@[j] == if j < i {
                        reverse_bits(orig[j])
                    } else {
                        orig[j]
                    },
            decreases source_data@.len() - i,
        {
            let b = reverse_byte(source_data[i]);
            source_data.set(i, b);
            i = i + 1;
        }
        assert(source_data@ =~= maybe_flipped(orig, true));
    }
    assert(dimensions >> 4u8 == dimensions / 16 && dimensions & 0xfu8 == dimensions % 16) by (bit_vector);
    write_front_sprite(cpu, &source_data, dimensions >> 4, dimensions & 0xf);
}


/// The indexes of the fossil Kabutops, the fossil Aerodactyl and the ghost,
/// whose pictures the Crystal ROM does not have, and where the game's own
/// ROM keeps those pictures.
pub const FOSSIL_KABUTOPS: u8 = 0xb6;

pub const FOSSIL_AERODACTYL: u8 = 0xb7;

pub const MON_GHOST: u8 = 0xb8;

pub const FOSSIL_KABUTOPS_PIC: usize = 0x02fb92;

pub const FOSSIL_AERODACTYL_PIC: usize = 0x0367a1;

pub const MON_GHOST_PIC: usize = 0x036920;

/// In the Crystal ROM: the table of picture pointers (a front and a back
/// pointer of three bytes for each Pokémon), the bank its banks count from,
/// the base data table and the size of one base data entry.
pub const POKEMON_PIC_POINTERS: usize = 0x120000;

pub const PICS_FIX: usize = 0x36;

pub const POKEMON_BASE_DATA: usize = 0x51424;

pub const BASE_DATA_SIZE: usize = 32;

/// The Pokédex number of the species with internal index `index`; 0 for an
/// index that is no species.
pub open spec fn index_to_pokedex(index: u8) -> u8 {
    match species_from_index(index) {
        Some(s) => species_dex_number(s),
        None => 0,
    }
}

/// The Pokédex number of the species with internal index `index`; 0 for an
/// index that is no species.
pub fn index_to_pokedex_number(index: u8) -> (res: u8)
    ensures
        res == index_to_pokedex(index),
{
    match PokemonSpecies::from_index(index) {
        Some(s) => s.pokedex_number(),
        None => 0,
    }
}

/// Where the Crystal ROM keeps the pointer to Pokémon `pokedex_no`'s front
/// (or back) picture.
pub open spec fn crystal_pic_entry(pokedex_no: int, back: bool) -> int {
    POKEMON_PIC_POINTERS + (pokedex_no - 1) * 6 + if back {
        3int
    } else {
        0int
    }
}

/// The offset in the Crystal ROM of Pokémon `pokedex_no`'s front (or back)
/// picture: the entry's bank, counted from `PICS_FIX`, and the address in
/// the bank that the entry's next two bytes give, low byte first.
pub open spec fn crystal_pic_offset(crystal_rom: Seq<u8>, pokedex_no: int, back: bool) -> int {
    let entry = crystal_pic_entry(pokedex_no, back);
    let bank = crystal_rom[entry] + PICS_FIX;
    let addr = crystal_rom[entry + 1] + crystal_rom[entry + 2] * 256;
    bank * 0x4000 + addr % 0x4000
}

/// The offset in the Crystal ROM of Pokémon `pokedex_no`'s compressed front
/// (or back) picture.
pub fn crystal_pokemon_sprite_offset(crystal_rom: &[u8], pokedex_no: usize, back: bool) -> (res: usize)
    requires
        1 <= pokedex_no,
        crystal_pic_entry(pokedex_no as int, back) + 2 < crystal_rom@.len(),
    ensures
        res == crystal_pic_offset(crystal_rom@, pokedex_no as int, back),
{
    let len = crystal_rom.len();
    assert(POKEMON_PIC_POINTERS + (pokedex_no - 1) * 6 + 2 < len);
    let mut offset = POKEMON_PIC_POINTERS + (pokedex_no - 1) * 6;
    if back {
        offset += 3;
    }
    let bank = (crystal_rom[offset] as usize) + PICS_FIX;
    let hi: usize = crystal_rom[offset + 2] as usize;
    let shifted: usize = hi << 8;
    assert(shifted == hi * 256) by (bit_vector)
        requires
            hi <= 255,
            shifted == hi << 8,
    ;
    let addr = crystal_rom[offset + 1] as usize + shifted;
    let low: usize = addr & 0x3fff;
    proof {
        assert(addr & 0x3fff == addr % 0x4000) by (bit_vector);
        assert((bank * 0x4000) as usize + low == ((bank * 0x4000) as usize) | low) by (bit_vector)
            requires
                low < 0x4000,
                bank < 0x200,
        ;
    }
    (bank * 0x4000) | low
}

/// Where the Crystal ROM keeps Pokémon `pokedex_no`'s base data.
pub open spec fn crystal_base_entry(pokedex_no: int) -> int {
    POKEMON_BASE_DATA + (pokedex_no - 1) * BASE_DATA_SIZE
}

/// Where a Pokémon's front picture comes from.
#[derive(Debug, Clone, Copy, PartialEq, Eq, Structural)]
pub enum FrontSpriteSource {
    /// A square picture at this offset of the game's own ROM, in its own
    /// compression.
    Yellow(usize),
    /// A picture at this offset of the Crystal ROM, in that game's
    /// compression, whose size in tiles the dimensions byte gives.
    Crystal(usize, u8),
    /// No species the Pokédex knows: the game's own routine goes on.
    Unknown,
}

/// Whether the Crystal ROM `crystal_rom` has the base data and picture
/// pointer that loading the picture of the Pokémon with index `index` reads,
/// and the base data is that species': the game stops otherwise.
pub open spec fn crystal_has_picture(index: u8, crystal_rom: Seq<u8>) -> bool {
    let dex = index_to_pokedex(index);
    (index != FOSSIL_KABUTOPS && index != FOSSIL_AERODACTYL && index != MON_GHOST && dex != 0) ==> {
        &&& crystal_base_entry(dex as int) + 17 < crystal_rom.len()
        &&& crystal_rom[crystal_base_entry(dex as int)] == dex
        &&& crystal_pic_entry(dex as int, false) + 2 < crystal_rom.len()
    }
}

/// Where the front picture of the Pokémon with index `index` comes from.
pub open spec fn front_sprite_source_of(index: u8, crystal_rom: Seq<u8>) -> FrontSpriteSource {
    let dex = index_to_pokedex(index);
    if index == FOSSIL_KABUTOPS {
        FrontSpriteSource::Yellow(FOSSIL_KABUTOPS_PIC)
    } else if index == FOSSIL_AERODACTYL {
        FrontSpriteSource::Yellow(FOSSIL_AERODACTYL_PIC)
    } else if index == MON_GHOST {
        FrontSpriteSource::Yellow(MON_GHOST_PIC)
    } else if dex == 0 {
        FrontSpriteSource::Unknown
    } else {
        FrontSpriteSource::Crystal(
            crystal_pic_offset(crystal_rom, dex as int, false) as usize,
            crystal_rom[crystal_base_entry(dex as int) + 17],
        )
    }
}

/// Where the front picture of the Pokémon whose index wMonHIndex holds comes
/// from.
pub fn front_sprite_source(cpu: &Cpu, crystal_rom: &[u8]) -> (res: FrontSpriteSource)
    requires
        crystal_has_picture(cpu.bus()[W_MON_H_INDEX as int], crystal_rom@),
    ensures
        res == front_sprite_source_of(cpu.bus()[W_MON_H_INDEX as int], crystal_rom@),
{
    let pokemon_index = cpu.read_byte(W_MON_H_INDEX);
    let pokedex_no = index_to_pokedex_number(pokemon_index);
    if pokemon_index == FOSSIL_KABUTOPS {
        FrontSpriteSource::Yellow(FOSSIL_KABUTOPS_PIC)
    } else if pokemon_index == FOSSIL_AERODACTYL {
        FrontSpriteSource::Yellow(FOSSIL_AERODACTYL_PIC)
    } else if pokemon_index == MON_GHOST {
        FrontSpriteSource::Yellow(MON_GHOST_PIC)
    } else if pokedex_no == 0 {
        FrontSpriteSource::Unknown
    } else {
        let base = POKEMON_BASE_DATA + (pokedex_no as usize - 1) * BASE_DATA_SIZE;
        let dimensions = crystal_rom[base + 17];
        FrontSpriteSource::Crystal(crystal_pokemon_sprite_offset(crystal_rom, pokedex_no as usize, false), dimensions)
    }
}

/// The side, in tiles, of the largest square picture of at most `n` tiles,
/// counting up from `w` and stopping at 255.
pub open spec fn side_from(n: int, w: int) -> int
    decreases 255 - w,
{
    if w < 255 && (w + 1) * (w + 1) <= n {
        side_from(n, w + 1)
    } else {
        w
    }
}

/// The side, in tiles, of a square picture of `n` tiles: the integer square
/// root of `n`, at most 255.
pub open spec fn square_side(n: int) -> int {
    side_from(n, 0)
}

/// The square side does not overshoot the tile count and is the largest
/// that does not, up to 255.
pub proof fn lemma_side_from(n: int, w: int)
    requires
        0 <= w <= 255,
        w * w <= n,
    ensures
        0 <= side_from(n, w) <= 255,
        side_from(n, w) * side_from(n, w) <= n,
        side_from(n, w) == 255 || (side_from(n, w) + 1) * (side_from(n, w) + 1) > n,
    decreases 255 - w,
{
    if w < 255 && (w + 1) * (w + 1) <= n {
        lemma_side_from(n, w + 1);
    }
}

/// The side, in tiles, of the square picture made of `len` bytes (16 per
/// tile), at most 255.
pub fn sprite_side(len: usize) -> (side: u8)
    ensures
        side == square_side(len as int / 16),
{
    let n: u64 = (len / 16) as u64;
    let mut w: u64 = 0;
    loop
        invariant_except_break
            w <= 255,
            n == len as int / 16,
            side_from(n as int, w as int) == square_side(n as int),
        ensures
            w <= 255,
            w == square_side(n as int),
        decreases 255 - w,
    {
        if w >= 255 {
            break;
        }
        let next = w + 1;
        assert(next * next <= 0x10000) by (nonlinear_arith)
            requires
                next <= 256,
        ;
        if next * next > n {
            break;
        }
        w = next;
    }
    w as u8
}

/// What `pokemon_sprite_compression::gen1::decompress` makes of `bytes`, a
/// picture in the game's own compression: `None` where it panics.
pub uninterp spec fn gen1_decompressed(bytes: Seq<u8>) -> Option<Seq<u8>>;

/// What `pokemon_sprite_compression::gen2::decompress` makes of `bytes`, a
/// picture in the Crystal ROM's compression: `None` where it panics.
pub uninterp spec fn gen2_decompressed(bytes: Seq<u8>) -> Option<Seq<u8>>;

/// Decompresses a picture in the game's own compression with
/// `pokemon_sprite_compression::gen1::decompress`, which reads the stream
/// from the start of `bytes` and returns the picture's tiles. It indexes the
/// input and its buffers unchecked and panics on a stream that runs past
/// them; `requires` leaves those inputs out. What it returns is named, not
/// stated.
#[verifier::external_body]
fn decompress_gen1(bytes: &[u8]) -> (res: Vec<u8>)
    requires
        gen1_decompressed(bytes@) is Some,
    ensures
        res@ == gen1_decompressed(bytes@)->0,
{
    pokemon_sprite_compression::gen1::decompress(bytes)
}

/// Decompresses a picture in the Crystal ROM's compression with
/// `pokemon_sprite_compression::gen2::decompress`, which reads commands from
/// the start of `bytes` up to a 0xff byte and returns the bytes they make. It
/// indexes the input and its output unchecked and panics on a stream that
/// runs past them; `requires` leaves those inputs out. What it returns is
/// named, not stated.
#[verifier::external_body]
fn decompress_gen2(bytes: &[u8]) -> (res: Vec<u8>)
    requires
        gen2_decompressed(bytes@) is Some,
    ensures
        res@ == gen2_decompressed(bytes@)->0,
{
    pokemon_sprite_compression::gen2::decompress(bytes)
}

/// The decompressed picture at `offset` of `rom`, in the game's own
/// compression.
pub open spec fn yellow_picture(rom: Seq<u8>, offset: int) -> Option<Seq<u8>> {
    gen1_decompressed(rom.skip(offset))
}

/// The decompressed picture at `offset` of `crystal_rom`, in the Crystal
/// ROM's compression.
pub open spec fn crystal_picture(crystal_rom: Seq<u8>, offset: int) -> Option<Seq<u8>> {
    gen2_decompressed(crystal_rom.skip(offset))
}

/// Pokémon `pokedex_no`'s front (or back) picture, decompressed from the
/// Crystal ROM.
pub fn read_crystal_pokemon_sprite(crystal_rom: &[u8], pokedex_no: usize, back: bool) -> (res: Vec<u8>)
    requires
        1 <= pokedex_no,
        crystal_pic_entry(pokedex_no as int, back) + 2 < crystal_rom@.len(),
        crystal_pic_offset(crystal_rom@, pokedex_no as int, back) <= crystal_rom@.len(),
        crystal_picture(crystal_rom@, crystal_pic_offset(crystal_rom@, pokedex_no as int, back)) is Some,
    ensures
        res@ == crystal_picture(crystal_rom@, crystal_pic_offset(crystal_rom@, pokedex_no as int, back))->0,
{
    let offset = crystal_pokemon_sprite_offset(crystal_rom, pokedex_no, back);
    let bytes = vstd::slice::slice_subrange(crystal_rom, offset, crystal_rom.len());
    assert(bytes@ =~= crystal_rom@.skip(offset as int));
    decompress_gen2(bytes)
}

/// Whether the front picture of the Pokémon whose index wMonHIndex holds can
/// be loaded as the game does: the Crystal ROM has its entries, the picture
/// decompresses (from the game's ROM `rom` or from the Crystal ROM) to enough
/// bytes for its size, the frame fits below the end of the address space at
/// DE, and, for an index that is no species, the program counter and the
/// cycle count can go on.
pub open spec fn front_picture_loadable(cpu: Cpu, crystal_rom: Seq<u8>) -> bool {
    let index = cpu.bus()[W_MON_H_INDEX as int];
    &&& crystal_has_picture(index, crystal_rom)
    &&& match front_sprite_source_of(index, crystal_rom) {
        FrontSpriteSource::Yellow(offset) => {
            &&& offset <= cpu.rom@.len()
            &&& yellow_picture(cpu.rom@, offset as int) is Some
            &&& pair(cpu.d, cpu.e) + SPRITE_BYTES <= 0x10000
        },
        FrontSpriteSource::Crystal(offset, dimensions) => {
            &&& offset <= crystal_rom.len()
            &&& crystal_picture(crystal_rom, offset as int) is Some
            &&& crystal_picture(crystal_rom, offset as int)->0.len() >= sprite_input_len(
                dim_w(dimensions),
                dim_h(dimensions),
            )
            &&& pair(cpu.d, cpu.e) + SPRITE_BYTES <= 0x10000
        },
        FrontSpriteSource::Unknown => cpu.pc < 0xffff && cpu.cycles + 16 <= u64::MAX,
    }
}

/// The front picture of the Pokémon whose index wMonHIndex holds, as the game
/// shows it. The fossil Kabutops, fossil Aerodactyl and ghost pictures come
/// from the game's own ROM and are square, their side taken from their size;
/// every other species' picture comes from the Crystal ROM, is mirrored when
/// wSpriteFlipped is set and is sized by the dimensions byte of its base
/// data. Either is centred in a 7 × 7 tile frame written at DE, and the
/// routine returns. For an index that is no species, DE is pushed and the
/// game's own routine goes on at the next instruction.
pub fn load_mon_front_sprite(cpu: &mut Cpu, crystal_rom: &[u8])
    requires
        front_picture_loadable(*old(cpu), crystal_rom@),
    ensures
        ({
            let bus0 = old(cpu).bus();
            let sp = old(cpu).sp;
            let de = pair(old(cpu).d, old(cpu).e);
            match front_sprite_source_of(bus0[W_MON_H_INDEX as int], crystal_rom@) {
                FrontSpriteSource::Yellow(offset) => {
                    let data = yellow_picture(old(cpu).rom@, offset as int)->0;
                    let side = square_side(data.len() as int / 16) as u8;
                    let bus = frame_written(bus0, de, centered(data, side, side));
                    &&& final(cpu).bus() == bus
                    &&& *final(cpu) == (Cpu {
                        pc: pair(bus[(sp + 1) % 0x10000], bus[sp as int]) as u16,
                        sp: ((sp + 2) % 0x10000) as u16,
                        wram: final(cpu).wram,
                        mem: final(cpu).mem,
                        ..*old(cpu)
                    })
                },
                FrontSpriteSource::Crystal(offset, dimensions) => {
                    let flipped = bus0[W_SPRITE_FLIPPED as int] != 0;
                    let shown = maybe_flipped(crystal_picture(crystal_rom@, offset as int)->0, flipped);
                    let bus = frame_written(bus0, de, centered(shown, dim_w(dimensions), dim_h(dimensions)));
                    &&& final(cpu).bus() == bus
                    &&& *final(cpu) == (Cpu {
                        pc: pair(bus[(sp + 1) % 0x10000], bus[sp as int]) as u16,
                        sp: ((sp + 2) % 0x10000) as u16,
                        wram: final(cpu).wram,
                        mem: final(cpu).mem,
                        ..*old(cpu)
                    })
                },
                FrontSpriteSource::Unknown => {
                    &&& final(cpu).bus() == bus0.update((sp - 1) % 0x10000, old(cpu).d).update(
                        (sp - 2) % 0x10000,
                        old(cpu).e,
                    )
                    &&& *final(cpu) == (Cpu {
                        pc: (old(cpu).pc + 1) as u16,
                        sp: ((sp - 2) % 0x10000) as u16,
                        cycles: (old(cpu).cycles + 16) as u64,
                        wram: final(cpu).wram,
                        mem: final(cpu).mem,
                        ..*old(cpu)
                    })
                },
            }
        }),
{
    let source = front_sprite_source(cpu, crystal_rom);
    match source {
        FrontSpriteSource::Yellow(offset) => {
            let rom = cpu.rom.as_slice();
            let bytes = vstd::slice::slice_subrange(rom, offset, rom.len());
            assert(bytes@ =~= cpu.rom@.skip(offset as int));
            let data = decompress_gen1(bytes);
            let side = sprite_side(data.len());
            proof {
                lemma_side_from(data@.len() as int / 16, 0);
                assert(side * side * 16 <= data@.len()) by (nonlinear_arith)
                    requires
                        side * side <= data@.len() / 16,
                ;
            }
            write_front_sprite(cpu, &data, side, side);
        },
        FrontSpriteSource::Crystal(offset, dimensions) => {
            let bytes = vstd::slice::slice_subrange(crystal_rom, offset, crystal_rom.len());
            assert(bytes@ =~= crystal_rom@.skip(offset as int));
            let data = decompress_gen2(bytes);
            write_mon_front_sprite(cpu, data, dimensions);
        },
        FrontSpriteSource::Unknown => {
            let de = cpu.de();
            cpu.stack_push(de);
            cpu.pc = cpu.pc + 1;
            cpu.cycle(16);
        },
    }
}

} // verus!
