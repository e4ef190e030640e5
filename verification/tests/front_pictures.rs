use rustic_yellow::cpu::Cpu;
use rustic_yellow::game::home::pics::{
    center_pokemon_sprite, crystal_pokemon_sprite_offset, front_sprite_source,
    index_to_pokedex_number, load_mon_front_sprite, read_crystal_pokemon_sprite, sprite_side,
    FrontSpriteSource, BASE_DATA_SIZE, POKEMON_BASE_DATA, POKEMON_PIC_POINTERS,
};
use rustic_yellow::save_state::species::PokemonSpecies;

const PIKACHU_INDEX: u8 = 84;
const PIKACHU_DEX: usize = 25;

/// A Crystal ROM with only Pikachu's base data (with the dimensions byte
/// `dimensions`) and picture pointers in it.
fn crystal_rom(dimensions: u8) -> Vec<u8> {
    let mut rom = vec![0u8; POKEMON_PIC_POINTERS + 6 * 251];
    let base = POKEMON_BASE_DATA + (PIKACHU_DEX - 1) * BASE_DATA_SIZE;
    rom[base] = PIKACHU_DEX as u8;
    rom[base + 17] = dimensions;
    let entry = POKEMON_PIC_POINTERS + (PIKACHU_DEX - 1) * 6;
    rom[entry..entry + 6].copy_from_slice(&[0x01, 0x34, 0x52, 0x02, 0xff, 0x7f]);
    rom
}

/// Where `crystal_rom` puts Pikachu's front picture.
const PIKACHU_FRONT: usize = 0x37 * 0x4000 + 0x1234;

/// `data` in the Crystal ROM's compression: one long literal command, then
/// the end byte.
fn gen2_literal(data: &[u8]) -> Vec<u8> {
    let n = data.len() - 1;
    let mut out = vec![0xe0 | (n >> 8) as u8, (n & 0xff) as u8];
    out.extend_from_slice(data);
    out.push(0xff);
    out
}

/// A `w` × `h` tile picture in the game's own compression whose bit planes
/// are all data packets of the bit pair 01.
fn gen1_stream(w: u8, h: u8) -> Vec<u8> {
    let mut bits = Vec::new();
    let mut push = |value: u32, count: u32| {
        for k in (0..count).rev() {
            bits.push((value >> k) & 1 == 1);
        }
    };
    push(w as u32, 4);
    push(h as u32, 4);
    push(0, 1);
    let groups = w as u32 * 8 * h as u32 * 4;
    push(1, 1);
    for _ in 0..groups {
        push(1, 2);
    }
    push(0, 1);
    push(1, 1);
    for _ in 0..groups {
        push(1, 2);
    }
    let mut out = vec![0u8; (bits.len() + 7) / 8 + 1];
    for (i, bit) in bits.iter().enumerate() {
        if *bit {
            out[i / 8] |= 0x80 >> (i % 8);
        }
    }
    out
}

fn machine(index: u8) -> Cpu {
    let mut cpu = Cpu::new(vec![0u8; 0x8000], PokemonSpecies::Pikachu);
    cpu.write_byte(0xd0b7, index);
    cpu.sp = 0xdff0;
    cpu.write_byte(0xdff0, 0x21);
    cpu.write_byte(0xdff1, 0x43);
    cpu.set_de(0x9000);
    cpu
}

fn numbered(len: usize) -> Vec<u8> {
    (0..len).map(|i| (i % 251) as u8 + 1).collect()
}

#[test]
fn index_to_pokedex_number_follows_the_species_table() {
    assert_eq!(index_to_pokedex_number(PIKACHU_INDEX), 25);
    assert_eq!(index_to_pokedex_number(1), 112);
    assert_eq!(index_to_pokedex_number(0), 0);
    assert_eq!(index_to_pokedex_number(0xb6), 0);
    assert_eq!(index_to_pokedex_number(0xff), 0);
}

#[test]
fn crystal_picture_offsets_count_banks_from_the_fix() {
    let rom = crystal_rom(0x55);
    assert_eq!(crystal_pokemon_sprite_offset(&rom, PIKACHU_DEX, false), 0x37 * 0x4000 + 0x1234);
    assert_eq!(crystal_pokemon_sprite_offset(&rom, PIKACHU_DEX, true), 0x38 * 0x4000 + 0x3fff);
}

#[test]
fn front_sprite_source_picks_the_rom_by_species() {
    let rom = crystal_rom(0x66);
    assert_eq!(front_sprite_source(&machine(0xb6), &rom), FrontSpriteSource::Yellow(0x02fb92));
    assert_eq!(front_sprite_source(&machine(0xb7), &rom), FrontSpriteSource::Yellow(0x0367a1));
    assert_eq!(front_sprite_source(&machine(0xb8), &rom), FrontSpriteSource::Yellow(0x036920));
    assert_eq!(front_sprite_source(&machine(0), &rom), FrontSpriteSource::Unknown);
    assert_eq!(
        front_sprite_source(&machine(PIKACHU_INDEX), &rom),
        FrontSpriteSource::Crystal(0x37 * 0x4000 + 0x1234, 0x66)
    );
}

#[test]
fn sprite_side_is_the_square_root_of_the_tile_count() {
    assert_eq!(sprite_side(0), 0);
    assert_eq!(sprite_side(15), 0);
    assert_eq!(sprite_side(16), 1);
    assert_eq!(sprite_side(399), 4);
    assert_eq!(sprite_side(400), 5);
    assert_eq!(sprite_side(576), 6);
    assert_eq!(sprite_side(784), 7);
    assert_eq!(sprite_side(16 * 255 * 255), 255);
    assert_eq!(sprite_side(16 * 256 * 256), 255);
}

#[test]
fn read_crystal_pokemon_sprite_decompresses_the_front_picture() {
    let data = numbered(576);
    let mut rom = crystal_rom(0x66);
    let stream = gen2_literal(&data);
    rom[PIKACHU_FRONT..PIKACHU_FRONT + stream.len()].copy_from_slice(&stream);
    assert_eq!(read_crystal_pokemon_sprite(&rom, PIKACHU_DEX, false), data);
}

#[test]
fn own_rom_pictures_are_square_and_centred() {
    let mut rom = vec![0u8; 0x036920];
    let stream = gen1_stream(5, 5);
    rom.extend_from_slice(&stream);
    let expected = pokemon_sprite_compression::gen1::decompress(&stream);
    assert_eq!(expected.len(), 400);
    let frame = center_pokemon_sprite(&expected, 5, 5);

    let mut cpu = Cpu::new(rom, PokemonSpecies::Pikachu);
    cpu.write_byte(0xd0b7, 0xb8);
    cpu.sp = 0xdff0;
    cpu.write_byte(0xdff0, 0x21);
    cpu.write_byte(0xdff1, 0x43);
    cpu.set_de(0x9000);
    load_mon_front_sprite(&mut cpu, &crystal_rom(0x77));
    for (i, byte) in frame.iter().enumerate() {
        assert_eq!(cpu.read_byte(0x9000 + i as u16), *byte);
    }
    assert_eq!(cpu.read_byte(0x9000), 0);
    assert_eq!(cpu.pc, 0x4321);
    assert_eq!(cpu.sp, 0xdff2);
}

#[test]
fn crystal_pictures_are_sized_by_their_dimensions_and_mirrored() {
    let data = numbered(576);
    let mut rom = crystal_rom(0x66);
    let stream = gen2_literal(&data);
    rom[PIKACHU_FRONT..PIKACHU_FRONT + stream.len()].copy_from_slice(&stream);

    let mut cpu = machine(PIKACHU_INDEX);
    cpu.write_byte(0xd0a9, 1);
    load_mon_front_sprite(&mut cpu, &rom);
    assert_eq!(cpu.read_byte(0x9000 + 8 * 16), data[0].reverse_bits());
    assert_eq!(cpu.read_byte(0x9000 + 7 * 16), 0);
    assert_eq!(cpu.pc, 0x4321);

    let mut cpu = machine(PIKACHU_INDEX);
    cpu.write_byte(0xd0a9, 0);
    load_mon_front_sprite(&mut cpu, &rom);
    assert_eq!(cpu.read_byte(0x9000 + 8 * 16), data[0]);
    assert_eq!(cpu.read_byte(0x9000 + 48 * 16 + 15), data[575]);
}

#[test]
fn unknown_index_pushes_de_and_goes_on() {
    let mut cpu = machine(0);
    cpu.pc = 0x1500;
    load_mon_front_sprite(&mut cpu, &crystal_rom(0x55));
    assert_eq!(cpu.sp, 0xdfee);
    assert_eq!(cpu.read_byte(0xdfef), 0x90);
    assert_eq!(cpu.read_byte(0xdfee), 0x00);
    assert_eq!(cpu.pc, 0x1501);
    assert_eq!(cpu.cycles, 16);
    assert_eq!(cpu.read_byte(0x9000), 0);
}
