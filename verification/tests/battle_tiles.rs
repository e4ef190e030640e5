use std::io::Cursor;

use image::{DynamicImage, GrayImage, ImageFormat, Luma};
use rustic_yellow::cpu::Cpu;
use rustic_yellow::game::home::load_font::{
    load_hp_bar_and_status_tile_patterns, png_to_2bpp, try_load_hp_bar_and_status_tile_patterns,
};
use rustic_yellow::save_state::species::PokemonSpecies;

/// A grey PNG of `w` × `h` pixels, dark on the left half of each tile and
/// mid-grey on the right half.
fn png(w: u32, h: u32) -> Vec<u8> {
    let img = GrayImage::from_fn(w, h, |x, _| if x % 8 < 4 { Luma([0]) } else { Luma([100]) });
    let mut out = Cursor::new(Vec::new());
    DynamicImage::ImageLuma8(img).write_to(&mut out, ImageFormat::Png).unwrap();
    out.into_inner()
}

/// A PNG whose first row is black and the rest white.
fn striped_png() -> Vec<u8> {
    let img = GrayImage::from_fn(8, 8, |_, y| if y == 0 { Luma([0]) } else { Luma([255]) });
    let mut out = Cursor::new(Vec::new());
    DynamicImage::ImageLuma8(img).write_to(&mut out, ImageFormat::Png).unwrap();
    out.into_inner()
}

fn machine() -> Cpu {
    let mut cpu = Cpu::new(vec![0u8; 0x8000], PokemonSpecies::Pikachu);
    cpu.sp = 0xdff0;
    cpu.write_byte(0xdff0, 0x34);
    cpu.write_byte(0xdff1, 0x12);
    cpu
}

#[test]
fn png_to_2bpp_gives_two_bytes_per_tile_row() {
    let tiles = png_to_2bpp(&png(8, 8)).unwrap();
    assert_eq!(tiles, vec![0xf0, 0xff].repeat(8));

    let tiles = png_to_2bpp(&striped_png()).unwrap();
    let mut expected = vec![0xff, 0xff];
    expected.extend([0u8; 14]);
    assert_eq!(tiles, expected);

    let tiles = png_to_2bpp(&png(16, 8)).unwrap();
    assert_eq!(tiles.len(), 32);
}

#[test]
fn png_to_2bpp_refuses_what_is_not_a_png() {
    assert!(png_to_2bpp(b"not a picture").is_err());
    assert!(png_to_2bpp(&[]).is_err());
}

#[test]
fn battle_tiles_go_to_their_tile_numbers_and_the_routine_returns() {
    let mut cpu = machine();
    load_hp_bar_and_status_tile_patterns(&mut cpu, &png(16, 8), &striped_png());
    for i in 0..32u16 {
        let expected = if i % 2 == 0 { 0xf0 } else { 0xff };
        assert_eq!(cpu.read_byte(0x9000 + 16 * 0x62 + i), expected);
    }
    assert_eq!(cpu.read_byte(0x9000 + 16 * 0x62 + 32), 0);
    assert_eq!(cpu.read_byte(0x8800 + 16 * 0x40), 0xff);
    assert_eq!(cpu.read_byte(0x8800 + 16 * 0x40 + 1), 0xff);
    assert_eq!(cpu.read_byte(0x8800 + 16 * 0x40 + 2), 0);
    assert_eq!(cpu.read_byte(0x8800 + 16 * 0x40 - 1), 0);
    assert_eq!(cpu.pc, 0x1234);
    assert_eq!(cpu.sp, 0xdff2);
}

#[test]
fn try_load_loads_what_decodes_to_whole_tiles() {
    let mut cpu = machine();
    assert!(try_load_hp_bar_and_status_tile_patterns(&mut cpu, &png(8, 8), &png(8, 16)));
    assert_eq!(cpu.read_byte(0x9620), 0xf0);
    assert_eq!(cpu.read_byte(0x8c00 + 31), 0xff);
    assert_eq!(cpu.pc, 0x1234);
}

#[test]
fn try_load_leaves_the_machine_alone_on_a_bad_picture() {
    let mut cpu = machine();
    assert!(!try_load_hp_bar_and_status_tile_patterns(&mut cpu, b"junk", &png(8, 8)));
    assert!(!try_load_hp_bar_and_status_tile_patterns(&mut cpu, &png(8, 8), &png(7, 8)));
    assert!(!try_load_hp_bar_and_status_tile_patterns(&mut cpu, &png(12, 8), &png(8, 8)));
    assert_eq!(cpu.read_byte(0x9620), 0);
    assert_eq!(cpu.read_byte(0x8c00), 0);
    assert_eq!(cpu.pc, 0);
    assert_eq!(cpu.sp, 0xdff0);
}
