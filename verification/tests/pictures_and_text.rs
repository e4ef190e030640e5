use rustic_yellow::cpu::Cpu;
use rustic_yellow::game::home::pics::{
    center_pokemon_sprite, reverse_byte, write_front_sprite, write_mon_front_sprite,
};
use rustic_yellow::game::home::text::{place_char, place_string, text_box_border};
use rustic_yellow::gpu::{GpuAtlas, GpuLayer, GpuTile};
use rustic_yellow::save_state::species::PokemonSpecies;
use rustic_yellow::sound2::{pikachu_cry_range, pikachu_cry_sample, Music};

fn numbered(len: usize) -> Vec<u8> {
    (0..len).map(|i| (i % 251) as u8 + 1).collect()
}

#[test]
fn center_5x5_starts_on_the_second_row_against_the_right_edge() {
    let input = numbered(400);
    let out = center_pokemon_sprite(&input, 5, 5);
    for tile in 0..49 {
        let (ty, tx) = (tile / 7, tile % 7);
        for k in 0..16 {
            let expected = if (1..=5).contains(&ty) && tx >= 2 {
                input[((ty - 1) * 5 + tx - 2) * 16 + k]
            } else {
                0
            };
            assert_eq!(out[tile * 16 + k], expected);
        }
    }
    assert_eq!(out[9 * 16], input[0]);
    assert_eq!(out[41 * 16 + 15], input[399]);
}

#[test]
fn center_6x6_and_7x7() {
    let input = numbered(576);
    let out = center_pokemon_sprite(&input, 6, 6);
    assert_eq!(&out[..8 * 16], &[0u8; 128][..]);
    assert_eq!(out[8 * 16], input[0]);
    assert_eq!(out[14 * 16], 0);
    assert_eq!(out[15 * 16], input[6 * 16]);
    assert_eq!(out[48 * 16 + 15], input[575]);

    let input = numbered(784);
    assert_eq!(center_pokemon_sprite(&input, 7, 7).to_vec(), input);

    let short = numbered(100);
    let out = center_pokemon_sprite(&short, 7, 7);
    assert_eq!(&out[..100], &short[..]);
    assert_eq!(out[100], 0);
}

#[test]
fn center_unknown_size_is_blank() {
    let input = numbered(784);
    assert_eq!(center_pokemon_sprite(&input, 4, 4), [0u8; 784]);
    assert_eq!(center_pokemon_sprite(&input, 5, 6), [0u8; 784]);
}

#[test]
fn reverse_byte_mirrors_the_bits() {
    assert_eq!(reverse_byte(0b0000_0001), 0b1000_0000);
    assert_eq!(reverse_byte(0b1100_1010), 0b0101_0011);
    assert_eq!(reverse_byte(0xff), 0xff);
    for b in 0..=255u8 {
        assert_eq!(reverse_byte(b), b.reverse_bits());
        assert_eq!(reverse_byte(reverse_byte(b)), b);
    }
}

#[test]
fn front_sprite_is_written_at_de_and_mirrored_when_asked() {
    let mut cpu = Cpu::new(vec![0u8; 0x8000], PokemonSpecies::Pikachu);
    cpu.sp = 0xdff0;
    cpu.write_byte(0xdff0, 0x78);
    cpu.write_byte(0xdff1, 0x56);
    cpu.set_de(0x9000);
    let input = numbered(784);
    write_front_sprite(&mut cpu, &input, 7, 7);
    for (i, byte) in input.iter().enumerate() {
        assert_eq!(cpu.read_byte(0x9000 + i as u16), *byte);
    }
    assert_eq!(cpu.pc, 0x5678);
    assert_eq!(cpu.sp, 0xdff2);

    let mut cpu = Cpu::new(vec![0u8; 0x8000], PokemonSpecies::Pikachu);
    cpu.set_de(0x9000);
    cpu.write_byte(0xd0a9, 1);
    let input = numbered(400);
    write_mon_front_sprite(&mut cpu, input.clone(), 0x55);
    assert_eq!(cpu.read_byte(0x9000 + 9 * 16), input[0].reverse_bits());
    assert_eq!(cpu.read_byte(0x9000), 0);

    let mut cpu = Cpu::new(vec![0u8; 0x8000], PokemonSpecies::Pikachu);
    cpu.set_de(0x9000);
    cpu.write_byte(0xd0a9, 0);
    write_mon_front_sprite(&mut cpu, input.clone(), 0x55);
    assert_eq!(cpu.read_byte(0x9000 + 9 * 16), input[0]);
}

#[test]
fn text_box_border_draws_corners_edges_and_inside() {
    let mut layer = GpuLayer::new();
    text_box_border(&mut layer, 1, 2, 3, 1);
    let tile = |x, y| Some(GpuTile::new(GpuAtlas::BoxBorder, x, y));
    assert_eq!(layer.background(1, 2), tile(0, 0));
    assert_eq!(layer.background(5, 2), tile(2, 0));
    assert_eq!(layer.background(1, 4), tile(0, 2));
    assert_eq!(layer.background(5, 4), tile(2, 2));
    assert_eq!(layer.background(1, 3), tile(0, 1));
    assert_eq!(layer.background(5, 3), tile(2, 1));
    assert_eq!(layer.background(3, 2), tile(1, 0));
    assert_eq!(layer.background(3, 4), tile(1, 2));
    assert_eq!(layer.background(3, 3), tile(1, 1));
    assert_eq!(layer.background(0, 2), None);
    assert_eq!(layer.background(6, 2), None);
    assert_eq!(layer.background(1, 5), None);
}

#[test]
fn characters_map_to_the_font() {
    let mut layer = GpuLayer::new();
    let font = |x, y| Some(GpuTile::new(GpuAtlas::Font, x, y));
    place_char(&mut layer, 0, 0, 'C');
    assert_eq!(layer.background(0, 0), font(2, 0));
    place_char(&mut layer, 1, 0, 'R');
    assert_eq!(layer.background(1, 0), font(1, 1));
    place_char(&mut layer, 2, 0, 'é');
    assert_eq!(layer.background(2, 0), font(10, 3));
    place_char(&mut layer, 3, 0, '▶');
    assert_eq!(layer.background(3, 0), font(13, 6));
    place_char(&mut layer, 4, 0, '7');
    assert_eq!(layer.background(4, 0), font(13, 7));
    place_char(&mut layer, 5, 0, 'q');
    assert_eq!(layer.background(5, 0), font(0, 3));

    let mut layer = GpuLayer::new();
    place_string(&mut layer, 2, 5, "Hi!");
    assert_eq!(layer.background(2, 5), font(7, 0));
    assert_eq!(layer.background(3, 5), font(8, 2));
    assert_eq!(layer.background(4, 5), font(7, 6));
    assert_eq!(layer.background(5, 5), None);
}

#[test]
fn music_files() {
    assert_eq!(Music::PalletTown.file_name(), "03 - Pallet Town.flac");
    assert_eq!(Music::Pokecenter.file_name(), "17 - Pokémon Center.flac");
    assert_eq!(Music::GBPrinter.file_name(), "05 - Giovanni [Hidden Track].flac");
    assert_eq!(Music::GBPrinter.file_name(), Music::YellowUnusedSong.file_name());
}

#[test]
fn pikachu_cry_lookup() {
    let mut rom = vec![0u8; 0x100000];
    let entry = 0x0f008e + 2 * 3;
    rom[entry] = 0x3d;
    rom[entry + 1] = 0x34;
    rom[entry + 2] = 0x52;
    let offset = 0x3d * 0x4000 + 0x1234;
    rom[offset] = 0x03;
    rom[offset + 1] = 0x01;
    assert_eq!(pikachu_cry_range(&rom, 2), (offset + 2, offset + 2 + 0x103));

    let data = [0b1010_0000u8, 0b0000_0001];
    assert_eq!(pikachu_cry_sample(&data, 0), Some(true));
    assert_eq!(pikachu_cry_sample(&data, 1), Some(false));
    assert_eq!(pikachu_cry_sample(&data, 2), Some(true));
    assert_eq!(pikachu_cry_sample(&data, 15), Some(true));
    assert_eq!(pikachu_cry_sample(&data, 16), None);
}
