use rustic_yellow::cpu::{Cpu, CpuFlag, CpuRequest};
use rustic_yellow::game::home::clear_sprites::{clear_sprites, CLEAR_SPRITES_CYCLES};
use rustic_yellow::game::home::copy::copy_data;
use rustic_yellow::game::home::copy2::{clear_screen, clear_screen_area};
use rustic_yellow::game::home::delay::delay_frames;
use rustic_yellow::game::home::overworld::{
    check_if_in_outside_map, force_bike_or_surf, handle_mid_jump, ignore_input_for_half_second,
    advance_player_sprite, check_for_tile_pair_collisions, check_for_tile_pair_collisions2,
    copy_map_connection_header, copy_map_view_to_vram,
    copy_to_redraw_row_or_column_src_tiles, handle_black_out, handle_fly_warp_or_dungeon_warp,
    is_spinning,
    load_screen_related_data, load_tileset_tile_pattern_data, reload_map_after_printer,
    reset_using_strength_out_of_battle_bit, schedule_column_redraw_helper,
    schedule_east_column_redraw, schedule_north_row_redraw, schedule_south_row_redraw,
    schedule_west_column_redraw, stop_music, switch_to_map_rom_bank,
};
use rustic_yellow::game::home::npc_movement::is_player_character_being_controlled_by_game;
use rustic_yellow::game::home::palettes::{
    delay3, gb_pal_normal, gb_pal_white_out, gb_pal_white_out_with_delay3,
    run_default_palette_command, run_palette_command,
};
use rustic_yellow::game::home::predef::get_predef_registers;
use rustic_yellow::game::home::print_text::print_letter_delay;
use rustic_yellow::game::home::vblank::delay_frame;
use rustic_yellow::game::macros::coords::coord;
use rustic_yellow::game::macros::farcall::{callabd_modify_pikachu_happiness, callfar, farcall};
use rustic_yellow::game::macros::predef::{predef_call, predef_jump};
use rustic_yellow::game::macros::scripts::events::{check_event, set_event};
use rustic_yellow::game::scripts::pallete_town::pallet_town_script4;
use rustic_yellow::game::Game;
use rustic_yellow::save_state::species::PokemonSpecies;

fn machine() -> Cpu {
    Cpu::new(vec![0u8; 0x8000], PokemonSpecies::Pikachu)
}

/// Puts a return address on the stack at `sp`.
fn with_return(cpu: &mut Cpu, sp: u16, ret: u16) {
    cpu.sp = sp;
    cpu.write_byte(sp, (ret % 256) as u8);
    cpu.write_byte(sp + 1, (ret / 256) as u8);
}

#[test]
fn copy_data_copies_disjoint_ranges() {
    let mut cpu = machine();
    for i in 0..16u16 {
        cpu.write_byte(0xc000 + i, i as u8 + 1);
    }
    copy_data(&mut cpu, 0xc000, 0xc100, 16);
    for i in 0..16u16 {
        assert_eq!(cpu.read_byte(0xc100 + i), i as u8 + 1);
        assert_eq!(cpu.read_byte(0xc000 + i), i as u8 + 1);
    }
}

#[test]
fn copy_data_forward_overlap_repeats_the_first_byte() {
    let mut cpu = machine();
    cpu.write_byte(0xc000, 7);
    cpu.write_byte(0xc001, 8);
    cpu.write_byte(0xc002, 9);
    // Each byte is copied after the previous one landed, so the first byte
    // spreads forward.
    copy_data(&mut cpu, 0xc000, 0xc001, 2);
    assert_eq!(cpu.read_byte(0xc000), 7);
    assert_eq!(cpu.read_byte(0xc001), 7);
    assert_eq!(cpu.read_byte(0xc002), 7);
}

#[test]
fn events_set_then_check() {
    let mut cpu = machine();
    cpu.write_byte(0xd746 + 4, 0);
    cpu.write_byte(0xd746 + 5, 0);
    assert!(!check_event(&mut cpu, 0x22));
    assert!(cpu.flag(CpuFlag::Z));
    set_event(&mut cpu, 0x22);
    assert_eq!(cpu.read_byte(0xd746 + 4), 0b0000_0100);
    assert_eq!(cpu.hl(), 0xd746 + 4);
    assert!(check_event(&mut cpu, 0x22));
    assert!(!cpu.flag(CpuFlag::Z));
    assert!(cpu.flag(CpuFlag::H));
    assert!(!cpu.flag(CpuFlag::N));
    assert_eq!(cpu.a, 0b0000_0100);
    assert!(!check_event(&mut cpu, 0x23));
    assert!(!check_event(&mut cpu, 0x2a));
    assert_eq!(cpu.pc, 25);
    assert_eq!(cpu.cycles, 4 * 24 + 28);
}

#[test]
fn farcall_sets_bank_and_address() {
    let mut cpu = machine();
    farcall(&mut cpu, 0x1c, 0x4567);
    assert_eq!(cpu.b, 0x1c);
    assert_eq!(cpu.hl(), 0x4567);
    assert_eq!(cpu.pc, 8);
    assert_eq!(cpu.cycles, 44);
    assert_eq!(cpu.requests, vec![CpuRequest::Call(0x3e84)]);

    callfar(&mut cpu, 0x3f, 0x45fa);
    assert_eq!(cpu.b, 0x3f);
    assert_eq!(cpu.hl(), 0x45fa);
    assert_eq!(cpu.pc, 16);
    assert_eq!(cpu.cycles, 88);

    callabd_modify_pikachu_happiness(&mut cpu, 5);
    assert_eq!(cpu.b, 0x3d);
    assert_eq!(cpu.d, 5);
    assert_eq!(cpu.hl(), 0x430a);
    assert_eq!(cpu.pc, 26);
    assert_eq!(cpu.cycles, 140);
    assert_eq!(cpu.requests.len(), 3);
}

#[test]
fn predef_call_and_jump() {
    let mut cpu = machine();
    predef_call(&mut cpu, 0x07);
    assert_eq!(cpu.a, 0x07);
    assert_eq!(cpu.cycles, 32);
    assert_eq!(cpu.requests, vec![CpuRequest::Call(0x3eb4)]);
    predef_jump(&mut cpu, 0x19);
    assert_eq!(cpu.a, 0x19);
    assert_eq!(cpu.pc, 0x3eb4);
    assert_eq!(cpu.cycles, 56);
    assert_eq!(cpu.requests[1], CpuRequest::Jump(0x3eb4));
}

#[test]
fn palettes() {
    let mut cpu = machine();
    gb_pal_normal(&mut cpu);
    assert_eq!(cpu.read_byte(0xff47), 0b11100100);
    assert_eq!(cpu.read_byte(0xff48), 0b11010000);
    assert_eq!(cpu.read_byte(0xff49), 0);
    assert_eq!(
        cpu.requests,
        vec![CpuRequest::Call(0x3021), CpuRequest::Call(0x3040), CpuRequest::Call(0x3061)]
    );
    gb_pal_white_out(&mut cpu);
    assert_eq!(cpu.read_byte(0xff47), 0);
    assert_eq!(cpu.read_byte(0xff48), 0);
    assert_eq!(cpu.requests.len(), 6);

    let mut cpu = machine();
    gb_pal_white_out_with_delay3(&mut cpu);
    assert_eq!(cpu.requests.len(), 6);
    assert_eq!(cpu.requests[5], CpuRequest::WaitVBlank);
    assert!(cpu.halted);

    let mut cpu = machine();
    run_palette_command(&mut cpu, 9);
    assert_eq!(cpu.b, 9);
    assert_eq!(cpu.a, 0x45);
    assert_eq!(cpu.pc, 0x3eb4);
    run_default_palette_command(&mut cpu);
    assert_eq!(cpu.b, 0xff);
    assert_eq!(cpu.requests, vec![CpuRequest::Jump(0x3eb4), CpuRequest::Jump(0x3eb4)]);
}

#[test]
fn delays_wait_the_frames_asked() {
    let mut cpu = machine();
    delay_frame(&mut cpu);
    assert_eq!(cpu.read_byte(0xffd6), 1);
    assert_eq!(cpu.requests, vec![CpuRequest::WaitVBlank]);

    let mut cpu = machine();
    delay_frames(&mut cpu, 1);
    assert_eq!(cpu.requests.len(), 1);

    let mut cpu = machine();
    delay_frames(&mut cpu, 5);
    assert_eq!(cpu.requests, vec![CpuRequest::WaitVBlank; 5]);

    let mut cpu = machine();
    delay3(&mut cpu);
    assert_eq!(cpu.requests, vec![CpuRequest::WaitVBlank; 3]);
}

#[test]
fn clear_screen_area_blanks_the_box() {
    let mut cpu = machine();
    with_return(&mut cpu, 0xdff0, 0x1234);
    for addr in 0xc3a0..0xc508u16 {
        cpu.write_byte(addr, 0x11);
    }
    let start = coord(1, 2);
    cpu.set_hl(start);
    cpu.b = 3;
    cpu.c = 4;
    clear_screen_area(&mut cpu);
    for y in 0..18u16 {
        for x in 0..20u16 {
            let expected = if (2..5).contains(&y) && (1..5).contains(&x) { 0x7f } else { 0x11 };
            assert_eq!(cpu.read_byte(coord(x, y)), expected, "tile {x},{y}");
        }
    }
    assert_eq!(cpu.a, 0x7f);
    assert_eq!(cpu.b, 0);
    assert_eq!(cpu.c, 4);
    assert_eq!(cpu.de(), 20);
    assert_eq!(cpu.hl(), start + 60);
    assert_eq!(cpu.pc, 0x1234);
    assert_eq!(cpu.sp, 0xdff2);
    assert!(cpu.flag(CpuFlag::Z));
    assert!(cpu.flag(CpuFlag::N));
    assert!(!cpu.flag(CpuFlag::H));
    assert!(!cpu.flag(CpuFlag::C));
    assert_eq!(cpu.cycles, 3 * (24 * 4 + 76) + 32);
    // The last row's HL and BC stay below the stack pointer.
    assert_eq!(cpu.read_byte(0xdfef), ((start + 40) / 256) as u8);
    assert_eq!(cpu.read_byte(0xdfee), ((start + 40) % 256) as u8);
    assert_eq!(cpu.read_byte(0xdfed), 1);
    assert_eq!(cpu.read_byte(0xdfec), 4);
}

#[test]
fn clear_screen_blanks_exactly_the_tile_map() {
    let mut cpu = machine();
    for addr in 0xc390..0xc530u16 {
        cpu.write_byte(addr, 0x22);
    }
    clear_screen(&mut cpu);
    assert_eq!(cpu.read_byte(0xc39f), 0x22);
    for y in 0..18u16 {
        for x in 0..20u16 {
            assert_eq!(cpu.read_byte(0xc3a0 + 20 * y + x), 0x7f);
        }
    }
    assert_eq!(cpu.read_byte(0xc3a0 + 360), 0x22);
    assert_eq!(cpu.requests, vec![CpuRequest::WaitVBlank; 3]);
}

#[test]
fn clear_sprites_zeroes_the_shadow_oam() {
    let mut cpu = machine();
    for addr in 0xc2f0..0xc3b0u16 {
        cpu.write_byte(addr, 0x33);
    }
    with_return(&mut cpu, 0xdff0, 0x0150);
    cpu.f = 0b0001_0101;
    clear_sprites(&mut cpu);
    assert_eq!(cpu.read_byte(0xc2ff), 0x33);
    for addr in 0xc300..0xc3a0u16 {
        assert_eq!(cpu.read_byte(addr), 0);
    }
    assert_eq!(cpu.read_byte(0xc3a0), 0x33);
    assert_eq!(cpu.a, 0);
    assert_eq!(cpu.b, 0);
    assert_eq!(cpu.hl(), 0xc3a0);
    assert_eq!(cpu.f, 0b1100_0101);
    assert_eq!(cpu.pc, 0x0150);
    assert_eq!(cpu.sp, 0xdff2);
    assert_eq!(cpu.cycles, CLEAR_SPRITES_CYCLES);
}

#[test]
fn predef_registers_are_restored() {
    let mut cpu = machine();
    for (i, v) in [0x12u8, 0x34, 0x56, 0x78, 0x9a, 0xbc].iter().enumerate() {
        cpu.write_byte(0xcc4f + i as u16, *v);
    }
    with_return(&mut cpu, 0xdff0, 0x2222);
    get_predef_registers(&mut cpu);
    assert_eq!(cpu.hl(), 0x1234);
    assert_eq!(cpu.de(), 0x5678);
    assert_eq!(cpu.bc(), 0x9abc);
    assert_eq!(cpu.pc, 0x2222);
    assert_eq!(cpu.sp, 0xdff2);
}

#[test]
fn print_letter_delay_hands_out_the_rom_routine() {
    let mut cpu = machine();
    print_letter_delay(&mut cpu);
    assert_eq!(cpu.requests, vec![CpuRequest::Call(0x38c8)]);
}

#[test]
fn pallet_town_starts_the_starter_battle() {
    let mut cpu = Cpu::new(vec![0u8; 0x8000], PokemonSpecies::Eevee);
    with_return(&mut cpu, 0xdff0, 0x4321);
    pallet_town_script4(&mut cpu);
    assert_eq!(cpu.read_byte(0xcd6b), 0xfc);
    assert_eq!(cpu.read_byte(0xcc36), 0);
    assert_eq!(cpu.read_byte(0xd059), 3);
    assert_eq!(cpu.read_byte(0xd058), PokemonSpecies::Eevee.into_index());
    assert_eq!(cpu.borrow_wram().cur_opponent(), PokemonSpecies::Eevee.into_index());
    assert_eq!(cpu.read_byte(0xd126), 5);
    assert_eq!(cpu.read_byte(0xd5f0), 5);
    assert_eq!(cpu.pc, 0x4321);
    assert_eq!(cpu.cycles, 16);
}

#[test]
fn game_boots_at_the_entry_point() {
    let mut rom = vec![0u8; 0x8000];
    rom[0x143] = 0x80;
    rom[0x147] = 0x1b;
    rom[0x149] = 0x03;
    let mut game = Game::new(rom, PokemonSpecies::Pikachu);
    game.boot();
}


#[test]
fn outside_maps_set_z() {
    for (tileset, outside) in [(0u8, true), (23, true), (1, false), (22, false)] {
        let mut cpu = machine();
        with_return(&mut cpu, 0xdff0, 0x0abc);
        cpu.write_byte(0xd366, tileset);
        check_if_in_outside_map(&mut cpu);
        assert_eq!(cpu.flag(CpuFlag::Z), outside);
        assert_eq!(cpu.pc, 0x0abc);
        assert_eq!(cpu.sp, 0xdff2);
    }
}

#[test]
fn tileset_patterns_are_handed_to_far_copy_data() {
    let mut cpu = machine();
    with_return(&mut cpu, 0xdff0, 0x0100);
    cpu.write_byte(0xd52a, 0x19);
    cpu.write_byte(0xd52d, 0x34);
    cpu.write_byte(0xd52e, 0x62);
    load_tileset_tile_pattern_data(&mut cpu);
    assert_eq!(cpu.a, 0x19);
    assert_eq!(cpu.hl(), 0x6234);
    assert_eq!(cpu.de(), 0x9000);
    assert_eq!(cpu.bc(), 0x600);
    assert_eq!(cpu.requests, vec![CpuRequest::Call(0x009d)]);
    assert_eq!(cpu.pc, 0x0100);
}

#[test]
fn map_rom_bank_comes_from_the_header_bank_table() {
    let mut rom = vec![0u8; 0x100000];
    rom[0xfc3e4 + 0x21] = 0x12;
    let mut cpu = Cpu::new(rom, PokemonSpecies::Pikachu);
    with_return(&mut cpu, 0xdff0, 0x0200);
    cpu.a = 0x21;
    switch_to_map_rom_bank(&mut cpu);
    assert_eq!(cpu.a, 0x12);
    assert_eq!(cpu.requests, vec![CpuRequest::Call(0x3e7e)]);
    assert_eq!(cpu.pc, 0x0200);
}

#[test]
fn strength_bit_is_cleared() {
    let mut cpu = machine();
    with_return(&mut cpu, 0xdff0, 0x0300);
    cpu.write_byte(0xd727, 0b1011_0011);
    reset_using_strength_out_of_battle_bit(&mut cpu);
    assert_eq!(cpu.read_byte(0xd727), 0b1011_0010);
    assert_eq!(cpu.pc, 0x0300);
}

#[test]
fn forced_bike_or_surf_reloads_the_sprite_and_music() {
    let mut cpu = machine();
    with_return(&mut cpu, 0xdff0, 0x0400);
    force_bike_or_surf(&mut cpu);
    assert_eq!(cpu.b, 0x05);
    assert_eq!(cpu.hl(), 0x07d7);
    assert_eq!(cpu.requests, vec![CpuRequest::Call(0x3e84), CpuRequest::Call(0x216b)]);
    assert_eq!(cpu.pc, 0x0400);
}

#[test]
fn mid_jump_and_spinning_call_only_when_flagged() {
    let mut cpu = machine();
    with_return(&mut cpu, 0xdff0, 0x0500);
    cpu.write_byte(0xd735, 0);
    handle_mid_jump(&mut cpu);
    assert!(cpu.requests.is_empty());
    assert_eq!(cpu.pc, 0x0500);

    let mut cpu = machine();
    with_return(&mut cpu, 0xdff0, 0x0500);
    cpu.write_byte(0xd735, 1 << 6);
    handle_mid_jump(&mut cpu);
    assert_eq!(cpu.requests, vec![CpuRequest::Call(0x3e84)]);
    assert_eq!((cpu.b, cpu.hl()), (0x1c, 0x48df));
    assert_eq!(cpu.pc, 0x0500);

    let mut cpu = machine();
    with_return(&mut cpu, 0xdff0, 0x0600);
    cpu.write_byte(0xd735, 1 << 7);
    is_spinning(&mut cpu);
    assert_eq!((cpu.b, cpu.hl()), (0x11, 0x5077));
    assert_eq!(cpu.pc, 0x0600);

    let mut cpu = machine();
    with_return(&mut cpu, 0xdff0, 0x0600);
    cpu.write_byte(0xd735, 1 << 6);
    is_spinning(&mut cpu);
    assert!(cpu.requests.is_empty());
}

#[test]
fn input_is_ignored_for_half_a_second() {
    let mut cpu = machine();
    cpu.write_byte(0xd730, 0b1000_0000);
    ignore_input_for_half_second(&mut cpu);
    assert_eq!(cpu.read_byte(0xd139), 30);
    assert_eq!(cpu.read_byte(0xd730), 0b1010_0110);
    assert_eq!(cpu.a, 0b1010_0110);
}

#[test]
fn stop_music_fades_out_and_stops_every_sound() {
    let mut cpu = machine();
    with_return(&mut cpu, 0xdff0, 0x0700);
    cpu.a = 0x0a;
    stop_music(&mut cpu);
    assert_eq!(cpu.borrow_wram().audio_fade_out_control(), 0x0a);
    assert_eq!(
        cpu.requests,
        vec![CpuRequest::Call(0x2233), CpuRequest::WaitFadeOut, CpuRequest::Call(0x1dd0)]
    );
    assert_eq!(cpu.pc, 0x0700);
    assert_eq!(cpu.sp, 0xdff2);
}

#[test]
fn black_out_sequence() {
    let mut cpu = machine();
    with_return(&mut cpu, 0xdff0, 0x0800);
    cpu.write_byte(0xd72d, 0b0010_0001);
    handle_black_out(&mut cpu);
    assert_eq!(cpu.read_byte(0xd72d), 0b0000_0001);
    assert_eq!(cpu.read_byte(0xcfc6), 8);
    assert_eq!(
        cpu.requests,
        vec![
            CpuRequest::Call(0x1eb6),
            CpuRequest::Call(0x2233),
            CpuRequest::WaitFadeOut,
            CpuRequest::Call(0x1dd0),
            CpuRequest::Call(0x3e7e),
            CpuRequest::Call(0x3e84),
            CpuRequest::Call(0x6042),
            CpuRequest::Call(0x2176),
            CpuRequest::Call(0x5ce4),
        ]
    );
    assert_eq!(cpu.a, 1);
    assert_eq!(cpu.b, 0x3c);
    assert_eq!(cpu.hl(), 0x4274);
    assert_eq!(cpu.pc, 0x0800);
    assert_eq!(cpu.sp, 0xdff2);
    assert_eq!(cpu.cycles, 44);
}

fn fill_tile_map(cpu: &mut Cpu) {
    for i in 0..360u16 {
        cpu.write_byte(0xc3a0 + i, (i % 200) as u8 + 1);
    }
}

#[test]
fn row_redraws_copy_the_edge_rows_and_schedule_them() {
    let mut cpu = machine();
    fill_tile_map(&mut cpu);
    with_return(&mut cpu, 0xdff0, 0x0900);
    cpu.write_byte(0xd525, 0x40);
    cpu.write_byte(0xd526, 0x99);
    schedule_north_row_redraw(&mut cpu);
    for i in 0..40u16 {
        assert_eq!(cpu.read_byte(0xcbfc + i), cpu.read_byte(0xc3a0 + i));
    }
    assert_eq!(cpu.read_byte(0xffd0), 2);
    assert_eq!(cpu.read_byte(0xffd1), 0x40);
    assert_eq!(cpu.read_byte(0xffd2), 0x99);
    assert_eq!(cpu.hl(), 0xc3c8);
    assert_eq!(cpu.de(), 0xcc24);
    assert_eq!(cpu.pc, 0x0900);
    assert_eq!(cpu.sp, 0xdff2);

    let mut cpu = machine();
    fill_tile_map(&mut cpu);
    with_return(&mut cpu, 0xdff0, 0x0900);
    cpu.write_byte(0xd525, 0x40);
    cpu.write_byte(0xd526, 0x9b);
    schedule_south_row_redraw(&mut cpu);
    for i in 0..40u16 {
        assert_eq!(cpu.read_byte(0xcbfc + i), cpu.read_byte(0xc4e0 + i));
    }
    // 0x9b40 + 0x200 wraps within the background map to 0x9940.
    assert_eq!(cpu.read_byte(0xffd1), 0x40);
    assert_eq!(cpu.read_byte(0xffd2), 0x99);
    assert_eq!(cpu.read_byte(0xffd0), 2);
}

#[test]
fn column_redraws_copy_the_edge_columns_and_schedule_them() {
    let mut cpu = machine();
    fill_tile_map(&mut cpu);
    with_return(&mut cpu, 0xdff0, 0x0a00);
    cpu.write_byte(0xd525, 0x1e);
    cpu.write_byte(0xd526, 0x98);
    schedule_east_column_redraw(&mut cpu);
    for row in 0..18u16 {
        assert_eq!(cpu.read_byte(0xcbfc + 2 * row), cpu.read_byte(0xc3a0 + 20 * row + 18));
        assert_eq!(cpu.read_byte(0xcbfc + 2 * row + 1), cpu.read_byte(0xc3a0 + 20 * row + 19));
    }
    // (0x981e + 18) keeps the row and wraps the column: 0x9800 | 0x10.
    assert_eq!(cpu.read_byte(0xffd1), 0x10);
    assert_eq!(cpu.read_byte(0xffd2), 0x98);
    assert_eq!(cpu.read_byte(0xffd0), 1);
    assert_eq!(cpu.a, cpu.read_byte(0xc3a0 + 20 * 17 + 19));
    assert_eq!(cpu.pc, 0x0a00);

    let mut cpu = machine();
    fill_tile_map(&mut cpu);
    with_return(&mut cpu, 0xdff0, 0x0a00);
    cpu.write_byte(0xd525, 0x22);
    cpu.write_byte(0xd526, 0x98);
    schedule_west_column_redraw(&mut cpu);
    assert_eq!(cpu.read_byte(0xcbfc), cpu.read_byte(0xc3a0));
    assert_eq!(cpu.read_byte(0xcbfd), cpu.read_byte(0xc3a1));
    assert_eq!(cpu.read_byte(0xcbfc + 34), cpu.read_byte(0xc3a0 + 340));
    assert_eq!(cpu.read_byte(0xffd1), 0x22);
    assert_eq!(cpu.read_byte(0xffd0), 1);
    assert_eq!(cpu.hl(), 0xc3a0 + 360);
    assert_eq!(cpu.de(), 0xcbfc + 36);
}

#[test]
fn redraw_buffer_copies() {
    let mut cpu = machine();
    fill_tile_map(&mut cpu);
    with_return(&mut cpu, 0xdff0, 0x0b00);
    cpu.set_hl(0xc3a0 + 20);
    copy_to_redraw_row_or_column_src_tiles(&mut cpu);
    assert_eq!(cpu.read_byte(0xcbfc), cpu.read_byte(0xc3b4));
    assert_eq!(cpu.hl(), 0xc3b4 + 40);
    assert_eq!(cpu.pc, 0x0b00);

    let mut cpu = machine();
    fill_tile_map(&mut cpu);
    cpu.set_hl(0xc3a0 + 5);
    schedule_column_redraw_helper(&mut cpu);
    assert_eq!(cpu.read_byte(0xcbfc + 2), cpu.read_byte(0xc3a0 + 25));
    assert_eq!(cpu.pc, 0);
}

#[test]
fn map_view_and_connection_copies() {
    let mut cpu = machine();
    fill_tile_map(&mut cpu);
    copy_map_view_to_vram(&mut cpu, 0x9800);
    for row in 0..18u16 {
        for x in 0..20u16 {
            assert_eq!(cpu.read_byte(0x9800 + 32 * row + x), cpu.read_byte(0xc3a0 + 20 * row + x));
        }
    }
    assert_eq!(cpu.hl(), 0xc508);
    assert_eq!(cpu.de(), 0x9800 + 18 * 32);

    let mut cpu = machine();
    with_return(&mut cpu, 0xdff0, 0x0c00);
    for i in 0..11u16 {
        cpu.write_byte(0xd100 + i, 0x30 + i as u8);
    }
    cpu.set_hl(0xd100);
    cpu.set_de(0xd370);
    copy_map_connection_header(&mut cpu);
    for i in 0..11u16 {
        assert_eq!(cpu.read_byte(0xd370 + i), 0x30 + i as u8);
    }
    assert_eq!(cpu.hl(), 0xd10b);
    assert_eq!(cpu.pc, 0x0c00);
}

#[test]
fn screen_data_and_printer_reload() {
    let mut cpu = machine();
    load_screen_related_data(&mut cpu);
    assert_eq!(
        cpu.requests,
        vec![CpuRequest::Call(0x083c), CpuRequest::Call(0x0828), CpuRequest::Call(0x0b06)]
    );

    let mut rom = vec![0u8; 0x100000];
    rom[0xfc3e4 + 0x05] = 0x11;
    let mut cpu = Cpu::new(rom, PokemonSpecies::Pikachu);
    with_return(&mut cpu, 0xdff0, 0x0d00);
    cpu.write_byte(0xd35d, 0x05);
    cpu.write_byte(0xffb8, 0x07);
    reload_map_after_printer(&mut cpu);
    assert_eq!(
        cpu.requests,
        vec![
            CpuRequest::Call(0x3e7e),
            CpuRequest::Call(0x083c),
            CpuRequest::Call(0x3e7e),
            CpuRequest::Call(0x3e84)
        ]
    );
    assert_eq!(cpu.a, 0x07);
    assert_eq!((cpu.b, cpu.hl()), (0x3c, 0x42da));
    assert_eq!(cpu.pc, 0x0d00);
    assert_eq!(cpu.sp, 0xdff2);
}

#[test]
fn advancing_the_player_sprite_keeps_the_update_flag() {
    let mut cpu = machine();
    with_return(&mut cpu, 0xdff0, 0x0e00);
    cpu.write_byte(0xcfca, 0x01);
    advance_player_sprite(&mut cpu);
    assert_eq!(cpu.read_byte(0xcfca), 0x01);
    assert_eq!(cpu.requests, vec![CpuRequest::Call(0x3e84)]);
    assert_eq!((cpu.b, cpu.hl()), (0x3c, 0x410c));
    assert_eq!(cpu.pc, 0x0e00);
}

fn collision_table(cpu: &mut Cpu) {
    // CAVERN: 0x20 with 0x05, 0x41 with 0x20; FOREST: 0x30 with 0x2e.
    let table = [0x11u8, 0x20, 0x05, 0x11, 0x41, 0x20, 0x03, 0x30, 0x2e, 0xff];
    for (i, b) in table.iter().enumerate() {
        cpu.write_byte(0xd000 + i as u16, *b);
    }
    cpu.set_hl(0xd000);
}

#[test]
fn tile_pair_collisions() {
    let cases = [
        (0x11u8, 0x20u8, 0x05u8, true),
        (0x11, 0x05, 0x20, true),
        (0x11, 0x20, 0x41, true),
        (0x11, 0x20, 0x30, false),
        (0x03, 0x2e, 0x30, true),
        (0x03, 0x20, 0x05, false),
        (0x00, 0x20, 0x05, false),
    ];
    for (tileset, standing, front, collides) in cases {
        let mut cpu = machine();
        collision_table(&mut cpu);
        with_return(&mut cpu, 0xdff0, 0x0f00);
        cpu.write_byte(0xd366, tileset);
        cpu.write_byte(0xcf0e, standing);
        cpu.write_byte(0xcfc5, front);
        check_for_tile_pair_collisions(&mut cpu);
        assert_eq!(cpu.flag(CpuFlag::C), collides, "{tileset:#x} {standing:#x} {front:#x}");
        assert_eq!(cpu.pc, 0x0f00);
        assert_eq!(cpu.sp, 0xdff2);
    }
}

#[test]
fn tile_pair_collisions_note_the_standing_tile() {
    let mut cpu = machine();
    collision_table(&mut cpu);
    with_return(&mut cpu, 0xdff0, 0x0f00);
    cpu.write_byte(0xd366, 0x11);
    cpu.write_byte(coord(8, 9), 0x41);
    cpu.write_byte(0xcfc5, 0x20);
    check_for_tile_pair_collisions2(&mut cpu);
    assert_eq!(cpu.read_byte(0xcf0e), 0x41);
    assert_eq!(cpu.borrow_wram().tile_player_standing_on(), 0x41);
    assert!(cpu.flag(CpuFlag::C));
}

#[test]
fn fly_warp_resets_battle_state_and_enters_the_map() {
    let mut cpu = machine();
    with_return(&mut cpu, 0xdff0, 0x1100);
    cpu.write_byte(0xcf0b, 2);
    cpu.write_byte(0xd056, 1);
    cpu.write_byte(0xd35c, 6);
    cpu.write_byte(0xd731, 0b0011_0000);
    cpu.write_byte(0xd6ff, 1);
    handle_fly_warp_or_dungeon_warp(&mut cpu);
    assert_eq!(cpu.read_byte(0xcf0b), 0);
    assert_eq!(cpu.read_byte(0xd056), 0);
    assert_eq!(cpu.read_byte(0xd35c), 0);
    assert_eq!(cpu.read_byte(0xd731), 0b0001_0100);
    assert_eq!(cpu.read_byte(0xd6ff), 0);
    let mut expected = vec![CpuRequest::Call(0x231c)];
    expected.extend([CpuRequest::WaitVBlank; 3]);
    expected.extend([
        CpuRequest::Call(0x3e84),
        CpuRequest::Call(0x216b),
        CpuRequest::Call(0x3e7e),
        CpuRequest::Call(0x6042),
        CpuRequest::Call(0x5ce4),
    ]);
    assert_eq!(cpu.requests, expected);
    assert_eq!(cpu.pc, 0x1100);
    assert_eq!(cpu.a, 1);

    let mut cpu = machine();
    with_return(&mut cpu, 0xdff0, 0x1100);
    cpu.write_byte(0xd731, 0);
    cpu.write_byte(0xd6ff, 0);
    handle_fly_warp_or_dungeon_warp(&mut cpu);
    assert_eq!(cpu.read_byte(0xd731), 0b0000_0100);
    assert_eq!(cpu.requests.len(), 8);
}

#[test]
fn player_controlled_by_game() {
    use_controlled(0, 0, 0, false);
    use_controlled(1, 0, 0, true);
    use_controlled(0, 1, 0, true);
    use_controlled(0, 0x80, 0, false);
    use_controlled(0, 0, 0x80, true);
    use_controlled(0, 0, 0x20, false);
}

fn use_controlled(table: u8, d736: u8, d730: u8, expected: bool) {
    let mut cpu = machine();
    cpu.write_byte(0xcc57, table);
    cpu.write_byte(0xd735, d736);
    cpu.write_byte(0xd730, d730);
    assert_eq!(is_player_character_being_controlled_by_game(&mut cpu), expected);
}
