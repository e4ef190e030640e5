use vstd::prelude::*;

use crate::bytes::{has_bit, hi8, le16, lo8, with_bit};
use crate::cpu::{
    bus_of, lemma_bus_hram_read, lemma_bus_hram_update, lemma_bus_hram_update2, lemma_bus_wram_read, lemma_bus_wram_update,
    with_flag, Cpu, CpuFlag, CpuRequest, HRAM_BEGIN, WRAM_BEGIN,
};
use crate::game::constants::{BG_MAP_WIDTH, OVERWORLD, PLATEAU, REDRAW_COL, REDRAW_ROW, SCREEN_HEIGHT, SCREEN_WIDTH, V_TILESET};
use crate::game::macros::coords::coord;
use crate::game::ram::hram::{H_REDRAW_ROW_OR_COLUMN_DEST, H_REDRAW_ROW_OR_COLUMN_MODE};
use crate::game::ram::wram::{W_REDRAW_ROW_OR_COLUMN_SRC_TILES, W_TILE_MAP};
use super::copy::copied;
use crate::game::macros::farcall::{callfar, far_called, farcall};
use crate::game::home::palettes::delay3;
use crate::game::home::vblank::NOT_VBLANKED;
use crate::game::ram::hram::H_VBLANK_OCCURRED;
use crate::game_state::{battle_result_value, BattleResult};
use crate::game::ram::wram::{W_D728, W_D72E, W_D730, W_D736};

use super::copy2::pair;

verus! {

/// The return address on top of the stack at `sp` of `bus`.
pub open spec fn return_address(bus: Seq<u8>, sp: u16) -> u16 {
    pair(bus[(sp + 1) % 0x10000], bus[sp as int]) as u16
}

/// The routines of the ROM these routines hand out.
pub const BANKSWITCH_COMMON: u16 = 0x3e7e;

pub const FAR_COPY_DATA: u16 = 0x009d;

pub const PLAY_DEFAULT_MUSIC: u16 = 0x216b;

pub const BANKSWITCH: u16 = 0x3e84;

/// The player's sprite loader, in bank 0, and the bank of the player's sprite.
pub const LOAD_PLAYER_SPRITE_GRAPHICS: u16 = 0x07d7;

pub const BANK_RED_SPRITE: u8 = 0x05;

/// Where the ROM keeps the bank of each map's header.
pub const MAP_HEADER_BANKS: usize = 0xfc3e4;

/// Sets Z when the current map uses an outdoor tileset (the overworld or
/// the Indigo Plateau), then returns.
pub fn check_if_in_outside_map(cpu: &mut Cpu)
    ensures
        ({
            let tileset = old(cpu).wram.wram()[0x1366];
            *final(cpu) == (Cpu {
                f: with_flag(old(cpu).f, CpuFlag::Z, tileset == OVERWORLD || tileset == PLATEAU),
                pc: return_address(old(cpu).bus(), old(cpu).sp),
                sp: ((old(cpu).sp + 2) % 0x10000) as u16,
                ..*old(cpu)
            })
        }),
{
    let tileset = cpu.borrow_wram().cur_map_tileset();
    let outside = tileset == OVERWORLD || tileset == PLATEAU;
    cpu.set_flag(CpuFlag::Z, outside);
    cpu.pc = cpu.stack_pop(); // ret
}

/// Loads the current tileset's tile patterns: hands FarCopyData the tileset's
/// graphics (HL), the tile pattern area of video RAM (DE), 0x600 bytes (BC)
/// and the tileset's bank (A); then returns.
pub fn load_tileset_tile_pattern_data(cpu: &mut Cpu)
    ensures
        ({
            let w = old(cpu).wram.wram();
            let src = le16(w[0x152d], w[0x152e]);
            final(cpu).requests@ == old(cpu).requests@.push(CpuRequest::Call(FAR_COPY_DATA))
            && *final(cpu) == (Cpu {
                a: w[0x152a],
                b: 0x06,
                c: 0x00,
                d: (V_TILESET / 256) as u8,
                e: (V_TILESET % 256) as u8,
                h: (src / 256) as u8,
                l: (src % 256) as u8,
                pc: return_address(old(cpu).bus(), old(cpu).sp),
                sp: ((old(cpu).sp + 2) % 0x10000) as u16,
                requests: final(cpu).requests,
                ..*old(cpu)
            })
        }),
{
    let tileset_gfx_pointer = cpu.borrow_wram().tileset_gfx_pointer();

    cpu.set_hl(tileset_gfx_pointer);
    cpu.set_de(V_TILESET);
    cpu.set_bc(0x600);
    cpu.a = cpu.borrow_wram().tileset_bank();
    cpu.call(FAR_COPY_DATA);

    cpu.pc = cpu.stack_pop(); // ret
}

/// Switches to the ROM bank of map A's header: A gets the bank, which
/// BankswitchCommon maps; then returns.
pub fn switch_to_map_rom_bank(cpu: &mut Cpu)
    requires
        MAP_HEADER_BANKS + old(cpu).a < old(cpu).rom@.len(),
    ensures
        final(cpu).requests@ == old(cpu).requests@.push(CpuRequest::Call(BANKSWITCH_COMMON)),
        *final(cpu) == (Cpu {
            a: old(cpu).rom@[MAP_HEADER_BANKS + old(cpu).a],
            pc: return_address(old(cpu).bus(), old(cpu).sp),
            sp: ((old(cpu).sp + 2) % 0x10000) as u16,
            requests: final(cpu).requests,
            ..*old(cpu)
        }),
{
    let map_number = cpu.a as usize;
    let target_bank = cpu.rom[MAP_HEADER_BANKS + map_number];

    cpu.a = target_bank;
    cpu.call(BANKSWITCH_COMMON);

    cpu.pc = cpu.stack_pop(); // ret
}

/// Clears the "using Strength outside of battle" bit, then returns.
pub fn reset_using_strength_out_of_battle_bit(cpu: &mut Cpu)
    ensures
        ({
            let bus = old(cpu).bus().update(W_D728 as int, with_bit(old(cpu).bus()[W_D728 as int], 0, false));
            &&& final(cpu).bus() == bus
            &&& *final(cpu) == (Cpu {
                pc: return_address(bus, old(cpu).sp),
                sp: ((old(cpu).sp + 2) % 0x10000) as u16,
                wram: final(cpu).wram,
                mem: final(cpu).mem,
                ..*old(cpu)
            })
        }),
{
    let value = cpu.read_byte(W_D728);
    cpu.write_byte(W_D728, value & !(1u8 << 0u8));

    cpu.pc = cpu.stack_pop(); // ret
}

/// Reloads the player's sprite (LoadPlayerSpriteGraphics through Bankswitch)
/// and plays the map's default music, for the maps that force the bike or
/// surfing; then returns.
pub fn force_bike_or_surf(cpu: &mut Cpu)
    ensures
        final(cpu).requests@ == old(cpu).requests@.push(CpuRequest::Call(BANKSWITCH)).push(
            CpuRequest::Call(PLAY_DEFAULT_MUSIC),
        ),
        *final(cpu) == (Cpu {
            b: BANK_RED_SPRITE,
            h: (LOAD_PLAYER_SPRITE_GRAPHICS / 256) as u8,
            l: (LOAD_PLAYER_SPRITE_GRAPHICS % 256) as u8,
            pc: return_address(old(cpu).bus(), old(cpu).sp),
            sp: ((old(cpu).sp + 2) % 0x10000) as u16,
            requests: final(cpu).requests,
            ..*old(cpu)
        }),
{
    cpu.b = BANK_RED_SPRITE; // BANK(RedSprite)
    cpu.set_hl(LOAD_PLAYER_SPRITE_GRAPHICS); // LoadPlayerSpriteGraphics (in bank 0)
    cpu.call(BANKSWITCH); // Bankswitch

    // update map/player state?
    cpu.call(PLAY_DEFAULT_MUSIC); // PlayDefaultMusic

    cpu.pc = cpu.stack_pop(); // ret
}

/// While the player is jumping down a ledge (wd736 bit 6), far-calls
/// _HandleMidJump; then returns.
pub fn handle_mid_jump(cpu: &mut Cpu)
    requires
        old(cpu).pc + 8 <= u16::MAX,
        old(cpu).cycles + 44 <= u64::MAX,
    ensures
        ({
            let bus = old(cpu).bus();
            let jumping = has_bit(bus[W_D736 as int], 6);
            &&& jumping ==> exists|mid: Cpu|
                far_called(&mid, old(cpu), 0x1c, 0x48df, 8, 44) && *final(cpu) == #[trigger] returned(&mid)
            &&& !jumping ==> *final(cpu) == returned(old(cpu))
        }),
{
    if (cpu.read_byte(W_D736) & (1u8 << 6u8)) != 0 {
        let ghost before = *cpu;
        farcall(cpu, 0x1c, 0x48df); // _HandleMidJump
        let ghost mid = *cpu;
        cpu.pc = cpu.stack_pop();
        assert(far_called(&mid, &before, 0x1c, 0x48df, 8, 44) && *cpu == returned(&mid));
        return;
    }

    cpu.pc = cpu.stack_pop(); // ret
}

/// `cpu` after `ret`: the return address popped into the program counter.
pub open spec fn returned(cpu: &Cpu) -> Cpu {
    Cpu {
        pc: return_address(cpu.bus(), cpu.sp),
        sp: ((cpu.sp + 2) % 0x10000) as u16,
        ..*cpu
    }
}

/// While the player is spinning on spinner tiles (wd736 bit 7), far-calls
/// LoadSpinnerArrowTiles; then returns.
pub fn is_spinning(cpu: &mut Cpu)
    requires
        old(cpu).pc + 8 <= u16::MAX,
        old(cpu).cycles + 44 <= u64::MAX,
    ensures
        ({
            let bus = old(cpu).bus();
            let spinning = has_bit(bus[W_D736 as int], 7);
            &&& spinning ==> exists|mid: Cpu|
                far_called(&mid, old(cpu), 0x11, 0x5077, 8, 44) && *final(cpu) == #[trigger] returned(&mid)
            &&& !spinning ==> *final(cpu) == returned(old(cpu))
        }),
{
    let w_d736 = cpu.read_byte(W_D736);

    // if spinning
    if (w_d736 & (1u8 << 7u8)) != 0 {
        let ghost before = *cpu;
        farcall(cpu, 0x11, 0x5077); // LoadSpinnerArrowTiles
        let ghost mid = *cpu;
        cpu.pc = cpu.stack_pop();
        assert(far_called(&mid, &before, 0x11, 0x5077, 8, 44) && *cpu == returned(&mid));
        return;
    }

    cpu.pc = cpu.stack_pop(); // ret
}

/// The number of frames input is ignored for after a warp.
pub const HALF_SECOND_FRAMES: u8 = 30;

/// Ignores input for half a second: sets the ignore-input counter and the
/// bits of wd730 that hold input off (A keeps the new wd730).
pub fn ignore_input_for_half_second(cpu: &mut Cpu)
    ensures
        ({
            let counter_set = bus_of(
                old(cpu).wram,
                old(cpu).mem,
            ).update(WRAM_BEGIN + 0x1139, HALF_SECOND_FRAMES);
            let a = counter_set[W_D730 as int] | 0b00100110;
            &&& final(cpu).bus() == counter_set.update(W_D730 as int, a)
            &&& *final(cpu) == (Cpu { a, wram: final(cpu).wram, mem: final(cpu).mem, ..*old(cpu) })
        }),
{
    let ghost before = *cpu;
    cpu.borrow_wram_mut().set_ignore_input_counter(HALF_SECOND_FRAMES);
    proof {
        lemma_bus_wram_update(before.wram, cpu.wram, cpu.mem, 0x1139, HALF_SECOND_FRAMES);
    }

    // set ignore input bit
    cpu.a = cpu.read_byte(W_D730) | 0b00100110;
    cpu.write_byte(W_D730, cpu.a);
}

/// The ROM routines that stop the music and every sound.
pub const STOP_ALL_MUSIC: u16 = 0x2233;

pub const STOP_ALL_SOUNDS: u16 = 0x1dd0;

/// Where wAudioFadeOutControl sits in the address space.
pub const W_AUDIO_FADE_OUT_CONTROL: u16 = 0xcfc6;

/// Stops the music, fading it out over A: sets the fade-out counter to A,
/// has StopAllMusic run, waits for the fade-out to end, has StopAllSounds
/// run; then returns.
pub fn stop_music(cpu: &mut Cpu)
    ensures
        ({
            let bus = old(cpu).bus().update(W_AUDIO_FADE_OUT_CONTROL as int, old(cpu).a);
            &&& final(cpu).bus() == bus
            &&& final(cpu).requests@ == old(cpu).requests@.push(CpuRequest::Call(STOP_ALL_MUSIC)).push(
                CpuRequest::WaitFadeOut,
            ).push(CpuRequest::Call(STOP_ALL_SOUNDS))
            &&& *final(cpu) == (Cpu {
                pc: return_address(bus, old(cpu).sp),
                sp: ((old(cpu).sp + 2) % 0x10000) as u16,
                requests: final(cpu).requests,
                wram: final(cpu).wram,
                mem: final(cpu).mem,
                ..*old(cpu)
            })
        }),
{
    let fade_counter = cpu.a;
    let ghost before = *cpu;

    cpu.borrow_wram_mut().set_audio_fade_out_control(fade_counter);
    proof {
        lemma_bus_wram_update(before.wram, cpu.wram, cpu.mem, 0x0fc6, fade_counter);
    }

    cpu.call(STOP_ALL_MUSIC); // StopAllMusic
    cpu.wait_fade_out();
    cpu.call(STOP_ALL_SOUNDS); // StopAllSounds

    cpu.pc = cpu.stack_pop(); // ret
}

/// The ROM routines a blackout runs.
pub const GB_FADE_OUT_TO_BLACK: u16 = 0x1eb6;

pub const PREPARE_FOR_SPECIAL_WARP: u16 = 0x6042;

pub const PLAY_DEFAULT_MUSIC_FADE_OUT_CURRENT: u16 = 0x2176;

pub const SPECIAL_ENTER_MAP: u16 = 0x5ce4;

/// The requests a blackout hands out, in order.
pub open spec fn black_out_requests() -> Seq<CpuRequest> {
    seq![
        CpuRequest::Call(GB_FADE_OUT_TO_BLACK),
        CpuRequest::Call(STOP_ALL_MUSIC),
        CpuRequest::WaitFadeOut,
        CpuRequest::Call(STOP_ALL_SOUNDS),
        CpuRequest::Call(BANKSWITCH_COMMON),
        CpuRequest::Call(BANKSWITCH),
        CpuRequest::Call(PREPARE_FOR_SPECIAL_WARP),
        CpuRequest::Call(PLAY_DEFAULT_MUSIC_FADE_OUT_CURRENT),
        CpuRequest::Call(SPECIAL_ENTER_MAP),
    ]
}

/// The address space after a blackout's own writes: the return address of
/// its call of `stop_music` below the stack pointer, the music faded out
/// over 8 frames, and the "blacked out" bit of wd72e cleared.
pub open spec fn black_out_bus(bus: Seq<u8>, sp: u16) -> Seq<u8> {
    let pushed = bus.update((sp - 1) % 0x10000, 0).update((sp - 2) % 0x10000, 1);
    let faded = pushed.update(W_AUDIO_FADE_OUT_CONTROL as int, 8);
    faded.update(W_D72E as int, with_bit(faded[W_D72E as int], 5, false))
}

/// Handles the player blacking out: fades to black, stops the music, clears
/// the "blacked out" bit, restores the party and halves the money
/// (ResetStatusAndHalveMoneyOnBlackout), prepares the warp to the last
/// Pokémon Center, restarts the music and enters the map; then returns.
pub fn handle_black_out(cpu: &mut Cpu)
    requires
        old(cpu).cycles + 44 <= u64::MAX,
    ensures
        ({
            let bus = black_out_bus(old(cpu).bus(), old(cpu).sp);
            &&& final(cpu).bus() == bus
            &&& final(cpu).requests@ == old(cpu).requests@ + black_out_requests()
            &&& *final(cpu) == (Cpu {
                a: 0x01,
                b: 0x3c,
                h: 0x42,
                l: 0x74,
                pc: return_address(bus, old(cpu).sp),
                sp: ((old(cpu).sp + 2) % 0x10000) as u16,
                cycles: (old(cpu).cycles + 44) as u64,
                requests: final(cpu).requests,
                wram: final(cpu).wram,
                mem: final(cpu).mem,
                ..*old(cpu)
            })
        }),
{
    let ghost c0 = *cpu;
    proof {
        c0.lemma_bus_len();
    }
    cpu.call(GB_FADE_OUT_TO_BLACK); // GBFadeOutToBlack

    cpu.a = 0x08;
    cpu.stack_push(0x0001);
    stop_music(cpu);
    proof {
        let sp = c0.sp;
        let top = (sp - 2) % 0x10000;
        assert((top + 1) % 0x10000 == (sp - 1) % 0x10000);
        assert((top + 2) % 0x10000 == sp);
        assert(cpu.bus()[top] <= 8);
        assert(cpu.bus()[(top + 1) % 0x10000] <= 8);
    }
    assert(cpu.sp == c0.sp);

    // Reset "blacked out" bit
    let value = cpu.read_byte(W_D72E);
    cpu.write_byte(W_D72E, value & !(1u8 << 5u8));

    cpu.a = 0x01; // BANK(PrepareForSpecialWarp) and BANK(SpecialEnterMap)
    cpu.call(BANKSWITCH_COMMON); // BankswitchCommon

    // ResetStatusAndHalveMoneyOnBlackout
    callfar(cpu, 0x3c, 0x4274);

    cpu.call(PREPARE_FOR_SPECIAL_WARP); // PrepareForSpecialWarp
    cpu.call(PLAY_DEFAULT_MUSIC_FADE_OUT_CURRENT); // PlayDefaultMusicFadeOutCurrent
    cpu.call(SPECIAL_ENTER_MAP); // SpecialEnterMap

    assert(cpu.requests@ =~= c0.requests@ + black_out_requests());
    cpu.pc = cpu.stack_pop(); // ret
}

/// The bytes of a redrawn row: two bytes for each tile column of the screen.
pub const REDRAW_ROW_BYTES: u16 = 40;

/// `bus` with the return address 0x0001 pushed below `sp`, as the game code
/// calls routines that end in `ret`.
pub open spec fn pushed_return(bus: Seq<u8>, sp: u16) -> Seq<u8> {
    bus.update((sp - 1) % 0x10000, 0).update((sp - 2) % 0x10000, 1)
}

/// The pointer to the map view's top left tile in video RAM.
pub open spec fn vram_pointer(bus: Seq<u8>) -> int {
    le16(bus[WRAM_BEGIN + 0x1525], bus[WRAM_BEGIN + 0x1526])
}

/// `bus` with a redraw scheduled for the V-blank handler: its destination
/// in video RAM, then its mode.
pub open spec fn with_redraw(bus: Seq<u8>, dest: int, mode: u8) -> Seq<u8> {
    bus.update(H_REDRAW_ROW_OR_COLUMN_DEST as int, lo8(dest)).update(
        H_REDRAW_ROW_OR_COLUMN_DEST + 1,
        hi8(dest),
    ).update(H_REDRAW_ROW_OR_COLUMN_MODE as int, mode)
}

/// Copies the 40 bytes at HL to the redraw buffer; HL and DE end just past
/// source and buffer; then returns.
pub fn copy_to_redraw_row_or_column_src_tiles(cpu: &mut Cpu)
    requires
        pair(old(cpu).h, old(cpu).l) + REDRAW_ROW_BYTES <= 0xffff,
    ensures
        ({
            let hl = pair(old(cpu).h, old(cpu).l);
            let end = W_REDRAW_ROW_OR_COLUMN_SRC_TILES + REDRAW_ROW_BYTES;
            let bus = copied(old(cpu).bus(), hl, W_REDRAW_ROW_OR_COLUMN_SRC_TILES as int, REDRAW_ROW_BYTES as nat);
            &&& final(cpu).bus() == bus
            &&& *final(cpu) == (Cpu {
                h: ((hl + REDRAW_ROW_BYTES) / 256) as u8,
                l: ((hl + REDRAW_ROW_BYTES) % 256) as u8,
                d: (end / 256) as u8,
                e: (end % 256) as u8,
                pc: return_address(bus, old(cpu).sp),
                sp: ((old(cpu).sp + 2) % 0x10000) as u16,
                wram: final(cpu).wram,
                mem: final(cpu).mem,
                ..*old(cpu)
            })
        }),
{
    let ghost c0 = *cpu;
    let hl = cpu.hl();
    let mut i: u16 = 0;
    while i < REDRAW_ROW_BYTES
        invariant
            i <= REDRAW_ROW_BYTES,
            hl == pair(c0.h, c0.l),
            hl + REDRAW_ROW_BYTES <= 0xffff,
            cpu.bus() == copied(c0.bus(), hl as int, W_REDRAW_ROW_OR_COLUMN_SRC_TILES as int, i as nat),
            cpu.only_memory_changed(&c0),
        decreases REDRAW_ROW_BYTES - i,
    {
        let byte = cpu.read_byte(hl + i);
        cpu.write_byte(W_REDRAW_ROW_OR_COLUMN_SRC_TILES + i, byte);
        i = i + 1;
    }

    cpu.set_hl(hl + REDRAW_ROW_BYTES);
    cpu.set_de(W_REDRAW_ROW_OR_COLUMN_SRC_TILES + REDRAW_ROW_BYTES);

    cpu.pc = cpu.stack_pop(); // ret
}

/// Schedules the redraw of a row or column at `dest`: writes the
/// destination, then the mode, into high RAM.
fn schedule_redraw(cpu: &mut Cpu, dest: u16, mode: u8)
    ensures
        final(cpu).bus() == with_redraw(old(cpu).bus(), dest as int, mode),
        final(cpu).only_memory_changed(old(cpu)),
{
    let ghost c0 = *cpu;
    cpu.borrow_wram_mut().set_redraw_row_or_column_dest(dest);
    proof {
        lemma_bus_hram_update2(c0.wram, cpu.wram, cpu.mem, 0x51, lo8(dest as int), 0x52, hi8(dest as int));
    }
    let ghost c1 = *cpu;
    cpu.borrow_wram_mut().set_redraw_row_or_column_mode(mode);
    proof {
        lemma_bus_hram_update(c1.wram, cpu.wram, cpu.mem, 0x50, mode);
    }
}

/// The map view's pointer in video RAM.
fn map_view_vram_pointer(cpu: &Cpu) -> (res: u16)
    ensures
        res == vram_pointer(cpu.bus()),
{
    proof {
        lemma_bus_wram_read(cpu.wram, cpu.mem, 0x1525);
        lemma_bus_wram_read(cpu.wram, cpu.mem, 0x1526);
    }
    cpu.borrow_wram().map_view_vram_pointer()
}

/// The address space after the top or bottom row of the screen, from
/// `start`, has been copied to the redraw buffer through a call.
pub open spec fn row_copied(bus: Seq<u8>, sp: u16, start: u16) -> Seq<u8> {
    copied(pushed_return(bus, sp), start as int, W_REDRAW_ROW_OR_COLUMN_SRC_TILES as int, REDRAW_ROW_BYTES as nat)
}

/// Copies a row of the screen's tile map, from `start`, to the redraw
/// buffer by calling `copy_to_redraw_row_or_column_src_tiles`.
fn copy_row(cpu: &mut Cpu, start: u16)
    requires
        start + REDRAW_ROW_BYTES <= 0xffff,
    ensures
        final(cpu).bus() == row_copied(old(cpu).bus(), old(cpu).sp, start),
        *final(cpu) == (Cpu {
            h: ((start + REDRAW_ROW_BYTES) / 256) as u8,
            l: ((start + REDRAW_ROW_BYTES) % 256) as u8,
            d: ((W_REDRAW_ROW_OR_COLUMN_SRC_TILES + REDRAW_ROW_BYTES) / 256) as u8,
            e: ((W_REDRAW_ROW_OR_COLUMN_SRC_TILES + REDRAW_ROW_BYTES) % 256) as u8,
            pc: final(cpu).pc,
            wram: final(cpu).wram,
            mem: final(cpu).mem,
            ..*old(cpu)
        }),
{
    let ghost sp = old(cpu).sp as int;
    cpu.set_hl(start);
    cpu.stack_push(0x0001);
    copy_to_redraw_row_or_column_src_tiles(cpu);
    assert(((sp - 2) % 0x10000 + 2) % 0x10000 == sp);
}

/// Schedules the redraw of the map row at the top of the screen, then
/// returns.
pub fn schedule_north_row_redraw(cpu: &mut Cpu)
    ensures
        ({
            let copied_bus = row_copied(old(cpu).bus(), old(cpu).sp, W_TILE_MAP);
            let bus = with_redraw(copied_bus, vram_pointer(copied_bus), REDRAW_ROW);
            let end = W_REDRAW_ROW_OR_COLUMN_SRC_TILES + REDRAW_ROW_BYTES;
            &&& final(cpu).bus() == bus
            &&& *final(cpu) == (Cpu {
                h: ((W_TILE_MAP + REDRAW_ROW_BYTES) / 256) as u8,
                l: ((W_TILE_MAP + REDRAW_ROW_BYTES) % 256) as u8,
                d: (end / 256) as u8,
                e: (end % 256) as u8,
                pc: return_address(bus, old(cpu).sp),
                sp: ((old(cpu).sp + 2) % 0x10000) as u16,
                wram: final(cpu).wram,
                mem: final(cpu).mem,
                ..*old(cpu)
            })
        }),
{
    copy_row(cpu, coord(0, 0));

    let vram_ptr = map_view_vram_pointer(cpu);
    schedule_redraw(cpu, vram_ptr, REDRAW_ROW);

    cpu.pc = cpu.stack_pop(); // ret
}

/// The video RAM pointer of the bottom row of the map view: 16 tile rows
/// below the top, wrapping within the 32 × 32 tile background map.
pub open spec fn south_row_dest(vram: int) -> u16 {
    (((vram + 0x200) as u16) & 0x03ff) | 0x9800
}

/// Schedules the redraw of the map row at the bottom of the screen, then
/// returns.
pub fn schedule_south_row_redraw(cpu: &mut Cpu)
    requires
        vram_pointer(row_copied(old(cpu).bus(), old(cpu).sp, coord_of(0, 16))) + 0x200 <= 0xffff,
    ensures
        ({
            let copied_bus = row_copied(old(cpu).bus(), old(cpu).sp, coord_of(0, 16));
            let bus = with_redraw(copied_bus, south_row_dest(vram_pointer(copied_bus)) as int, REDRAW_ROW);
            let end = W_REDRAW_ROW_OR_COLUMN_SRC_TILES + REDRAW_ROW_BYTES;
            &&& final(cpu).bus() == bus
            &&& *final(cpu) == (Cpu {
                h: ((coord_of(0, 16) + REDRAW_ROW_BYTES) / 256) as u8,
                l: ((coord_of(0, 16) + REDRAW_ROW_BYTES) % 256) as u8,
                d: (end / 256) as u8,
                e: (end % 256) as u8,
                pc: return_address(bus, old(cpu).sp),
                sp: ((old(cpu).sp + 2) % 0x10000) as u16,
                wram: final(cpu).wram,
                mem: final(cpu).mem,
                ..*old(cpu)
            })
        }),
{
    copy_row(cpu, coord(0, 16));

    let vram_ptr = map_view_vram_pointer(cpu);
    let vram_ptr = ((vram_ptr + 0x200) & 0x03ff) | 0x9800;
    schedule_redraw(cpu, vram_ptr, REDRAW_ROW);

    cpu.pc = cpu.stack_pop(); // ret
}

/// The address of column `x`, row `y` of the screen's tile map.
pub open spec fn coord_of(x: u16, y: u16) -> u16 {
    (y * SCREEN_WIDTH + x + W_TILE_MAP) as u16
}

/// One row of a column copy: the two tiles at `src` to `dst`.
pub open spec fn column_step(bus: Seq<u8>, src: int, dst: int) -> Seq<u8> {
    let first = bus.update(dst, bus[src]);
    first.update(dst + 1, first[src + 1])
}

/// The address space after the first `k` rows of the two-tile column at
/// `hl` have been copied to the redraw buffer.
pub open spec fn column_copied(bus: Seq<u8>, hl: int, k: nat) -> Seq<u8>
    decreases k,
{
    if k == 0 {
        bus
    } else {
        column_step(
            column_copied(bus, hl, (k - 1) as nat),
            hl + (k - 1) * SCREEN_WIDTH,
            W_REDRAW_ROW_OR_COLUMN_SRC_TILES + (k - 1) * 2,
        )
    }
}

/// What the column copy leaves in A: the second tile of its last row.
pub open spec fn column_last_tile(bus: Seq<u8>, hl: int) -> u8 {
    let k = (SCREEN_HEIGHT - 1) as nat;
    let prev = column_copied(bus, hl, k);
    let src = hl + k * SCREEN_WIDTH;
    prev.update(W_REDRAW_ROW_OR_COLUMN_SRC_TILES + k * 2, prev[src])[src + 1]
}

/// Copies the two-tile column at HL, all the screen's rows, to the redraw
/// buffer; A keeps the last tile read, HL and DE end a row past the column
/// and two bytes past the last copied pair.
pub fn schedule_column_redraw_helper(cpu: &mut Cpu)
    requires
        pair(old(cpu).h, old(cpu).l) + SCREEN_HEIGHT * SCREEN_WIDTH <= 0xffff,
    ensures
        ({
            let hl = pair(old(cpu).h, old(cpu).l);
            let hl_end = hl + SCREEN_HEIGHT * SCREEN_WIDTH;
            let de_end = W_REDRAW_ROW_OR_COLUMN_SRC_TILES + SCREEN_HEIGHT * 2;
            &&& final(cpu).bus() == column_copied(old(cpu).bus(), hl, SCREEN_HEIGHT as nat)
            &&& *final(cpu) == (Cpu {
                a: column_last_tile(old(cpu).bus(), hl),
                h: (hl_end / 256) as u8,
                l: (hl_end % 256) as u8,
                d: (de_end / 256) as u8,
                e: (de_end % 256) as u8,
                wram: final(cpu).wram,
                mem: final(cpu).mem,
                ..*old(cpu)
            })
        }),
{
    let ghost c0 = *cpu;
    let ghost hl0 = pair(c0.h, c0.l);
    cpu.set_de(W_REDRAW_ROW_OR_COLUMN_SRC_TILES);

    let mut row: u16 = 0;
    while row < SCREEN_HEIGHT
        invariant
            row <= SCREEN_HEIGHT,
            hl0 + SCREEN_HEIGHT * SCREEN_WIDTH <= 0xffff,
            pair(cpu.h, cpu.l) == hl0 + row * SCREEN_WIDTH,
            pair(cpu.d, cpu.e) == W_REDRAW_ROW_OR_COLUMN_SRC_TILES + row * 2,
            cpu.bus() == column_copied(c0.bus(), hl0, row as nat),
            row == SCREEN_HEIGHT ==> cpu.a == column_last_tile(c0.bus(), hl0),
            *cpu == (Cpu {
                a: cpu.a,
                d: cpu.d,
                e: cpu.e,
                h: cpu.h,
                l: cpu.l,
                wram: cpu.wram,
                mem: cpu.mem,
                ..c0
            }),
        decreases SCREEN_HEIGHT - row,
    {
        let hl = cpu.hl();
        let de = cpu.de();
        cpu.a = cpu.read_byte(hl);
        cpu.write_byte(de, cpu.a);

        cpu.a = cpu.read_byte(hl + 1);
        cpu.write_byte(de + 1, cpu.a);

        cpu.set_hl(hl + SCREEN_WIDTH);
        cpu.set_de(de + 2);
        row = row + 1;
    }
}

/// The address space after the column at `start` has been copied.
pub open spec fn column_copied_at(bus: Seq<u8>, start: u16) -> Seq<u8> {
    column_copied(bus, start as int, SCREEN_HEIGHT as nat)
}

/// Schedules the redraw of the map column at the right edge of the screen,
/// then returns.
pub fn schedule_east_column_redraw(cpu: &mut Cpu)
    ensures
        ({
            let start = coord_of(18, 0);
            let copied_bus = column_copied_at(old(cpu).bus(), start);
            let vram = vram_pointer(copied_bus) as u16;
            let dest = (vram & 0xffe0) | ((((vram + 18) % 0x10000) as u16) & 0x001f);
            let bus = with_redraw(copied_bus, dest as int, REDRAW_COL);
            let hl_end = start + SCREEN_HEIGHT * SCREEN_WIDTH;
            let de_end = W_REDRAW_ROW_OR_COLUMN_SRC_TILES + SCREEN_HEIGHT * 2;
            &&& final(cpu).bus() == bus
            &&& *final(cpu) == (Cpu {
                a: column_last_tile(old(cpu).bus(), start as int),
                h: (hl_end / 256) as u8,
                l: (hl_end % 256) as u8,
                d: (de_end / 256) as u8,
                e: (de_end % 256) as u8,
                pc: return_address(bus, old(cpu).sp),
                sp: ((old(cpu).sp + 2) % 0x10000) as u16,
                wram: final(cpu).wram,
                mem: final(cpu).mem,
                ..*old(cpu)
            })
        }),
{
    cpu.set_hl(coord(18, 0));
    schedule_column_redraw_helper(cpu);

    let vram_ptr = map_view_vram_pointer(cpu);

    let hi_bits = vram_ptr & 0xffe0;
    let low_bits = vram_ptr.wrapping_add(18) & 0x001f;
    schedule_redraw(cpu, hi_bits | low_bits, REDRAW_COL);

    cpu.pc = cpu.stack_pop(); // ret
}

/// Schedules the redraw of the map column at the left edge of the screen,
/// then returns.
pub fn schedule_west_column_redraw(cpu: &mut Cpu)
    ensures
        ({
            let start = coord_of(0, 0);
            let copied_bus = column_copied_at(old(cpu).bus(), start);
            let bus = with_redraw(copied_bus, vram_pointer(copied_bus), REDRAW_COL);
            let hl_end = start + SCREEN_HEIGHT * SCREEN_WIDTH;
            let de_end = W_REDRAW_ROW_OR_COLUMN_SRC_TILES + SCREEN_HEIGHT * 2;
            &&& final(cpu).bus() == bus
            &&& *final(cpu) == (Cpu {
                a: column_last_tile(old(cpu).bus(), start as int),
                h: (hl_end / 256) as u8,
                l: (hl_end % 256) as u8,
                d: (de_end / 256) as u8,
                e: (de_end % 256) as u8,
                pc: return_address(bus, old(cpu).sp),
                sp: ((old(cpu).sp + 2) % 0x10000) as u16,
                wram: final(cpu).wram,
                mem: final(cpu).mem,
                ..*old(cpu)
            })
        }),
{
    cpu.set_hl(coord(0, 0));
    schedule_column_redraw_helper(cpu);

    let vram_ptr = map_view_vram_pointer(cpu);
    schedule_redraw(cpu, vram_ptr, REDRAW_COL);

    cpu.pc = cpu.stack_pop(); // ret
}

/// Moves the player's sprite a step (_AdvancePlayerSprite, far-called) with
/// sprite updates held off meanwhile, then restores the sprite update flag
/// and returns.
pub fn advance_player_sprite(cpu: &mut Cpu)
    requires
        old(cpu).pc + 8 <= u16::MAX,
        old(cpu).cycles + 44 <= u64::MAX,
    ensures
        final(cpu).bus() == old(cpu).bus(),
        final(cpu).requests@ == old(cpu).requests@.push(CpuRequest::Call(BANKSWITCH)),
        *final(cpu) == (Cpu {
            b: 0x3c,
            h: 0x41,
            l: 0x0c,
            pc: return_address(old(cpu).bus(), old(cpu).sp),
            sp: ((old(cpu).sp + 2) % 0x10000) as u16,
            cycles: (old(cpu).cycles + 44) as u64,
            requests: final(cpu).requests,
            wram: final(cpu).wram,
            mem: final(cpu).mem,
            ..*old(cpu)
        }),
{
    let ghost c0 = *cpu;
    proof {
        c0.lemma_bus_len();
        lemma_bus_wram_read(c0.wram, c0.mem, 0x0fca);
    }
    let enabled = cpu.borrow_wram().update_sprites_enabled();

    cpu.borrow_wram_mut().set_update_sprites_enabled(0xff);
    proof {
        lemma_bus_wram_update(c0.wram, cpu.wram, cpu.mem, 0x0fca, 0xff);
    }

    // _AdvancePlayerSprite
    callfar(cpu, 0x3c, 0x410c);

    let ghost c1 = *cpu;
    cpu.borrow_wram_mut().set_update_sprites_enabled(enabled);
    proof {
        lemma_bus_wram_update(c1.wram, cpu.wram, cpu.mem, 0x0fca, enabled);
        assert(cpu.bus() =~= c0.bus());
    }

    cpu.pc = cpu.stack_pop(); // ret
}

/// The size of a map connection header.
pub const MAP_CONNECTION_HEADER_SIZE: u16 = 0x0b;

/// Copies a map connection header from HL to DE; HL ends past it; then
/// returns.
pub fn copy_map_connection_header(cpu: &mut Cpu)
    requires
        pair(old(cpu).h, old(cpu).l) + MAP_CONNECTION_HEADER_SIZE <= 0xffff,
        pair(old(cpu).d, old(cpu).e) + MAP_CONNECTION_HEADER_SIZE <= 0x10000,
    ensures
        ({
            let hl = pair(old(cpu).h, old(cpu).l);
            let bus = copied(old(cpu).bus(), hl, pair(old(cpu).d, old(cpu).e), MAP_CONNECTION_HEADER_SIZE as nat);
            &&& final(cpu).bus() == bus
            &&& *final(cpu) == (Cpu {
                h: ((hl + MAP_CONNECTION_HEADER_SIZE) / 256) as u8,
                l: ((hl + MAP_CONNECTION_HEADER_SIZE) % 256) as u8,
                pc: return_address(bus, old(cpu).sp),
                sp: ((old(cpu).sp + 2) % 0x10000) as u16,
                wram: final(cpu).wram,
                mem: final(cpu).mem,
                ..*old(cpu)
            })
        }),
{
    let ghost c0 = *cpu;
    let hl = cpu.hl();
    let de = cpu.de();
    let mut i: u16 = 0;
    while i < MAP_CONNECTION_HEADER_SIZE
        invariant
            i <= MAP_CONNECTION_HEADER_SIZE,
            hl == pair(c0.h, c0.l),
            de == pair(c0.d, c0.e),
            hl + MAP_CONNECTION_HEADER_SIZE <= 0xffff,
            de + MAP_CONNECTION_HEADER_SIZE <= 0x10000,
            cpu.bus() == copied(c0.bus(), hl as int, de as int, i as nat),
            cpu.only_memory_changed(&c0),
        decreases MAP_CONNECTION_HEADER_SIZE - i,
    {
        let byte = cpu.read_byte(hl + i);
        cpu.write_byte(de + i, byte);
        i = i + 1;
    }

    cpu.set_hl(hl + MAP_CONNECTION_HEADER_SIZE);

    cpu.pc = cpu.stack_pop(); // ret
}

/// The ROM routines that build the map view.
pub const LOAD_TILE_BLOCK_MAP: u16 = 0x083c;

pub const LOAD_TILESET_TILE_PATTERN_DATA: u16 = 0x0828;

pub const LOAD_CURRENT_MAP_VIEW: u16 = 0x0b06;

/// Has the tile block map, the tileset's tile patterns and the map view
/// loaded.
pub fn load_screen_related_data(cpu: &mut Cpu)
    ensures
        final(cpu).requests@ == old(cpu).requests@.push(CpuRequest::Call(LOAD_TILE_BLOCK_MAP)).push(
            CpuRequest::Call(LOAD_TILESET_TILE_PATTERN_DATA),
        ).push(CpuRequest::Call(LOAD_CURRENT_MAP_VIEW)),
        *final(cpu) == (Cpu { requests: final(cpu).requests, ..*old(cpu) }),
{
    cpu.call(LOAD_TILE_BLOCK_MAP); // LoadTileBlockMap
    cpu.call(LOAD_TILESET_TILE_PATTERN_DATA); // LoadTilesetTilePatternData
    cpu.call(LOAD_CURRENT_MAP_VIEW); // LoadCurrentMapView
}

/// The address space after the first `k` rows of the screen's tile map
/// have been copied to the background map at `dst`.
pub open spec fn map_view_copied(bus: Seq<u8>, dst: int, k: nat) -> Seq<u8>
    decreases k,
{
    if k == 0 {
        bus
    } else {
        copied(
            map_view_copied(bus, dst, (k - 1) as nat),
            W_TILE_MAP + (k - 1) * SCREEN_WIDTH,
            dst + (k - 1) * BG_MAP_WIDTH,
            SCREEN_WIDTH as nat,
        )
    }
}

/// Copies the screen's tile map into the background map at `dst`, a row of
/// the screen to each background row; HL and DE end a row past each.
pub fn copy_map_view_to_vram(cpu: &mut Cpu, dst: u16)
    requires
        dst + SCREEN_HEIGHT * BG_MAP_WIDTH <= 0xffff,
    ensures
        ({
            let hl_end = W_TILE_MAP + SCREEN_HEIGHT * SCREEN_WIDTH;
            let de_end = dst + SCREEN_HEIGHT * BG_MAP_WIDTH;
            &&& final(cpu).bus() == map_view_copied(old(cpu).bus(), dst as int, SCREEN_HEIGHT as nat)
            &&& *final(cpu) == (Cpu {
                h: (hl_end / 256) as u8,
                l: (hl_end % 256) as u8,
                d: (de_end / 256) as u8,
                e: (de_end % 256) as u8,
                wram: final(cpu).wram,
                mem: final(cpu).mem,
                ..*old(cpu)
            })
        }),
{
    let ghost c0 = *cpu;
    cpu.set_hl(W_TILE_MAP);
    cpu.set_de(dst);

    let mut row: u16 = 0;
    while row < SCREEN_HEIGHT
        invariant
            row <= SCREEN_HEIGHT,
            dst + SCREEN_HEIGHT * BG_MAP_WIDTH <= 0xffff,
            pair(cpu.h, cpu.l) == W_TILE_MAP + row * SCREEN_WIDTH,
            pair(cpu.d, cpu.e) == dst + row * BG_MAP_WIDTH,
            cpu.bus() == map_view_copied(c0.bus(), dst as int, row as nat),
            *cpu == (Cpu { d: cpu.d, e: cpu.e, h: cpu.h, l: cpu.l, wram: cpu.wram, mem: cpu.mem, ..c0 }),
        decreases SCREEN_HEIGHT - row,
    {
        let hl = cpu.hl();
        let de = cpu.de();
        let ghost before = *cpu;
        let mut x: u16 = 0;
        while x < SCREEN_WIDTH
            invariant
                x <= SCREEN_WIDTH,
                hl == W_TILE_MAP + row * SCREEN_WIDTH,
                de == dst + row * BG_MAP_WIDTH,
                row < SCREEN_HEIGHT,
                dst + SCREEN_HEIGHT * BG_MAP_WIDTH <= 0xffff,
                cpu.bus() == copied(before.bus(), hl as int, de as int, x as nat),
                cpu.only_memory_changed(&before),
            decreases SCREEN_WIDTH - x,
        {
            let byte = cpu.read_byte(hl + x);
            cpu.write_byte(de + x, byte);
            x = x + 1;
        }

        cpu.set_hl(hl + SCREEN_WIDTH);
        cpu.set_de(de + BG_MAP_WIDTH);
        row = row + 1;
    }
}

/// The ROM routine that sets the map's script flags when it is reloaded,
/// and its bank.
pub const SET_MAP_SPECIFIC_SCRIPT_FLAGS_ON_MAP_RELOAD: u16 = 0x42da;

pub const BANK_SET_MAP_SPECIFIC_SCRIPT_FLAGS: u8 = 0x3c;

/// Reloads the map after the printer: switches to the current map's header
/// bank, has the tile block map loaded, switches back to the bank that was
/// loaded, far-calls SetMapSpecificScriptFlagsOnMapReload; then returns.
pub fn reload_map_after_printer(cpu: &mut Cpu)
    requires
        MAP_HEADER_BANKS + old(cpu).wram.wram()[0x135d] < old(cpu).rom@.len(),
        old(cpu).cycles + 44 <= u64::MAX,
    ensures
        ({
            let bus = pushed_return(old(cpu).bus(), old(cpu).sp);
            let saved_bank = old(cpu).wram.hram()[0x38];
            &&& final(cpu).bus() == bus
            &&& final(cpu).requests@ == old(cpu).requests@.push(CpuRequest::Call(BANKSWITCH_COMMON)).push(
                CpuRequest::Call(LOAD_TILE_BLOCK_MAP),
            ).push(CpuRequest::Call(BANKSWITCH_COMMON)).push(CpuRequest::Call(BANKSWITCH))
            &&& *final(cpu) == (Cpu {
                a: saved_bank,
                b: BANK_SET_MAP_SPECIFIC_SCRIPT_FLAGS,
                h: (SET_MAP_SPECIFIC_SCRIPT_FLAGS_ON_MAP_RELOAD / 256) as u8,
                l: (SET_MAP_SPECIFIC_SCRIPT_FLAGS_ON_MAP_RELOAD % 256) as u8,
                pc: return_address(bus, old(cpu).sp),
                sp: ((old(cpu).sp + 2) % 0x10000) as u16,
                cycles: (old(cpu).cycles + 44) as u64,
                requests: final(cpu).requests,
                wram: final(cpu).wram,
                mem: final(cpu).mem,
                ..*old(cpu)
            })
        }),
{
    let ghost c0 = *cpu;
    proof {
        c0.lemma_bus_len();
    }
    let saved_bank = cpu.borrow_wram().loaded_rom_bank();

    cpu.a = cpu.borrow_wram().cur_map();

    cpu.stack_push(0x0001);
    switch_to_map_rom_bank(cpu);
    proof {
        let sp = c0.sp as int;
        let top = (sp - 2) % 0x10000;
        assert((top + 1) % 0x10000 == (sp - 1) % 0x10000);
        assert((top + 2) % 0x10000 == sp);
        assert(cpu.pc <= 1);
    }

    cpu.call(LOAD_TILE_BLOCK_MAP); // LoadTileBlockMap

    cpu.a = saved_bank;
    cpu.call(BANKSWITCH_COMMON); // BankswitchCommon

    // SetMapSpecificScriptFlagsOnMapReload
    farcall(cpu, BANK_SET_MAP_SPECIFIC_SCRIPT_FLAGS, SET_MAP_SPECIFIC_SCRIPT_FLAGS_ON_MAP_RELOAD);

    cpu.pc = cpu.stack_pop(); // ret
}

/// The outcome of scanning a tile pair collision table from entry `i` on, as
/// `check_for_tile_pair_collisions` scans it: `Some(true)` at the first
/// entry for `tileset` whose two tiles are both `cur` or `next`, `Some(false)`
/// at the 0xFF that ends the table, `None` when the scan would run past the
/// end of the address space first. Each entry is a tileset and two tiles.
pub open spec fn pair_scan(bus: Seq<u8>, hl: int, tileset: u8, cur: u8, next: u8, i: int) -> Option<bool>
    decreases 0x10002 - (hl + 3 * i),
    when 0 <= hl && 0 <= i
{
    let e = hl + 3 * i;
    if e > 0xffff {
        None
    } else if bus[e] == 0xff {
        Some(false)
    } else if bus[e] != tileset {
        pair_scan(bus, hl, tileset, cur, next, i + 1)
    } else if e + 1 > 0xffff {
        None
    } else if bus[e + 1] != cur && bus[e + 1] != next {
        pair_scan(bus, hl, tileset, cur, next, i + 1)
    } else if e + 2 > 0xffff {
        None
    } else if bus[e + 2] != cur && bus[e + 2] != next {
        pair_scan(bus, hl, tileset, cur, next, i + 1)
    } else {
        Some(true)
    }
}

/// The collision table scan for the current state: the table at HL, the
/// current tileset, the tile the player stands on and the one in front.
pub open spec fn pair_collision(cpu: Cpu) -> Option<bool> {
    let w = cpu.wram.wram();
    pair_scan(cpu.bus(), pair(cpu.h, cpu.l), w[0x1366], w[0x0f0e], w[0x0fc5], 0)
}

/// Input: hl = pointer to TilePairCollisions* table \
/// Output: carry flag set if there is a collision, unset if there isn't;
/// then returns.
pub fn check_for_tile_pair_collisions(cpu: &mut Cpu)
    requires
        pair_collision(*old(cpu)) is Some,
    ensures
        *final(cpu) == (Cpu {
            f: with_flag(old(cpu).f, CpuFlag::C, pair_collision(*old(cpu))->0),
            pc: return_address(old(cpu).bus(), old(cpu).sp),
            sp: ((old(cpu).sp + 2) % 0x10000) as u16,
            ..*old(cpu)
        }),
{
    let ghost c0 = *cpu;
    proof {
        c0.lemma_bus_len();
        lemma_bus_wram_read(c0.wram, c0.mem, 0x1366);
        lemma_bus_wram_read(c0.wram, c0.mem, 0x0f0e);
        lemma_bus_wram_read(c0.wram, c0.mem, 0x0fc5);
    }
    let cur_tileset = cpu.borrow_wram().cur_map_tileset();
    let cur_tile = cpu.borrow_wram().tile_player_standing_on();
    let next_tile = cpu.borrow_wram().tile_in_front_of_player();
    let hl = cpu.hl();
    let ghost bus = c0.bus();

    let mut i: u16 = 0;
    loop
        invariant
            hl == pair(c0.h, c0.l),
            *cpu == c0,
            c0 == *old(cpu),
            bus == c0.bus(),
            bus.len() == 0x10000,
            cur_tileset == c0.wram.wram()[0x1366],
            cur_tile == c0.wram.wram()[0x0f0e],
            next_tile == c0.wram.wram()[0x0fc5],
            pair_scan(bus, hl as int, cur_tileset, cur_tile, next_tile, i as int) == pair_collision(c0),
            pair_collision(c0) is Some,
            hl + 3 * i <= 0xffff,
        decreases 0x10000 - (hl + 3 * i),
    {
        let e = hl + i * 3;
        let pair_tileset = cpu.read_byte(e);

        if pair_tileset == 0xff {
            cpu.set_flag(CpuFlag::C, false);
            cpu.pc = cpu.stack_pop(); // ret
            return;
        }

        let mut hit = false;
        if pair_tileset == cur_tileset {
            let pair_lhs = cpu.read_byte(e + 1);
            if pair_lhs == cur_tile || pair_lhs == next_tile {
                let pair_rhs = cpu.read_byte(e + 2);
                if pair_rhs == cur_tile || pair_rhs == next_tile {
                    hit = true;
                }
            }
        }

        if hit {
            cpu.set_flag(CpuFlag::C, true);
            cpu.pc = cpu.stack_pop(); // ret
            return;
        }

        i = i + 1;
        assert(pair_scan(bus, hl as int, cur_tileset, cur_tile, next_tile, i as int) is Some);
    }
}

/// The collision table scan once the tile under the player (the tile map's
/// tile at column 8, row 9) is noted in work RAM.
pub open spec fn pair_collision_standing(cpu: Cpu) -> Option<bool> {
    let bus = cpu.bus();
    let tile = bus[coord_of(8, 9) as int];
    let w = cpu.wram.wram();
    pair_scan(bus.update(WRAM_BEGIN + 0x0f0e, tile), pair(cpu.h, cpu.l), w[0x1366], tile, w[0x0fc5], 0)
}

/// Notes the tile the player stands on (the tile map's tile at column 8,
/// row 9), then checks the collision table at HL as
/// `check_for_tile_pair_collisions` does.
pub fn check_for_tile_pair_collisions2(cpu: &mut Cpu)
    requires
        pair_collision_standing(*old(cpu)) is Some,
    ensures
        ({
            let tile = old(cpu).bus()[coord_of(8, 9) as int];
            let bus = old(cpu).bus().update(WRAM_BEGIN + 0x0f0e, tile);
            &&& final(cpu).wram.wram() == old(cpu).wram.wram().update(0x0f0e, tile)
            &&& final(cpu).wram.hram() == old(cpu).wram.hram()
            &&& final(cpu).bus() == bus
            &&& *final(cpu) == (Cpu {
                f: with_flag(old(cpu).f, CpuFlag::C, pair_collision_standing(*old(cpu))->0),
                pc: return_address(bus, old(cpu).sp),
                sp: ((old(cpu).sp + 2) % 0x10000) as u16,
                wram: final(cpu).wram,
                ..*old(cpu)
            })
        }),
{
    let ghost c0 = *cpu;
    proof {
        c0.lemma_bus_len();
        c0.wram.lemma_sizes();
    }
    let tile = cpu.read_byte(coord(8, 9));
    assert(tile == c0.bus()[coord_of(8, 9) as int]);
    cpu.borrow_wram_mut().set_tile_player_standing_on(tile);
    proof {
        lemma_bus_wram_update(c0.wram, cpu.wram, cpu.mem, 0x0f0e, tile);
        assert(cpu.wram.wram()[0x1366] == c0.wram.wram()[0x1366]);
        assert(cpu.wram.wram()[0x0fc5] == c0.wram.wram()[0x0fc5]);
        assert(cpu.wram.wram()[0x0f0e] == tile);
        assert(pair_collision(*cpu) == pair_collision_standing(c0));
    }

    check_for_tile_pair_collisions(cpu);
}

/// The ROM routine that updates the sprites.
pub const UPDATE_SPRITES: u16 = 0x231c;

/// The address of work RAM byte `i`.
pub open spec fn wram_addr(i: int) -> int {
    WRAM_BEGIN + i
}

/// The address space once a fly or dungeon warp has reset the battle
/// state: the last battle counts as won, no battle is on, the map palette
/// offset is zero, the fly/dungeon warp bit (wd732 bit 2) is set and the
/// forced bike bit (bit 5) cleared.
pub open spec fn warp_reset_bus(bus: Seq<u8>) -> Seq<u8> {
    let d732 = wram_addr(0x1731);
    bus.update(wram_addr(0x0f0b), 0).update(wram_addr(0x1056), 0).update(wram_addr(0x135c), 0).update(
        d732,
        with_bit(with_bit(bus[d732], 2, true), 5, false),
    )
}

/// Resets the battle state for a fly or dungeon warp.
fn reset_for_warp(cpu: &mut Cpu)
    ensures
        final(cpu).bus() == warp_reset_bus(old(cpu).bus()),
        final(cpu).only_memory_changed(old(cpu)),
{
    let ghost c0 = *cpu;
    proof {
        c0.wram.lemma_sizes();
        lemma_bus_wram_read(c0.wram, c0.mem, 0x1731);
    }
    cpu.borrow_wram_mut().set_battle_result(BattleResult::Win);
    proof {
        lemma_bus_wram_update(c0.wram, cpu.wram, cpu.mem, 0x0f0b, 0);
    }
    let ghost c1 = *cpu;
    cpu.borrow_wram_mut().set_is_in_battle(0);
    proof {
        lemma_bus_wram_update(c1.wram, cpu.wram, cpu.mem, 0x1056, 0);
    }
    let ghost c2 = *cpu;
    cpu.borrow_wram_mut().set_map_pal_offset(0);
    proof {
        lemma_bus_wram_update(c2.wram, cpu.wram, cpu.mem, 0x135c, 0);
    }
    let ghost c3 = *cpu;
    cpu.borrow_wram_mut().set_fly_or_dungeon_warp(true);
    proof {
        lemma_bus_wram_update(c3.wram, cpu.wram, cpu.mem, 0x1731, with_bit(c3.wram.wram()[0x1731], 2, true));
    }
    let ghost c4 = *cpu;
    cpu.borrow_wram_mut().set_forced_to_ride_bike(false);
    proof {
        lemma_bus_wram_update(c4.wram, cpu.wram, cpu.mem, 0x1731, with_bit(c4.wram.wram()[0x1731], 5, false));
        assert(c3.wram.wram()[0x1731] == c0.wram.wram()[0x1731]);
        assert(c4.wram.wram()[0x1731] == with_bit(c0.wram.wram()[0x1731], 2, true));
        assert(battle_result_value(BattleResult::Win) == 0);
        c0.lemma_bus_len();
        assert(cpu.bus() =~= warp_reset_bus(c0.bus()));
    }
}

/// Whether the player is biking or surfing, and whether they jumped into a
/// hole (wd732 bit 4), in the address space `bus`.
pub open spec fn riding(bus: Seq<u8>) -> bool {
    bus[wram_addr(0x16ff)] != 0
}

pub open spec fn jumped_into_hole(bus: Seq<u8>) -> bool {
    has_bit(bus[wram_addr(0x1731)], 4)
}

/// Gets off the bike or out of the water: the player walks again, and the
/// default music plays again when they jumped into a hole.
fn stop_bike_surf(cpu: &mut Cpu)
    ensures
        ({
            let bus = old(cpu).bus();
            &&& final(cpu).bus() == if riding(bus) { bus.update(wram_addr(0x16ff), 0) } else { bus }
            &&& final(cpu).requests@ == if riding(bus) && jumped_into_hole(bus) {
                old(cpu).requests@.push(CpuRequest::Call(PLAY_DEFAULT_MUSIC))
            } else {
                old(cpu).requests@
            }
            &&& *final(cpu) == (Cpu { requests: final(cpu).requests, wram: final(cpu).wram, mem: final(cpu).mem, ..*old(cpu) })
        }),
{
    let ghost c0 = *cpu;
    proof {
        c0.wram.lemma_sizes();
        lemma_bus_wram_read(c0.wram, c0.mem, 0x16ff);
        lemma_bus_wram_read(c0.wram, c0.mem, 0x1731);
    }
    let is_walking = cpu.borrow_wram().walk_bike_surf_state() == 0;

    if !is_walking {
        cpu.borrow_wram_mut().set_walk_bike_surf_state(0);
        proof {
            lemma_bus_wram_update(c0.wram, cpu.wram, cpu.mem, 0x16ff, 0);
            lemma_bus_wram_read(cpu.wram, cpu.mem, 0x1731);
        }

        if cpu.borrow_wram().jumped_into_hole() {
            cpu.call(PLAY_DEFAULT_MUSIC); // PlayDefaultMusic
        }
    }
}

/// The ROM routine that animates leaving the map, and its bank.
pub const LEAVE_MAP_ANIM: u16 = 0x4615;

pub const BANK_LEAVE_MAP_ANIM: u8 = 0x1c;

/// Handles a fly or dungeon warp: updates the sprites, waits for the
/// background map, resets the battle state, plays the leaving animation,
/// gets off the bike or out of the water, and enters the destination
/// (PrepareForSpecialWarp, SpecialEnterMap in bank 1); then returns.
pub fn handle_fly_warp_or_dungeon_warp(cpu: &mut Cpu)
    requires
        old(cpu).pc + 8 <= u16::MAX,
        old(cpu).cycles + 44 <= u64::MAX,
    ensures
        ({
            let waited = old(cpu).bus().update(H_VBLANK_OCCURRED as int, NOT_VBLANKED);
            let reset = warp_reset_bus(waited);
            let bus = if riding(reset) { reset.update(wram_addr(0x16ff), 0) } else { reset };
            let music = if riding(reset) && jumped_into_hole(reset) {
                seq![CpuRequest::Call(PLAY_DEFAULT_MUSIC)]
            } else {
                Seq::<CpuRequest>::empty()
            };
            &&& final(cpu).bus() == bus
            &&& final(cpu).requests@ == old(cpu).requests@.push(CpuRequest::Call(UPDATE_SPRITES)) + Seq::new(
                3,
                |i: int| CpuRequest::WaitVBlank,
            ) + seq![CpuRequest::Call(BANKSWITCH)] + music + seq![
                CpuRequest::Call(BANKSWITCH_COMMON),
                CpuRequest::Call(PREPARE_FOR_SPECIAL_WARP),
                CpuRequest::Call(SPECIAL_ENTER_MAP),
            ]
            &&& *final(cpu) == (Cpu {
                a: 0x01,
                b: BANK_LEAVE_MAP_ANIM,
                h: (LEAVE_MAP_ANIM / 256) as u8,
                l: (LEAVE_MAP_ANIM % 256) as u8,
                halted: true,
                pc: return_address(bus, old(cpu).sp),
                sp: ((old(cpu).sp + 2) % 0x10000) as u16,
                cycles: (old(cpu).cycles + 44) as u64,
                requests: final(cpu).requests,
                wram: final(cpu).wram,
                mem: final(cpu).mem,
                ..*old(cpu)
            })
        }),
{
    let ghost c0 = *cpu;
    cpu.call(UPDATE_SPRITES); // UpdateSprites
    delay3(cpu);

    reset_for_warp(cpu);

    farcall(cpu, BANK_LEAVE_MAP_ANIM, LEAVE_MAP_ANIM); // _LeaveMapAnim
    let ghost c1 = *cpu;

    stop_bike_surf(cpu);
    let ghost c2 = *cpu;

    cpu.a = 0x01; // BANK(PrepareForSpecialWarp) and BANK(SpecialEnterMap)
    cpu.call(BANKSWITCH_COMMON); // BankswitchCommon

    cpu.call(PREPARE_FOR_SPECIAL_WARP); // PrepareForSpecialWarp
    cpu.call(SPECIAL_ENTER_MAP); // SpecialEnterMap

    proof {
        let waited = c0.bus().update(H_VBLANK_OCCURRED as int, NOT_VBLANKED);
        let reset = warp_reset_bus(waited);
        let music = if riding(reset) && jumped_into_hole(reset) {
            seq![CpuRequest::Call(PLAY_DEFAULT_MUSIC)]
        } else {
            Seq::<CpuRequest>::empty()
        };
        assert(c2.requests@ =~= c1.requests@ + music);
        assert(cpu.requests@ =~= c0.requests@.push(CpuRequest::Call(UPDATE_SPRITES)) + Seq::new(
            3,
            |i: int| CpuRequest::WaitVBlank,
        ) + seq![CpuRequest::Call(BANKSWITCH)] + music + seq![
            CpuRequest::Call(BANKSWITCH_COMMON),
            CpuRequest::Call(PREPARE_FOR_SPECIAL_WARP),
            CpuRequest::Call(SPECIAL_ENTER_MAP),
        ]);
    }

    cpu.pc = cpu.stack_pop(); // ret
}

} // verus!
