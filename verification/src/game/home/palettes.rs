use vstd::prelude::*;

use crate::cpu::{Cpu, CpuRequest};
use crate::game::constants::{R_BGP, R_OBP0, R_OBP1, SET_PAL_DEFAULT};
use crate::game::macros::predef::{predef_jump, PREDEF, RUN_PALETTE_COMMAND};

use super::delay::delay_frames;
use super::vblank::waited_frames;

verus! {

/// The routines of the ROM that copy each palette register to the colour
/// palettes.
pub const UPDATE_GBC_PAL_BGP: u16 = 0x3021;

pub const UPDATE_GBC_PAL_OBP0: u16 = 0x3040;

pub const UPDATE_GBC_PAL_OBP1: u16 = 0x3061;

/// The usual background palette and first object palette.
pub const NORMAL_BGP: u8 = 0b11100100;

pub const NORMAL_OBP0: u8 = 0b11010000;

/// `new` is `old` with the three palette registers set to `bgp`, `obp0` and
/// `obp1`, and the three colour-palette updates handed out.
pub open spec fn palettes_set(new: &Cpu, old: &Cpu, bgp: u8, obp0: u8, obp1: u8) -> bool {
    &&& new.bus() == old.bus().update(R_BGP as int, bgp).update(R_OBP0 as int, obp0).update(
        R_OBP1 as int,
        obp1,
    )
    &&& new.requests@ == old.requests@.push(CpuRequest::Call(UPDATE_GBC_PAL_BGP)).push(
        CpuRequest::Call(UPDATE_GBC_PAL_OBP0),
    ).push(CpuRequest::Call(UPDATE_GBC_PAL_OBP1))
    &&& *new == (Cpu { requests: new.requests, wram: new.wram, mem: new.mem, ..*old })
}

fn set_palettes(cpu: &mut Cpu, bgp: u8, obp0: u8, obp1: u8)
    ensures
        palettes_set(final(cpu), old(cpu), bgp, obp0, obp1),
{
    cpu.write_byte(R_BGP, bgp);
    cpu.write_byte(R_OBP0, obp0);
    cpu.write_byte(R_OBP1, obp1);

    cpu.call(UPDATE_GBC_PAL_BGP);
    cpu.call(UPDATE_GBC_PAL_OBP0);
    cpu.call(UPDATE_GBC_PAL_OBP1);
}

/// White out all palettes, then wait for the bg map to update.
pub fn gb_pal_white_out_with_delay3(cpu: &mut Cpu)
    ensures
        exists|mid: Cpu|
            palettes_set(&mid, old(cpu), 0, 0, 0) && #[trigger] waited_frames(final(cpu), &mid, 3),
{
    gb_pal_white_out(cpu);
    let ghost mid = *cpu;
    delay3(cpu);
    assert(waited_frames(cpu, &mid, 3));
}

/// The bg map is updated each frame in thirds.
/// Wait three frames to let the bg map fully update.
pub fn delay3(cpu: &mut Cpu)
    ensures
        waited_frames(final(cpu), old(cpu), 3),
{
    delay_frames(cpu, 3);
}

/// Reset BGP and OBP0.
pub fn gb_pal_normal(cpu: &mut Cpu)
    ensures
        palettes_set(final(cpu), old(cpu), NORMAL_BGP, NORMAL_OBP0, 0),
{
    set_palettes(cpu, NORMAL_BGP, NORMAL_OBP0, 0);
}

/// White out all palettes.
pub fn gb_pal_white_out(cpu: &mut Cpu)
    ensures
        palettes_set(final(cpu), old(cpu), 0, 0, 0),
{
    set_palettes(cpu, 0, 0, 0);
}

/// `new` is `old` after jumping to the palette command `palette`: B holds the
/// command and the predefined routine that runs it takes over.
pub open spec fn palette_command_run(new: &Cpu, old: &Cpu, palette: u8) -> bool {
    &&& new.requests@ == old.requests@.push(CpuRequest::Jump(PREDEF))
    &&& *new == (Cpu {
        a: RUN_PALETTE_COMMAND,
        b: palette,
        pc: PREDEF,
        cycles: (old.cycles + 24) as u64,
        requests: new.requests,
        ..*old
    })
}

/// Run the palette command that picks the palettes for the current situation.
pub fn run_default_palette_command(cpu: &mut Cpu)
    requires
        old(cpu).cycles + 24 <= u64::MAX,
    ensures
        palette_command_run(final(cpu), old(cpu), SET_PAL_DEFAULT),
{
    run_palette_command(cpu, SET_PAL_DEFAULT);
}

/// Run the palette command `palette`.
pub fn run_palette_command(cpu: &mut Cpu, palette: u8)
    requires
        old(cpu).cycles + 24 <= u64::MAX,
    ensures
        palette_command_run(final(cpu), old(cpu), palette),
{
    cpu.b = palette;
    predef_jump(cpu, RUN_PALETTE_COMMAND);
}

} // verus!
