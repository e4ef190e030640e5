use vstd::prelude::*;

use crate::cpu::{Cpu, CpuRequest};

verus! {

/// The routine of the ROM that runs the predefined routine numbered A.
pub const PREDEF: u16 = 0x3eb4;

/// Numbers of the predefined routines the game code runs.
pub const COPY_UNCOMPRESSED_PIC_TO_TILEMAP: u8 = 0x01;

pub const COPY_DOWNSCALED_MON_TILES: u8 = 0x05;

pub const HEAL_PARTY: u8 = 0x07;

pub const APPLY_OUT_OF_BATTLE_POISON_DAMAGE: u8 = 0x13;

pub const LOAD_TILESET_HEADER: u8 = 0x19;

pub const GET_QUANTITY_OF_ITEM_IN_BAG: u8 = 0x1c;

pub const GET_TILE_AND_COORDS_IN_FRONT_OF_PLAYER: u8 = 0x35;

pub const RUN_PALETTE_COMMAND: u8 = 0x45;

pub const LOAD_SAV: u8 = 0x52;

pub const DRAW_HP: u8 = 0x5f;

/// `predef id`: `ld a, id`, `call Predef`.
pub fn predef_call(cpu: &mut Cpu, id: u8)
    requires
        old(cpu).cycles + 32 <= u64::MAX,
    ensures
        final(cpu).requests@ == old(cpu).requests@.push(CpuRequest::Call(PREDEF)),
        *final(cpu) == (Cpu {
            a: id,
            cycles: (old(cpu).cycles + 32) as u64,
            requests: final(cpu).requests,
            ..*old(cpu)
        }),
{
    // LD A,u8
    cpu.a = id;
    cpu.cycle(8);

    // CALL u16
    cpu.cycle(24);
    cpu.call(PREDEF);
}

/// `predef_jump id`: `ld a, id`, `jp Predef`.
pub fn predef_jump(cpu: &mut Cpu, id: u8)
    requires
        old(cpu).cycles + 24 <= u64::MAX,
    ensures
        final(cpu).requests@ == old(cpu).requests@.push(CpuRequest::Jump(PREDEF)),
        *final(cpu) == (Cpu {
            a: id,
            pc: PREDEF,
            cycles: (old(cpu).cycles + 24) as u64,
            requests: final(cpu).requests,
            ..*old(cpu)
        }),
{
    // LD A,u8
    cpu.a = id;
    cpu.cycle(8);

    // JP u16
    cpu.cycle(16);
    cpu.jump(PREDEF);
}

} // verus!
