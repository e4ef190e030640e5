use vstd::prelude::*;

use crate::cpu::Cpu;
use crate::game::ram::wram::{W_PREDEF_BC, W_PREDEF_DE, W_PREDEF_HL};

verus! {

/// Restore the contents of register pairs when GetPredefPointer was called,
/// then return.
pub fn get_predef_registers(cpu: &mut Cpu)
    ensures
        ({
            let bus = old(cpu).bus();
            let sp = old(cpu).sp;
            *final(cpu) == (Cpu {
                h: bus[W_PREDEF_HL as int],
                l: bus[W_PREDEF_HL + 1],
                d: bus[W_PREDEF_DE as int],
                e: bus[W_PREDEF_DE + 1],
                b: bus[W_PREDEF_BC as int],
                c: bus[W_PREDEF_BC + 1],
                pc: (bus[sp as int] as int + bus[(sp + 1) % 0x10000] as int * 256) as u16,
                sp: ((sp + 2) % 0x10000) as u16,
                ..*old(cpu)
            })
        }),
{
    cpu.h = cpu.read_byte(W_PREDEF_HL);
    cpu.l = cpu.read_byte(W_PREDEF_HL + 1);

    cpu.d = cpu.read_byte(W_PREDEF_DE);
    cpu.e = cpu.read_byte(W_PREDEF_DE + 1);

    cpu.b = cpu.read_byte(W_PREDEF_BC);
    cpu.c = cpu.read_byte(W_PREDEF_BC + 1);

    cpu.pc = cpu.stack_pop(); // ret
}

} // verus!
