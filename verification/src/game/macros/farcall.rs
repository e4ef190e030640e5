use vstd::prelude::*;

use crate::cpu::{Cpu, CpuRequest};

verus! {

/// The Bankswitch routine of the ROM: calls HL in bank B.
pub const BANKSWITCH: u16 = 0x3e84;

/// The routine that changes Pikachu's happiness, and its bank.
pub const MODIFY_PIKACHU_HAPPINESS: u16 = 0x430a;

pub const BANK_MODIFY_PIKACHU_HAPPINESS: u8 = 0x3d;

/// `new` is `old` after a far call of `addr` in `bank` through Bankswitch,
/// taking `len` bytes of code and `cycles` clock cycles: B holds the bank,
/// HL the address, the call is handed out, and the program counter is past
/// the code.
pub open spec fn far_called(new: &Cpu, old: &Cpu, bank: u8, addr: u16, len: int, cycles: int) -> bool {
    &&& new.requests@ == old.requests@.push(CpuRequest::Call(BANKSWITCH))
    &&& *new == (Cpu {
        b: bank,
        h: (addr / 256) as u8,
        l: (addr % 256) as u8,
        pc: (old.pc + len) as u16,
        cycles: (old.cycles + cycles) as u64,
        requests: new.requests,
        ..*old
    })
}

/// `farcall`: `ld b, BANK(addr)`, `ld hl, addr`, `call Bankswitch`.
pub fn farcall(cpu: &mut Cpu, bank: u8, addr: u16)
    requires
        old(cpu).pc + 8 <= u16::MAX,
        old(cpu).cycles + 44 <= u64::MAX,
    ensures
        far_called(final(cpu), old(cpu), bank, addr, 8, 44),
{
    // ld b, BANK(\1)
    cpu.b = bank;
    cpu.pc = cpu.pc + 2;
    cpu.cycle(8);

    // ld hl, \1
    cpu.set_hl(addr);
    cpu.pc = cpu.pc + 3;
    cpu.cycle(12);

    // call Bankswitch
    let pc = cpu.pc;
    cpu.cycle(24);
    cpu.call(BANKSWITCH);
    cpu.pc = pc + 3;
}

/// `callfar`: `ld hl, addr`, `ld b, BANK(addr)`, `call Bankswitch`.
pub fn callfar(cpu: &mut Cpu, bank: u8, addr: u16)
    requires
        old(cpu).pc + 8 <= u16::MAX,
        old(cpu).cycles + 44 <= u64::MAX,
    ensures
        far_called(final(cpu), old(cpu), bank, addr, 8, 44),
{
    // ld hl, \1
    cpu.set_hl(addr);
    cpu.pc = cpu.pc + 3;
    cpu.cycle(12);

    // ld b, BANK(\1)
    cpu.b = bank;
    cpu.pc = cpu.pc + 2;
    cpu.cycle(8);

    // call Bankswitch
    let pc = cpu.pc;
    cpu.cycle(24);
    cpu.call(BANKSWITCH);
    cpu.pc = pc + 3;
}

/// `callabd ModifyPikachuHappiness, pikahappy`: D holds the kind of change.
pub fn callabd_modify_pikachu_happiness(cpu: &mut Cpu, pikahappy: u8)
    requires
        old(cpu).pc + 10 <= u16::MAX,
        old(cpu).cycles + 52 <= u64::MAX,
    ensures
        final(cpu).requests@ == old(cpu).requests@.push(CpuRequest::Call(BANKSWITCH)),
        *final(cpu) == (Cpu {
            b: BANK_MODIFY_PIKACHU_HAPPINESS,
            d: pikahappy,
            h: (MODIFY_PIKACHU_HAPPINESS / 256) as u8,
            l: (MODIFY_PIKACHU_HAPPINESS % 256) as u8,
            pc: (old(cpu).pc + 10) as u16,
            cycles: (old(cpu).cycles + 52) as u64,
            requests: final(cpu).requests,
            ..*old(cpu)
        }),
{
    // ld hl, ModifyPikachuHappiness
    cpu.set_hl(MODIFY_PIKACHU_HAPPINESS);
    cpu.pc = cpu.pc + 3;
    cpu.cycle(12);

    // ld b, BANK(ModifyPikachuHappiness)
    cpu.b = BANK_MODIFY_PIKACHU_HAPPINESS;
    cpu.pc = cpu.pc + 2;
    cpu.cycle(8);

    // ld d, \1
    cpu.d = pikahappy;
    cpu.pc = cpu.pc + 2;
    cpu.cycle(8);

    // call Bankswitch
    let pc = cpu.pc;
    cpu.cycle(24);
    cpu.call(BANKSWITCH);
    cpu.pc = pc + 3;
}

} // verus!
