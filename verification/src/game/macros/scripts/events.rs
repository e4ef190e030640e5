use vstd::prelude::*;

use crate::bytes::{has_bit, with_bit};
use crate::cpu::{flag_set, with_flag, Cpu, CpuFlag};
use crate::game::ram::wram::W_EVENT_FLAGS;

verus! {

/// The address of the byte that holds event flag `event_index`.
pub open spec fn event_byte_addr(event_index: u16) -> int {
    W_EVENT_FLAGS + event_index / 8
}

/// Whether event flag `event_index` is set in the address space `bus`.
pub open spec fn event_set(bus: Seq<u8>, event_index: u16) -> bool {
    has_bit(bus[event_byte_addr(event_index)], (event_index % 8) as u8)
}

/// `check_event`: loads the byte of the flag into A and tests its bit (`bit`
/// sets Z when the bit is clear, sets H, clears N). Returns whether the event
/// has happened.
pub fn check_event(cpu: &mut Cpu, event_index: u16) -> (res: bool)
    requires
        old(cpu).pc + 5 <= u16::MAX,
        old(cpu).cycles + 24 <= u64::MAX,
    ensures
        res == event_set(old(cpu).bus(), event_index),
        *final(cpu) == (Cpu {
            a: old(cpu).bus()[event_byte_addr(event_index)],
            f: with_flag(with_flag(with_flag(old(cpu).f, CpuFlag::Z, !res), CpuFlag::H, true), CpuFlag::N, false),
            pc: (old(cpu).pc + 5) as u16,
            cycles: (old(cpu).cycles + 24) as u64,
            ..*old(cpu)
        }),
{
    let event_byte = event_index / 8;
    let event_bit = (event_index % 8) as u8;

    // ld a, [wEventFlags + event_byte]
    cpu.a = cpu.read_byte(W_EVENT_FLAGS + event_byte);
    cpu.pc = cpu.pc + 3;
    cpu.cycle(16);

    // bit (\1) % 8, a
    let set = (cpu.a & (1u8 << event_bit)) != 0;
    cpu.set_flag(CpuFlag::Z, !set);
    cpu.set_flag(CpuFlag::H, true);
    cpu.set_flag(CpuFlag::N, false);
    cpu.pc = cpu.pc + 2;
    cpu.cycle(8);

    set
}

/// `set_event`: points HL at the byte of the flag and sets its bit.
pub fn set_event(cpu: &mut Cpu, event_index: u16)
    requires
        old(cpu).pc + 5 <= u16::MAX,
        old(cpu).cycles + 28 <= u64::MAX,
    ensures
        final(cpu).bus() == old(cpu).bus().update(
            event_byte_addr(event_index),
            with_bit(old(cpu).bus()[event_byte_addr(event_index)], (event_index % 8) as u8, true),
        ),
        *final(cpu) == (Cpu {
            h: (event_byte_addr(event_index) / 256) as u8,
            l: (event_byte_addr(event_index) % 256) as u8,
            pc: (old(cpu).pc + 5) as u16,
            cycles: (old(cpu).cycles + 28) as u64,
            wram: final(cpu).wram,
            mem: final(cpu).mem,
            ..*old(cpu)
        }),
{
    let event_byte = event_index / 8;
    let event_bit = (event_index % 8) as u8;

    // ld hl, wEventFlags + event_byte
    cpu.set_hl(W_EVENT_FLAGS + event_byte);
    cpu.pc = cpu.pc + 3;
    cpu.cycle(12);

    // set (\1) % 8, [hl]
    let addr = cpu.hl();
    let value = cpu.read_byte(addr);
    cpu.write_byte(addr, value | (1u8 << event_bit));
    cpu.pc = cpu.pc + 2;
    cpu.cycle(16);
}

/// Setting an event flag makes `check_event` find it set and leaves every
/// other event flag as `check_event` found it before: `after` is `before` as
/// `set_event` leaves it for `event_index`.
pub proof fn lemma_set_event_then_check(before: Cpu, after: Cpu, event_index: u16, other: u16)
    requires
        after.bus() == before.bus().update(
            event_byte_addr(event_index),
            with_bit(before.bus()[event_byte_addr(event_index)], (event_index % 8) as u8, true),
        ),
    ensures
        event_set(after.bus(), event_index),
        other != event_index ==> event_set(after.bus(), other) == event_set(before.bus(), other),
{
    let bus = before.bus();
    before.lemma_bus_len();
    let addr = event_byte_addr(event_index);
    let k = (event_index % 8) as u8;
    let j = (other % 8) as u8;
    crate::bytes::lemma_with_bit(bus[addr], k, true, j);
    crate::bytes::lemma_with_bit(bus[addr], k, true, k);
    if other != event_index && event_byte_addr(other) == addr {
        assert(j != k);
    }
}

} // verus!
