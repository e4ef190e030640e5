use vstd::prelude::*;

use crate::cpu::{flag_set, flags_of, lemma_flags_of, lemma_with_flag, Cpu, CpuFlag};
use crate::game::ram::wram::{W_SHADOW_OAM, W_SHADOW_OAM_END};

use super::copy2::pair;

verus! {

/// The clock cycles `clear_sprites` takes: `xor a`, `ld hl`, `ld b`, a
/// `ld [hli], a` / `dec b` / `jr nz` per byte of the shadow OAM (the last
/// jump not taken), and `ret`.
pub const CLEAR_SPRITES_CYCLES: u64 = 3876;

/// `bus` with the shadow OAM zeroed up to `len` bytes in.
pub open spec fn oam_cleared(bus: Seq<u8>, len: int) -> Seq<u8> {
    Seq::new(
        0x10000,
        |addr: int| if W_SHADOW_OAM <= addr < W_SHADOW_OAM + len { 0u8 } else { bus[addr] },
    )
}

/// Zero the shadow OAM, so that no sprite shows, and return. A and B end at
/// zero, HL just past the shadow OAM, and the flags are those of the last
/// `dec b` with the carry that `xor a` cleared.
pub fn clear_sprites(cpu: &mut Cpu)
    requires
        old(cpu).cycles + CLEAR_SPRITES_CYCLES <= u64::MAX,
    ensures
        ({
            let sp = old(cpu).sp;
            let bus = oam_cleared(old(cpu).bus(), (W_SHADOW_OAM_END - W_SHADOW_OAM) as int);
            &&& final(cpu).bus() == bus
            &&& *final(cpu) == (Cpu {
                a: 0,
                b: 0,
                h: (W_SHADOW_OAM_END / 256) as u8,
                l: (W_SHADOW_OAM_END % 256) as u8,
                f: flags_of(old(cpu).f, true, true, false, false),
                pc: pair(bus[(sp + 1) % 0x10000], bus[sp as int]) as u16,
                sp: ((sp + 2) % 0x10000) as u16,
                cycles: (old(cpu).cycles + CLEAR_SPRITES_CYCLES) as u64,
                wram: final(cpu).wram,
                mem: final(cpu).mem,
                ..*old(cpu)
            })
        }),
{
    let ghost c0 = *cpu;
    proof {
        c0.lemma_bus_len();
        lemma_flags_of(c0.f, true, false, false, false, false);
    }
    cpu.pc = 0x0082;

    // xor a
    cpu.a = 0;
    proof {
        lemma_with_flag(cpu.f, CpuFlag::Z, true);
    }
    cpu.set_flag(CpuFlag::Z, true);
    proof {
        lemma_with_flag(cpu.f, CpuFlag::C, false);
    }
    cpu.set_flag(CpuFlag::C, false);
    proof {
        lemma_with_flag(cpu.f, CpuFlag::H, false);
    }
    cpu.set_flag(CpuFlag::H, false);
    proof {
        lemma_with_flag(cpu.f, CpuFlag::N, false);
    }
    cpu.set_flag(CpuFlag::N, false);
    cpu.cycle(4);
    cpu.pc = 0x0083;

    // ld hl, wShadowOAM
    cpu.set_hl(W_SHADOW_OAM);
    cpu.cycle(12);
    cpu.pc = 0x0086;

    // ld b, wShadowOAMEnd - wShadowOAM
    cpu.b = (W_SHADOW_OAM_END - W_SHADOW_OAM) as u8;
    cpu.cycle(8);
    cpu.pc = 0x0088;

    proof {
        assert(cpu.bus() =~= oam_cleared(c0.bus(), 0));
    }
    let mut i: u16 = 0;
    loop
        invariant_except_break
            i < 160,
            cpu.b as int == 160 - i,
            cpu.a == 0,
            pair(cpu.h, cpu.l) == W_SHADOW_OAM + i,
            cpu.bus() == oam_cleared(c0.bus(), i as int),
            cpu.cycles == c0.cycles + 24 + 24 * i,
            flag_set(cpu.f, CpuFlag::C) == false,
            cpu.f & 0x0f == c0.f & 0x0f,
            *cpu == (Cpu {
                a: cpu.a,
                b: cpu.b,
                f: cpu.f,
                h: cpu.h,
                l: cpu.l,
                pc: cpu.pc,
                cycles: cpu.cycles,
                wram: cpu.wram,
                mem: cpu.mem,
                ..c0
            }),
            c0.cycles + CLEAR_SPRITES_CYCLES <= u64::MAX,
            c0.bus().len() == 0x10000,
        ensures
            cpu.b == 0,
            cpu.a == 0,
            pair(cpu.h, cpu.l) == W_SHADOW_OAM_END,
            cpu.bus() == oam_cleared(c0.bus(), 160),
            cpu.cycles == c0.cycles + CLEAR_SPRITES_CYCLES - 16,
            cpu.f == flags_of(c0.f, true, true, false, false),
            *cpu == (Cpu {
                a: cpu.a,
                b: cpu.b,
                f: cpu.f,
                h: cpu.h,
                l: cpu.l,
                pc: cpu.pc,
                cycles: cpu.cycles,
                wram: cpu.wram,
                mem: cpu.mem,
                ..c0
            }),
        decreases 160 - i,
    {
        // ld [hli], a
        let addr = cpu.hl();
        cpu.set_hl(addr + 1);
        cpu.write_byte(addr, cpu.a);
        cpu.cycle(8);
        cpu.pc = 0x0089;

        // dec b
        let old_b = cpu.b;
        let f = cpu.f;
        let nb = old_b - 1;
        proof {
            lemma_flags_of(f, false, false, false, false, false);
            lemma_flags_of(c0.f, nb == 0, true, (old_b & 0x0f) == 0, false, false);
            lemma_flags_of(f, flag_set(f, CpuFlag::Z), flag_set(f, CpuFlag::N), (old_b & 0x0f) == 0, false, nb == 0);
            lemma_flags_of(f, nb == 0, flag_set(f, CpuFlag::N), (old_b & 0x0f) == 0, false, true);
            lemma_flags_of(f, flag_set(f, CpuFlag::Z), flag_set(f, CpuFlag::N), flag_set(f, CpuFlag::H), false, (old_b & 0x0f) == 0);
        }
        cpu.set_flag(CpuFlag::H, (old_b & 0x0f) == 0);
        cpu.b = nb;
        cpu.set_flag(CpuFlag::Z, nb == 0);
        cpu.set_flag(CpuFlag::N, true);
        cpu.cycle(4);
        cpu.pc = 0x008a;
        i = i + 1;
        assert(cpu.bus() =~= oam_cleared(c0.bus(), i as int));

        // jr nz, .loop
        if nb != 0 {
            cpu.cycle(12);
            cpu.pc = 0x0088;
        } else {
            assert(old_b == 1);
            assert(old_b & 0x0f != 0) by (bit_vector)
                requires
                    old_b == 1,
            ;
            cpu.cycle(8);
            cpu.pc = 0x008c;
            break;
        }
    }

    // ret
    cpu.pc = cpu.stack_pop();
    cpu.cycle(16);
}

} // verus!
