use vstd::prelude::*;

use crate::cpu::{CpuRequest, flag_set, flags_of, lemma_flags_of, lemma_with_flag, with_flag, Cpu, CpuFlag};
use crate::game::constants::{BLANK_TILE, SCREEN_HEIGHT, SCREEN_WIDTH};
use crate::game::macros::coords::{coord, coord_at};
use crate::game::ram::hram::H_VBLANK_OCCURRED;
use crate::game::ram::wram::W_TILE_MAP;

use super::palettes::delay3;
use super::vblank::{waited_frames, NOT_VBLANKED};

verus! {

/// A loop count held in a byte: 0 stands for 256.
pub open spec fn count_of(v: u8) -> int {
    if v == 0 {
        256
    } else {
        v as int
    }
}

/// The 16-bit value of a register pair.
pub open spec fn pair(hi: u8, lo: u8) -> int {
    hi as int * 256 + lo as int
}

/// The address of row `r` of an area that starts at `hl`, rows one screen
/// width apart, wrapping at 64 KiB.
pub open spec fn row_start(hl: u16, r: int) -> int {
    (hl + r * SCREEN_WIDTH) % 0x10000
}

/// The address of tile `x` of row `r` of the area at `hl`.
pub open spec fn tile_addr(hl: u16, r: int, x: int) -> int {
    row_start(hl, r) + x
}

/// Whether `addr` lies in the first `rows` rows, `cols` tiles wide, of the
/// area at `hl`.
pub open spec fn in_rows(hl: u16, rows: int, cols: int, addr: int) -> bool {
    exists|r: int| 0 <= r < rows && #[trigger] row_start(hl, r) <= addr < row_start(hl, r) + cols
}

/// Whether `addr` is one of the four bytes below the stack pointer `sp`,
/// where the routine saves HL and BC, or one of the two at `sp`, which hold
/// its return address.
pub open spec fn near_stack(sp: u16, addr: int) -> bool {
    (addr - sp + 4) % 0x10000 < 6
}

/// The area of `b` rows (0 for 256) of `c` tiles (0 for 256) at `hl` lies
/// in the address space, each row ends below 0xFFFF, and it stays clear of
/// the bytes the routine keeps on the stack at `sp`.
#[verifier::opaque]
pub open spec fn area_fits(hl: u16, b: u8, c: u8, sp: u16) -> bool {
    &&& forall|r: int| 0 <= r < count_of(b) ==> #[trigger] row_start(hl, r) + count_of(c) <= 0xffff
    &&& forall|r: int, x: int|
        0 <= r < count_of(b) && 0 <= x < count_of(c) ==> !near_stack(sp, #[trigger] tile_addr(hl, r, x))
}

/// `bus` with HL and then BC pushed below the stack pointer `sp`.
pub open spec fn saved_on_stack(bus: Seq<u8>, sp: u16, hl: int, b: u8, c: u8) -> Seq<u8> {
    bus.update((sp - 1) % 0x10000, (hl / 256) as u8).update((sp - 2) % 0x10000, (hl % 256) as u8).update(
        (sp - 3) % 0x10000,
        b,
    ).update((sp - 4) % 0x10000, c)
}

/// The address space after clearing the first `rows` rows of the area at `hl`
/// with `tile`, the last row's HL and BC left on the stack below `sp`.
#[verifier::opaque]
pub open spec fn area_cleared(
    bus: Seq<u8>,
    hl: u16,
    b: u8,
    c: u8,
    sp: u16,
    tile: u8,
    rows: int,
) -> Seq<u8> {
    Seq::new(
        0x10000,
        |addr: int|
            if in_rows(hl, rows, count_of(c), addr) {
                tile
            } else if rows == 0 {
                bus[addr]
            } else {
                saved_on_stack(bus, sp, row_start(hl, rows - 1), ((b - (rows - 1)) % 256) as u8, c)[addr]
            },
    )
}

/// The clock cycles `clear_screen_area` takes for `rows` rows of `cols` tiles.
pub open spec fn clear_area_cycles(rows: int, cols: int) -> int {
    rows * (24 * cols + 76) + 32
}


/// The address space after `ld [hli], a` over `cols` tiles from `hl`.
pub open spec fn row_filled(bus: Seq<u8>, hl: int, cols: int, tile: u8) -> Seq<u8> {
    Seq::new(0x10000, |addr: int| if hl <= addr < hl + cols { tile } else { bus[addr] })
}

/// The tiles of one row: `ld [hli], a` and `dec c` until C reaches zero.
#[verifier::spinoff_prover]
fn clear_row_tiles(cpu: &mut Cpu)
    requires
        pair(old(cpu).h, old(cpu).l) + count_of(old(cpu).c) <= 0xffff,
        old(cpu).cycles + 24 * count_of(old(cpu).c) + 32 <= u64::MAX,
    ensures
        ({
            let hl = pair(old(cpu).h, old(cpu).l);
            let cols = count_of(old(cpu).c);
            &&& pair(final(cpu).h, final(cpu).l) == hl + cols
            &&& final(cpu).bus() == row_filled(old(cpu).bus(), hl, cols, old(cpu).a)
            &&& final(cpu).cycles == old(cpu).cycles + 24 * cols - 4
            &&& final(cpu).pc == 0x169d
            &&& final(cpu).f & 0x0f == old(cpu).f & 0x0f
            &&& *final(cpu) == (Cpu {
                c: final(cpu).c,
                f: final(cpu).f,
                h: final(cpu).h,
                l: final(cpu).l,
                pc: final(cpu).pc,
                cycles: final(cpu).cycles,
                wram: final(cpu).wram,
                mem: final(cpu).mem,
                ..*old(cpu)
            })
        }),
{
    let ghost c0 = *cpu;
    proof {
        cpu.lemma_bus_len();
        assert(cpu.bus() =~= row_filled(c0.bus(), pair(c0.h, c0.l), 0, c0.a));
    }
    let ghost hl = pair(c0.h, c0.l);
    let ghost cols = count_of(c0.c);
    let mut i: u16 = 0;
    loop
        invariant_except_break
            i < cols,
            cpu.c as int == (c0.c as int - i) % 256,
            pair(cpu.h, cpu.l) == hl + i,
            cpu.bus() == row_filled(c0.bus(), hl, i as int, c0.a),
            cpu.cycles == c0.cycles + 24 * i,
            cpu.f & 0x0f == c0.f & 0x0f,
            *cpu == (Cpu {
                c: cpu.c,
                f: cpu.f,
                h: cpu.h,
                l: cpu.l,
                pc: cpu.pc,
                cycles: cpu.cycles,
                wram: cpu.wram,
                mem: cpu.mem,
                ..c0
            }),
            hl + cols <= 0xffff,
            c0.cycles + 24 * cols + 32 <= u64::MAX,
            cols == count_of(c0.c),
        ensures
            i == cols,
            pair(cpu.h, cpu.l) == hl + cols,
            cpu.bus() == row_filled(c0.bus(), hl, cols, c0.a),
            cpu.cycles == c0.cycles + 24 * cols - 4,
            cpu.pc == 0x169d,
            cpu.f & 0x0f == c0.f & 0x0f,
            *cpu == (Cpu {
                c: cpu.c,
                f: cpu.f,
                h: cpu.h,
                l: cpu.l,
                pc: cpu.pc,
                cycles: cpu.cycles,
                wram: cpu.wram,
                mem: cpu.mem,
                ..c0
            }),
        decreases cols - i,
    {
        cpu.pc = 0x1699;

        // ld [hli], a
        let addr = cpu.hl();
        cpu.write_byte(addr, cpu.a);
        cpu.set_hl(addr + 1);
        cpu.pc = cpu.pc + 1;
        cpu.cycle(8);

        // dec c
        proof {
            lemma_with_flag(cpu.f, CpuFlag::H, (cpu.c & 0x0f) == 0x00);
        }
        cpu.set_flag(CpuFlag::H, (cpu.c & 0x0f) == 0x00);
        cpu.c = cpu.c.wrapping_sub(1);
        proof {
            lemma_with_flag(cpu.f, CpuFlag::Z, cpu.c == 0);
        }
        cpu.set_flag(CpuFlag::Z, cpu.c == 0);
        proof {
            lemma_with_flag(cpu.f, CpuFlag::N, true);
        }
        cpu.set_flag(CpuFlag::N, true);
        cpu.pc = cpu.pc + 1;
        cpu.cycle(4);
        i = i + 1;
        assert(cpu.bus() =~= row_filled(c0.bus(), hl, i as int, c0.a));

        // jr nz, .x
        if !cpu.flag(CpuFlag::Z) {
            cpu.cycle(12);
        } else {
            cpu.pc = cpu.pc + 2;
            cpu.cycle(8);
            break;
        }
    }

}

#[verifier::spinoff_prover]
#[verifier::rlimit(30)]
/// `add hl, de`: H from bit 11, N cleared, C from bit 15.
fn add_hl_de(cpu: &mut Cpu)
    ensures
        ({
            let hl = pair(old(cpu).h, old(cpu).l);
            let de = pair(old(cpu).d, old(cpu).e);
            let sum = hl + de;
            let f = old(cpu).f;
            *final(cpu) == (Cpu {
                h: ((sum % 0x10000) / 256) as u8,
                l: ((sum % 0x10000) % 256) as u8,
                f: flags_of(
                    f,
                    flag_set(f, CpuFlag::Z),
                    false,
                    (hl as u16 & 0x07ff) + (de as u16 & 0x07ff) > 0x07ff,
                    sum > 0xffff,
                ),
                ..*old(cpu)
            })
        }),
{
    let hl = cpu.hl();
    let de = cpu.de();
    let result = hl.wrapping_add(de);
    let half = (hl & 0x07ff) as u32 + (de & 0x07ff) as u32 > 0x07ff;
    let carry = hl > 0xffff - de;
    let f = cpu.f;
    proof {
        lemma_flags_of(f, false, false, false, false, false);
        let z = flag_set(f, CpuFlag::Z);
        let n = flag_set(f, CpuFlag::N);
        let h = flag_set(f, CpuFlag::H);
        let c = flag_set(f, CpuFlag::C);
        lemma_flags_of(f, z, n, h, c, half);
        lemma_flags_of(f, z, n, half, c, false);
        lemma_flags_of(f, z, false, half, c, carry);
    }
    cpu.set_flag(CpuFlag::H, half);
    cpu.set_flag(CpuFlag::N, false);
    cpu.set_flag(CpuFlag::C, carry);
    cpu.set_hl(result);
}

#[verifier::spinoff_prover]
#[verifier::rlimit(30)]
/// `dec b`: Z when B reaches zero, N set, H from the borrow out of bit 4.
fn dec_b(cpu: &mut Cpu)
    ensures
        ({
            let b = old(cpu).b;
            let f = old(cpu).f;
            *final(cpu) == (Cpu {
                b: ((b + 255) % 256) as u8,
                f: flags_of(f, b == 1, true, b & 0x0f == 0, flag_set(f, CpuFlag::C)),
                ..*old(cpu)
            })
        }),
{
    let b = cpu.b;
    let half = (b & 0x0f) == 0x00;
    let nb = b.wrapping_sub(1);
    let f = cpu.f;
    proof {
        lemma_flags_of(f, false, false, false, false, false);
        let z = flag_set(f, CpuFlag::Z);
        let n = flag_set(f, CpuFlag::N);
        let h = flag_set(f, CpuFlag::H);
        let c = flag_set(f, CpuFlag::C);
        lemma_flags_of(f, z, n, h, c, half);
        lemma_flags_of(f, z, n, half, c, nb == 0);
        lemma_flags_of(f, nb == 0, n, half, c, true);
    }
    cpu.set_flag(CpuFlag::H, half);
    cpu.b = nb;
    cpu.set_flag(CpuFlag::Z, cpu.b == 0);
    cpu.set_flag(CpuFlag::N, true);
}

/// The end of a row: `pop bc`, `pop hl`, `add hl, de` and `dec b`. Returns
/// whether B is still nonzero.
#[verifier::spinoff_prover]
fn finish_row(cpu: &mut Cpu) -> (more: bool)
    requires
        old(cpu).pc == 0x169d,
        old(cpu).cycles + 36 <= u64::MAX,
    ensures
        ({
            let bus = old(cpu).bus();
            let sp = old(cpu).sp as int;
            let pb = bus[(sp + 1) % 0x10000];
            let phl = pair(bus[(sp + 3) % 0x10000], bus[(sp + 2) % 0x10000]);
            let sum = phl + pair(old(cpu).d, old(cpu).e);
            &&& final(cpu).bus() == bus
            &&& more == (pb != 1)
            &&& *final(cpu) == (Cpu {
                b: ((pb + 255) % 256) as u8,
                c: bus[sp],
                h: ((sum % 0x10000) / 256) as u8,
                l: ((sum % 0x10000) % 256) as u8,
                f: flags_of(old(cpu).f, pb == 1, true, pb & 0x0f == 0, sum > 0xffff),
                pc: 0x16a1,
                sp: ((sp + 4) % 0x10000) as u16,
                cycles: (old(cpu).cycles + 36) as u64,
                wram: final(cpu).wram,
                mem: final(cpu).mem,
                ..*old(cpu)
            })
        }),
{
    let ghost c0 = *cpu;
    let ghost sp = c0.sp as int;
    proof {
        cpu.lemma_bus_len();
    }

    // pop bc
    let bc = cpu.stack_pop();
    cpu.set_bc(bc);
    cpu.pc = cpu.pc + 1;
    cpu.cycle(12);

    assert(cpu.sp as int == (sp + 2) % 0x10000);
    assert((cpu.sp + 1) % 0x10000 == (sp + 3) % 0x10000);
    // pop hl
    let popped = cpu.stack_pop();
    cpu.set_hl(popped);
    cpu.pc = cpu.pc + 1;
    cpu.cycle(12);
    let ghost f1 = cpu.f;
    let ghost z1 = flag_set(f1, CpuFlag::Z);
    let ghost hl_b = pair(cpu.h, cpu.l);
    let ghost de_b = pair(cpu.d, cpu.e);

    // add hl, de
    add_hl_de(cpu);
    cpu.pc = cpu.pc + 1;
    cpu.cycle(8);
    let ghost f2 = cpu.f;
    let ghost pb = cpu.b;
    proof {
        lemma_flags_of(
            f1,
            z1,
            false,
            (hl_b as u16 & 0x07ff) + (de_b as u16 & 0x07ff) > 0x07ff,
            hl_b + de_b > 0xffff,
            false,
        );
    }

    // dec b
    dec_b(cpu);
    cpu.pc = cpu.pc + 1;
    cpu.cycle(4);
    assert(cpu.sp as int == (sp + 4) % 0x10000);
    proof {
        lemma_flags_of(f2, pb == 1, true, pb & 0x0f == 0, flag_set(f2, CpuFlag::C), false);
        let bus = c0.bus();
        let pbb = bus[(sp + 1) % 0x10000];
        let phl = pair(bus[(sp + 3) % 0x10000], bus[(sp + 2) % 0x10000]);
        let sum = phl + pair(c0.d, c0.e);
        assert(cpu.f == flags_of(c0.f, pbb == 1, true, pbb & 0x0f == 0, sum > 0xffff));
    }
    !cpu.flag(CpuFlag::Z)
}

/// The bytes a row routine pops from the stack lie outside the row.
proof fn lemma_stack_bytes_off_row(hl0: u16, r: int, cols: int, sp0: u16, j: int)
    requires
        0 <= j < 4,
        forall|x: int| 0 <= x < cols ==> !near_stack(sp0, #[trigger] tile_addr(hl0, r, x)),
    ensures
        !(row_start(hl0, r) <= (sp0 - 4 + j) % 0x10000 < row_start(hl0, r) + cols),
{
    let a = (sp0 - 4 + j) % 0x10000;
    if row_start(hl0, r) <= a < row_start(hl0, r) + cols {
        assert(!near_stack(sp0, tile_addr(hl0, r, a - row_start(hl0, r))));
    }
}

/// What one pass of `.x` and the row's end leave behind, from the state `c1`
/// the pass starts on to the state `c2` it ends in, `more` telling whether
/// another row follows.
pub open spec fn row_passed(c1: Cpu, c2: Cpu, more: bool) -> bool {
    let bus = c1.bus();
    let sp = c1.sp as int;
    let hl = pair(c1.h, c1.l);
    let cols = count_of(c1.c);
    let pb = bus[(sp + 1) % 0x10000];
    let phl = pair(bus[(sp + 3) % 0x10000], bus[(sp + 2) % 0x10000]);
    let sum = phl + pair(c1.d, c1.e);
    &&& c2.bus() == row_filled(bus, hl, cols, c1.a)
    &&& more == (pb != 1)
    &&& c2 == (Cpu {
        b: ((pb + 255) % 256) as u8,
        c: bus[sp],
        h: ((sum % 0x10000) / 256) as u8,
        l: ((sum % 0x10000) % 256) as u8,
        f: flags_of(c1.f, pb == 1, true, pb & 0x0f == 0, sum > 0xffff),
        pc: 0x16a1,
        sp: ((sp + 4) % 0x10000) as u16,
        cycles: (c1.cycles + 24 * cols + 32) as u64,
        wram: c2.wram,
        mem: c2.mem,
        ..c1
    })
}

/// `.x`: one row. `ld [hli], a` and `dec c` until C reaches zero, then
/// `pop bc`, `pop hl`, `add hl, de` and `dec b`. Returns whether B is still
/// nonzero, that is whether another row follows.
#[verifier::spinoff_prover]
#[verifier::rlimit(100)]
fn clear_screen_area_x(cpu: &mut Cpu, Ghost(hl0): Ghost<u16>, Ghost(r): Ghost<int>, Ghost(sp0): Ghost<u16>) -> (more: bool)
    requires
        pair(old(cpu).h, old(cpu).l) == row_start(hl0, r),
        row_start(hl0, r) + count_of(old(cpu).c) <= 0xffff,
        forall|x: int| 0 <= x < count_of(old(cpu).c) ==> !near_stack(sp0, #[trigger] tile_addr(hl0, r, x)),
        old(cpu).sp as int == (sp0 - 4) % 0x10000,
        old(cpu).cycles + 24 * count_of(old(cpu).c) + 32 <= u64::MAX,
    ensures
        row_passed(*old(cpu), *final(cpu), more),
{
    let ghost c0 = *cpu;
    let ghost sp = c0.sp as int;
    let ghost hl = pair(c0.h, c0.l);
    let ghost cols = count_of(c0.c);
    proof {
        cpu.lemma_bus_len();
        lemma_stack_bytes_off_row(hl0, r, cols, sp0, 0);
        lemma_stack_bytes_off_row(hl0, r, cols, sp0, 1);
        lemma_stack_bytes_off_row(hl0, r, cols, sp0, 2);
        lemma_stack_bytes_off_row(hl0, r, cols, sp0, 3);
        assert((sp0 - 4) % 0x10000 == sp);
        assert((sp0 - 3) % 0x10000 == (sp + 1) % 0x10000);
        assert((sp0 - 2) % 0x10000 == (sp + 2) % 0x10000);
        assert((sp0 - 1) % 0x10000 == (sp + 3) % 0x10000);
    }
    clear_row_tiles(cpu);
    let ghost c1 = *cpu;
    assert(c1.bus()[sp] == c0.bus()[sp]);
    assert(c1.bus()[(sp + 1) % 0x10000] == c0.bus()[(sp + 1) % 0x10000]);
    assert(c1.bus()[(sp + 2) % 0x10000] == c0.bus()[(sp + 2) % 0x10000]);
    assert(c1.bus()[(sp + 3) % 0x10000] == c0.bus()[(sp + 3) % 0x10000]);
    finish_row(cpu)
}



/// An address in the cleared rows is a tile of the area, so it keeps clear
/// of the stack.
proof fn lemma_in_rows_off_stack(hl: u16, b: u8, c: u8, sp: u16, rows: int, addr: int)
    requires
        area_fits(hl, b, c, sp),
        0 <= rows <= count_of(b),
        in_rows(hl, rows, count_of(c), addr),
    ensures
        !near_stack(sp, addr),
{
    reveal(area_fits);
    let r = choose|r: int| 0 <= r < rows && #[trigger] row_start(hl, r) <= addr < row_start(hl, r) + count_of(c);
    assert(!near_stack(sp, tile_addr(hl, r, addr - row_start(hl, r))));
}

/// The first `k + 1` rows are the first `k` and row `k`.
proof fn lemma_in_rows_succ(hl: u16, k: int, cols: int, addr: int)
    requires
        0 <= k,
    ensures
        in_rows(hl, k + 1, cols, addr) == (in_rows(hl, k, cols, addr) || (row_start(hl, k) <= addr
            < row_start(hl, k) + cols)),
{
    if in_rows(hl, k + 1, cols, addr) {
        let r = choose|r: int| 0 <= r < k + 1 && #[trigger] row_start(hl, r) <= addr < row_start(hl, r) + cols;
        if r < k {
            assert(in_rows(hl, k, cols, addr));
        }
    }
    if in_rows(hl, k, cols, addr) {
        let r = choose|r: int| 0 <= r < k && #[trigger] row_start(hl, r) <= addr < row_start(hl, r) + cols;
        assert(0 <= r < k + 1 && row_start(hl, r) <= addr < row_start(hl, r) + cols);
    }
    if row_start(hl, k) <= addr < row_start(hl, k) + cols {
        assert(0 <= k < k + 1 && row_start(hl, k) <= addr < row_start(hl, k) + cols);
    }
}

/// An address away from the stack is none of the six the routine uses there.
proof fn lemma_off_stack(sp: u16, addr: int)
    requires
        0 <= addr < 0x10000,
        !near_stack(sp, addr),
    ensures
        addr != (sp - 1) % 0x10000,
        addr != (sp - 2) % 0x10000,
        addr != (sp - 3) % 0x10000,
        addr != (sp - 4) % 0x10000,
        addr != sp,
        addr != (sp + 1) % 0x10000,
{
}

/// Saving on the stack twice leaves what the second save wrote, and the
/// saved bytes read back as written.
proof fn lemma_saved_twice(bus: Seq<u8>, sp: u16, hl1: int, b1: u8, c1: u8, hl2: int, b2: u8, c2: u8)
    requires
        bus.len() == 0x10000,
    ensures
        saved_on_stack(saved_on_stack(bus, sp, hl1, b1, c1), sp, hl2, b2, c2) == saved_on_stack(bus, sp, hl2, b2, c2),
        saved_on_stack(bus, sp, hl2, b2, c2).len() == 0x10000,
        saved_on_stack(bus, sp, hl2, b2, c2)[(sp - 4) % 0x10000] == c2,
        saved_on_stack(bus, sp, hl2, b2, c2)[(sp - 3) % 0x10000] == b2,
        saved_on_stack(bus, sp, hl2, b2, c2)[(sp - 2) % 0x10000] == (hl2 % 256) as u8,
        saved_on_stack(bus, sp, hl2, b2, c2)[(sp - 1) % 0x10000] == (hl2 / 256) as u8,
{
    assert(saved_on_stack(saved_on_stack(bus, sp, hl1, b1, c1), sp, hl2, b2, c2) =~= saved_on_stack(bus, sp, hl2, b2, c2));
}

/// Row `r` of an area that fits ends below 0xFFFF and keeps clear of the
/// stack.
proof fn lemma_area_fits_row(hl: u16, b: u8, c: u8, sp: u16, r: int)
    requires
        area_fits(hl, b, c, sp),
        0 <= r < count_of(b),
    ensures
        row_start(hl, r) + count_of(c) <= 0xffff,
        forall|x: int| 0 <= x < count_of(c) ==> !near_stack(sp, #[trigger] tile_addr(hl, r, x)),
{
    reveal(area_fits);
}

/// Counting B down by one more row.
proof fn lemma_count_step(b0: u8, k: int)
    requires
        0 <= k < count_of(b0),
    ensures
        (((b0 as int - k) % 256) + 255) % 256 == (b0 as int - (k + 1)) % 256,
        (((b0 as int - k) % 256) != 1) == (k + 1 < count_of(b0)),
{
}

/// The next row starts a screen width further on.
proof fn lemma_row_next(hl: u16, k: int)
    ensures
        (row_start(hl, k) + SCREEN_WIDTH) % 0x10000 == row_start(hl, k + 1),
{
}

/// The cleared address space keeps its 64 KiB.
proof fn lemma_area_cleared_len(bus: Seq<u8>, hl: u16, b: u8, c: u8, sp: u16, tile: u8, rows: int)
    ensures
        area_cleared(bus, hl, b, c, sp, tile, rows).len() == 0x10000,
{
    reveal(area_cleared);
}

/// Clearing row `k` after saving its HL and BC on the stack extends the
/// cleared area by that row.
#[verifier::rlimit(50)]
proof fn lemma_row_step(bus0: Seq<u8>, hl: u16, b: u8, c: u8, sp: u16, tile: u8, k: int)
    requires
        bus0.len() == 0x10000,
        area_fits(hl, b, c, sp),
        0 <= k < count_of(b),
    ensures
        row_filled(
            saved_on_stack(area_cleared(bus0, hl, b, c, sp, tile, k), sp, row_start(hl, k), ((b - k) % 256) as u8, c),
            row_start(hl, k),
            count_of(c),
            tile,
        ) == area_cleared(bus0, hl, b, c, sp, tile, k + 1),
{
    reveal(area_cleared);
    let cols = count_of(c);
    let bk = area_cleared(bus0, hl, b, c, sp, tile, k);
    let rs = row_start(hl, k);
    let bb = ((b - k) % 256) as u8;
    let s = saved_on_stack(bk, sp, rs, bb, c);
    let w = row_filled(s, rs, cols, tile);
    let n = area_cleared(bus0, hl, b, c, sp, tile, k + 1);
    if k > 0 {
        lemma_saved_twice(bus0, sp, row_start(hl, k - 1), ((b - (k - 1)) % 256) as u8, c, rs, bb, c);
    }
    assert forall|addr: int| 0 <= addr < 0x10000 implies w[addr] == n[addr] by {
        lemma_in_rows_succ(hl, k, cols, addr);
        if in_rows(hl, k + 1, cols, addr) {
            lemma_in_rows_off_stack(hl, b, c, sp, k + 1, addr);
            lemma_off_stack(sp, addr);
        }
    }
    assert(w =~= n);
}

/// After `k` rows of the area the `.y` loop started on in state `y0`: B has
/// counted down `k`, HL points at row `k`, the stack pointer is back, the
/// rows are cleared, and nothing else but the flags, the program counter and
/// the cycles changed.
pub open spec fn rows_done(cpu: Cpu, y0: Cpu, k: int) -> bool {
    let hl0 = pair(y0.h, y0.l) as u16;
    &&& cpu.b as int == (y0.b as int - k) % 256
    &&& pair(cpu.h, cpu.l) == row_start(hl0, k)
    &&& cpu.sp == y0.sp
    &&& cpu.bus() == area_cleared(y0.bus(), hl0, y0.b, y0.c, y0.sp, y0.a, k)
    &&& cpu.f & 0x0f == y0.f & 0x0f
    &&& cpu == (Cpu {
        b: cpu.b,
        f: cpu.f,
        h: cpu.h,
        l: cpu.l,
        pc: cpu.pc,
        cycles: cpu.cycles,
        wram: cpu.wram,
        mem: cpu.mem,
        ..y0
    })
}

/// What `.y` needs of the state it starts on.
pub open spec fn area_start(y0: Cpu) -> bool {
    &&& y0.d == 0
    &&& y0.e == SCREEN_WIDTH
    &&& area_fits(pair(y0.h, y0.l) as u16, y0.b, y0.c, y0.sp)
    &&& y0.cycles + clear_area_cycles(count_of(y0.b), count_of(y0.c)) - 20 <= u64::MAX
}

/// `push hl`, `push bc` taken from state `c0` to state `c1`.
pub open spec fn pushed(c0: Cpu, c1: Cpu) -> bool {
    let sp = c0.sp;
    &&& c1.bus() =~= saved_on_stack(c0.bus(), sp, pair(c0.h, c0.l), c0.b, c0.c)
    &&& c1 == (Cpu {
        pc: 0x1699,
        sp: ((sp - 4) % 0x10000) as u16,
        cycles: (c0.cycles + 32) as u64,
        wram: c1.wram,
        mem: c1.mem,
        ..c0
    })
}

/// `push hl`, `push bc` at the head of `.y`.
#[verifier::spinoff_prover]
fn push_hl_bc(cpu: &mut Cpu)
    requires
        old(cpu).cycles + 32 <= u64::MAX,
    ensures
        pushed(*old(cpu), *final(cpu)),
{
    let ghost sp = cpu.sp as int;
    proof {
        cpu.lemma_bus_len();
    }
    cpu.pc = 0x1697;

    // push hl
    let hl = cpu.hl();
    cpu.stack_push(hl);
    cpu.pc = cpu.pc + 1;
    cpu.cycle(16);

    // push bc
    let bc = cpu.bc();
    assert(((sp - 2) % 0x10000 - 1) % 0x10000 == (sp - 3) % 0x10000);
    assert(((sp - 2) % 0x10000 - 2) % 0x10000 == (sp - 4) % 0x10000);
    cpu.stack_push(bc);
    cpu.pc = cpu.pc + 1;
    cpu.cycle(16);
}

/// The state `c1` that `push hl`, `push bc` leave on row `k` of the `.y`
/// loop started in state `y0`: the last row's HL and BC on the stack are
/// this row's, and the row fits where `.x` needs it.
proof fn lemma_row_pushed(y0: Cpu, k: int, c0: Cpu, c1: Cpu)
    requires
        area_start(y0),
        0 <= k < count_of(y0.b),
        rows_done(c0, y0, k),
        c0.cycles == y0.cycles + k * (24 * count_of(y0.c) + 76),
        pushed(c0, c1),
    ensures
        ({
            let hl0 = pair(y0.h, y0.l) as u16;
            let sp1 = c1.sp as int;
            let bus1 = c1.bus();
            &&& bus1.len() == 0x10000
            &&& bus1 == saved_on_stack(
                area_cleared(y0.bus(), hl0, y0.b, y0.c, y0.sp, y0.a, k),
                y0.sp,
                row_start(hl0, k),
                ((y0.b - k) % 256) as u8,
                y0.c,
            )
            &&& pair(c1.h, c1.l) == row_start(hl0, k)
            &&& row_start(hl0, k) + count_of(c1.c) <= 0xffff
            &&& forall|x: int| 0 <= x < count_of(c1.c) ==> !near_stack(y0.sp, #[trigger] tile_addr(hl0, k, x))
            &&& sp1 == (y0.sp - 4) % 0x10000
            &&& c1.cycles + 24 * count_of(c1.c) + 32 <= u64::MAX
            &&& c1.cycles == y0.cycles + k * (24 * count_of(y0.c) + 76) + 32
            &&& bus1[(sp1 + 1) % 0x10000] as int == (y0.b as int - k) % 256
            &&& pair(bus1[(sp1 + 3) % 0x10000], bus1[(sp1 + 2) % 0x10000]) == row_start(hl0, k)
        }),
{
    let hl0 = pair(y0.h, y0.l) as u16;
    let rows = count_of(y0.b);
    let cols = count_of(y0.c);
    let sp0 = y0.sp;
    let bus0 = y0.bus();
    y0.lemma_bus_len();
    assert(k * (24 * cols + 76) + 24 * cols + 76 <= rows * (24 * cols + 76)) by (nonlinear_arith)
        requires
            k < rows,
            cols >= 1,
    ;
    lemma_area_fits_row(hl0, y0.b, y0.c, sp0, k);
    lemma_area_cleared_len(bus0, hl0, y0.b, y0.c, sp0, y0.a, k);
    lemma_saved_twice(
        area_cleared(bus0, hl0, y0.b, y0.c, sp0, y0.a, k),
        sp0,
        0,
        0,
        0,
        row_start(hl0, k),
        ((y0.b - k) % 256) as u8,
        y0.c,
    );
    let sp1 = c1.sp as int;
    assert(sp1 == (sp0 - 4) % 0x10000);
    assert((sp1 + 1) % 0x10000 == (sp0 - 3) % 0x10000);
    assert((sp1 + 2) % 0x10000 == (sp0 - 2) % 0x10000);
    assert((sp1 + 3) % 0x10000 == (sp0 - 1) % 0x10000);
}

/// The state `c2` that the row leaves: the `.y` loop has done one row more.
#[verifier::spinoff_prover]
#[verifier::rlimit(100)]
proof fn lemma_row_finished(y0: Cpu, k: int, c0: Cpu, c1: Cpu, c2: Cpu, more: bool)
    requires
        area_start(y0),
        0 <= k < count_of(y0.b),
        rows_done(c0, y0, k),
        pushed(c0, c1),
        ({
            let hl0 = pair(y0.h, y0.l) as u16;
            let sp1 = c1.sp as int;
            let bus1 = c1.bus();
            &&& bus1.len() == 0x10000
            &&& bus1 == saved_on_stack(
                area_cleared(y0.bus(), hl0, y0.b, y0.c, y0.sp, y0.a, k),
                y0.sp,
                row_start(hl0, k),
                ((y0.b - k) % 256) as u8,
                y0.c,
            )
            &&& pair(c1.h, c1.l) == row_start(hl0, k)
            &&& sp1 == (y0.sp - 4) % 0x10000
            &&& bus1[(sp1 + 1) % 0x10000] as int == (y0.b as int - k) % 256
            &&& pair(bus1[(sp1 + 3) % 0x10000], bus1[(sp1 + 2) % 0x10000]) == row_start(hl0, k)
        }),
        c1.cycles + 24 * count_of(y0.c) + 32 <= u64::MAX,
        row_passed(c1, c2, more),
    ensures
        more == (k + 1 < count_of(y0.b)),
        rows_done(c2, y0, k + 1),
        c2.cycles == c1.cycles + 24 * count_of(y0.c) + 32,
        c2.pc == 0x16a1,
        !more ==> c2.b == 0,
        !more ==> c2.f == flags_of(
            y0.f,
            true,
            true,
            false,
            row_start(pair(y0.h, y0.l) as u16, k) + SCREEN_WIDTH > 0xffff,
        ),
{
    let hl0 = pair(y0.h, y0.l) as u16;
    let bus0 = y0.bus();
    let sp1 = c1.sp as int;
    let bus1 = c1.bus();
    let pb = bus1[(sp1 + 1) % 0x10000];
    let phl = pair(bus1[(sp1 + 3) % 0x10000], bus1[(sp1 + 2) % 0x10000]);
    assert(more == (k + 1 < count_of(y0.b)) && c2.b as int == (y0.b as int - (k + 1)) % 256) by {
        lemma_count_step(y0.b, k);
    }
    assert(pair(c2.h, c2.l) == row_start(hl0, k + 1)) by {
        lemma_row_next(hl0, k);
    }
    assert(c2.bus() == area_cleared(bus0, hl0, y0.b, y0.c, y0.sp, y0.a, k + 1)) by {
        y0.lemma_bus_len();
        lemma_row_step(bus0, hl0, y0.b, y0.c, y0.sp, y0.a, k);
    }
    assert(c2.f == flags_of(c1.f, pb == 1, true, pb & 0x0f == 0, phl + SCREEN_WIDTH > 0xffff));
    assert(c2.f & 0x0f == y0.f & 0x0f && (pb == 1 ==> c2.f == flags_of(
        y0.f,
        true,
        true,
        false,
        phl + SCREEN_WIDTH > 0xffff,
    ))) by {
        lemma_flags_of(c1.f, pb == 1, true, pb & 0x0f == 0, phl + SCREEN_WIDTH > 0xffff, false);
        assert(pb == 1 ==> pb & 0x0f != 0) by (bit_vector);
    }
    assert(c2.c == y0.c) by {
        y0.lemma_bus_len();
        lemma_area_cleared_len(bus0, hl0, y0.b, y0.c, y0.sp, y0.a, k);
        lemma_saved_twice(
            area_cleared(bus0, hl0, y0.b, y0.c, y0.sp, y0.a, k),
            y0.sp,
            0,
            0,
            0,
            row_start(hl0, k),
            ((y0.b - k) % 256) as u8,
            y0.c,
        );
    }
    assert(c2.sp == y0.sp);
}

/// One pass of `.y`: `push hl`, `push bc`, then the row.
#[verifier::spinoff_prover]
#[verifier::rlimit(100)]
fn clear_area_row(cpu: &mut Cpu, Ghost(y0): Ghost<Cpu>, k: u16) -> (more: bool)
    requires
        area_start(y0),
        0 <= k < count_of(y0.b),
        rows_done(*old(cpu), y0, k as int),
        old(cpu).cycles == y0.cycles + k * (24 * count_of(y0.c) + 76),
    ensures
        more == (k + 1 < count_of(y0.b)),
        rows_done(*final(cpu), y0, k + 1),
        final(cpu).cycles == old(cpu).cycles + 24 * count_of(y0.c) + 64,
        final(cpu).pc == 0x16a1,
        !more ==> final(cpu).b == 0,
        !more ==> final(cpu).f == flags_of(
            y0.f,
            true,
            true,
            false,
            row_start(pair(y0.h, y0.l) as u16, k as int) + SCREEN_WIDTH > 0xffff,
        ),
{
    let ghost c0 = *cpu;
    proof {
        assert(k * (24 * count_of(y0.c) + 76) + 24 * count_of(y0.c) + 76 <= count_of(y0.b) * (24 * count_of(
            y0.c,
        ) + 76)) by (nonlinear_arith)
            requires
                k < count_of(y0.b),
                count_of(y0.c) >= 1,
        ;
    }
    push_hl_bc(cpu);
    let ghost c1 = *cpu;
    proof {
        lemma_row_pushed(y0, k as int, c0, c1);
    }
    let more = clear_screen_area_x(cpu, Ghost(pair(y0.h, y0.l) as u16), Ghost(k as int), Ghost(y0.sp));
    proof {
        lemma_row_finished(y0, k as int, c0, c1, *cpu, more);
    }
    more
}

/// `.y`: the rows. Saves HL and BC, clears a row, and goes on while B is
/// nonzero; then returns.
#[verifier::spinoff_prover]
#[verifier::rlimit(50)]
fn clear_screen_area_y(cpu: &mut Cpu)
    requires
        area_start(*old(cpu)),
    ensures
        ({
            let hl0 = pair(old(cpu).h, old(cpu).l) as u16;
            let rows = count_of(old(cpu).b);
            let cols = count_of(old(cpu).c);
            let sp = old(cpu).sp;
            let bus = old(cpu).bus();
            let next = row_start(hl0, rows);
            &&& final(cpu).bus() == area_cleared(bus, hl0, old(cpu).b, old(cpu).c, sp, old(cpu).a, rows)
            &&& *final(cpu) == (Cpu {
                b: 0,
                h: (next / 256) as u8,
                l: (next % 256) as u8,
                f: flags_of(
                    old(cpu).f,
                    true,
                    true,
                    false,
                    row_start(hl0, rows - 1) + SCREEN_WIDTH > 0xffff,
                ),
                pc: pair(bus[(sp + 1) % 0x10000], bus[sp as int]) as u16,
                sp: ((sp + 2) % 0x10000) as u16,
                cycles: (old(cpu).cycles + clear_area_cycles(rows, cols) - 20) as u64,
                wram: final(cpu).wram,
                mem: final(cpu).mem,
                ..*old(cpu)
            })
        }),
{
    let ghost y0 = *cpu;
    let ghost hl0 = pair(y0.h, y0.l) as u16;
    let ghost rows = count_of(y0.b);
    let ghost cols = count_of(y0.c);
    let ghost sp0 = y0.sp;
    proof {
        y0.lemma_bus_len();
        reveal(area_cleared);
        assert(cpu.bus() =~= area_cleared(y0.bus(), hl0, y0.b, y0.c, sp0, y0.a, 0));
    }
    let mut k: u16 = 0;
    loop
        invariant_except_break
            0 <= k < rows,
            rows_done(*cpu, y0, k as int),
            cpu.cycles == y0.cycles + k * (24 * cols + 76),
            area_start(y0),
            rows == count_of(y0.b),
            cols == count_of(y0.c),
            hl0 == pair(y0.h, y0.l),
        ensures
            k == rows,
            rows_done(*cpu, y0, k as int),
            cpu.b == 0,
            cpu.cycles == y0.cycles + rows * (24 * cols + 76) - 4,
            cpu.f == flags_of(
                y0.f,
                true,
                true,
                false,
                row_start(hl0, rows - 1) + SCREEN_WIDTH > 0xffff,
            ),
        decreases rows - k,
    {
        proof {
            assert(k * (24 * cols + 76) + 24 * cols + 76 <= rows * (24 * cols + 76)) by (nonlinear_arith)
                requires
                    k < rows,
                    cols >= 1,
            ;
        }
        let more = clear_area_row(cpu, Ghost(y0), k);
        proof {
            assert((k + 1) * (24 * cols + 76) == k * (24 * cols + 76) + 24 * cols + 76) by (nonlinear_arith);
        }
        k = k + 1;

        // jr nz, .y
        if more {
            cpu.cycle(12);
        } else {
            cpu.pc = cpu.pc + 2;
            cpu.cycle(8);
            break;
        }
    }

    // ret
    proof {
        reveal(area_cleared);
        assert(!in_rows(hl0, rows, cols, sp0 as int)) by {
            if in_rows(hl0, rows, cols, sp0 as int) {
                lemma_in_rows_off_stack(hl0, y0.b, y0.c, sp0, rows, sp0 as int);
            }
        }
        assert(!in_rows(hl0, rows, cols, (sp0 + 1) % 0x10000)) by {
            if in_rows(hl0, rows, cols, (sp0 + 1) % 0x10000) {
                lemma_in_rows_off_stack(hl0, y0.b, y0.c, sp0, rows, (sp0 + 1) % 0x10000);
            }
        }
    }
    cpu.pc = cpu.stack_pop();
    cpu.cycle(16);
}

/// Clear tilemap area cxb at hl: `c` tiles (0 for 256) in each of `b` rows (0
/// for 256), rows a screen width apart, get the blank tile. A is left blank,
/// DE holds the screen width, BC is 0 and C as it was, HL points a row past
/// the area, the flags are those of the last `add hl, de` and `dec b`, and
/// the routine returns to the address on the stack.
pub fn clear_screen_area(cpu: &mut Cpu)
    requires
        area_fits(pair(old(cpu).h, old(cpu).l) as u16, old(cpu).b, old(cpu).c, old(cpu).sp),
        old(cpu).cycles + clear_area_cycles(count_of(old(cpu).b), count_of(old(cpu).c)) <= u64::MAX,
    ensures
        ({
            let hl0 = pair(old(cpu).h, old(cpu).l) as u16;
            let rows = count_of(old(cpu).b);
            let cols = count_of(old(cpu).c);
            let sp = old(cpu).sp;
            let bus = old(cpu).bus();
            let next = row_start(hl0, rows);
            &&& final(cpu).bus() == area_cleared(
                bus,
                hl0,
                old(cpu).b,
                old(cpu).c,
                sp,
                BLANK_TILE,
                rows,
            )
            &&& *final(cpu) == (Cpu {
                a: BLANK_TILE,
                b: 0,
                d: 0,
                e: SCREEN_WIDTH as u8,
                h: (next / 256) as u8,
                l: (next % 256) as u8,
                f: flags_of(
                    old(cpu).f,
                    true,
                    true,
                    false,
                    row_start(hl0, rows - 1) + SCREEN_WIDTH > 0xffff,
                ),
                pc: pair(bus[(sp + 1) % 0x10000], bus[sp as int]) as u16,
                sp: ((sp + 2) % 0x10000) as u16,
                cycles: (old(cpu).cycles + clear_area_cycles(rows, cols)) as u64,
                wram: final(cpu).wram,
                mem: final(cpu).mem,
                ..*old(cpu)
            })
        }),
{
    cpu.pc = 0x1692;

    // ld a, " " ; blank tile
    cpu.a = BLANK_TILE;
    cpu.pc = cpu.pc + 1;
    cpu.cycle(8);

    // screen width
    // ld de 20
    cpu.set_de(SCREEN_WIDTH);
    cpu.pc = cpu.pc + 3;
    cpu.cycle(12);

    clear_screen_area_y(cpu);
}

/// `bus` with the first `len` tiles of the tile map blank.
pub open spec fn tile_map_blanked(bus: Seq<u8>, len: int) -> Seq<u8> {
    Seq::new(
        0x10000,
        |addr: int| if W_TILE_MAP <= addr < W_TILE_MAP + len { BLANK_TILE } else { bus[addr] },
    )
}

/// Clear wTileMap, then wait for the bg map to update.
pub fn clear_screen(cpu: &mut Cpu)
    ensures
        final(cpu).bus() == tile_map_blanked(old(cpu).bus(), SCREEN_WIDTH * SCREEN_HEIGHT).update(
            H_VBLANK_OCCURRED as int,
            NOT_VBLANKED,
        ),
        final(cpu).requests@ == old(cpu).requests@ + Seq::new(3, |i: int| CpuRequest::WaitVBlank),
        *final(cpu) == (Cpu {
            halted: true,
            requests: final(cpu).requests,
            wram: final(cpu).wram,
            mem: final(cpu).mem,
            ..*old(cpu)
        }),
{
    let ghost c0 = *cpu;
    proof {
        c0.lemma_bus_len();
        assert(cpu.bus() =~= tile_map_blanked(c0.bus(), 0));
    }
    let mut y: u16 = 0;
    while y < SCREEN_HEIGHT
        invariant
            y <= SCREEN_HEIGHT,
            cpu.bus() == tile_map_blanked(c0.bus(), y * SCREEN_WIDTH),
            cpu.only_memory_changed(&c0),
            c0.bus().len() == 0x10000,
        decreases SCREEN_HEIGHT - y,
    {
        let mut x: u16 = 0;
        while x < SCREEN_WIDTH
            invariant
                y < SCREEN_HEIGHT,
                x <= SCREEN_WIDTH,
                cpu.bus() == tile_map_blanked(c0.bus(), y * SCREEN_WIDTH + x),
                cpu.only_memory_changed(&c0),
                c0.bus().len() == 0x10000,
            decreases SCREEN_WIDTH - x,
        {
            let addr = coord(x, y);
            cpu.write_byte(addr, BLANK_TILE);
            x = x + 1;
            assert(cpu.bus() =~= tile_map_blanked(c0.bus(), y * SCREEN_WIDTH + x));
        }
        y = y + 1;
    }
    delay3(cpu);
}

} // verus!
