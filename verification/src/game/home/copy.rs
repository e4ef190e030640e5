use vstd::prelude::*;

use crate::cpu::Cpu;

verus! {

/// The address space `bus` after the first `k` bytes of a forward copy from
/// `src` to `dst`, one byte at a time.
pub open spec fn copied(bus: Seq<u8>, src: int, dst: int, k: nat) -> Seq<u8>
    decreases k,
{
    if k == 0 {
        bus
    } else {
        let prev = copied(bus, src, dst, (k - 1) as nat);
        prev.update(dst + k - 1, prev[src + k - 1])
    }
}

/// Copy (bc) `count` bytes from (hl) `src` to (de) `dst`, the lowest address
/// first.
pub fn copy_data(cpu: &mut Cpu, src: u16, dst: u16, count: u16)
    requires
        src + count <= 0x10000,
        dst + count <= 0x10000,
    ensures
        final(cpu).bus() == copied(old(cpu).bus(), src as int, dst as int, count as nat),
        final(cpu).only_memory_changed(old(cpu)),
{
    let mut idx: u16 = 0;
    while idx < count
        invariant
            src + count <= 0x10000,
            dst + count <= 0x10000,
            idx <= count,
            cpu.bus() == copied(old(cpu).bus(), src as int, dst as int, idx as nat),
            cpu.only_memory_changed(old(cpu)),
        decreases count - idx,
    {
        let byte = cpu.read_byte(src + idx);
        cpu.write_byte(dst + idx, byte);
        idx = idx + 1;
    }
}

/// Where the source and destination do not overlap, the copy puts each
/// source byte at the same offset from the destination and changes nothing
/// outside the destination.
pub proof fn lemma_copied_disjoint(bus: Seq<u8>, src: int, dst: int, count: nat, addr: int)
    requires
        0 <= src,
        0 <= dst,
        src + count <= bus.len(),
        dst + count <= bus.len(),
        src + count <= dst || dst + count <= src,
        0 <= addr < bus.len(),
    ensures
        copied(bus, src, dst, count).len() == bus.len(),
        copied(bus, src, dst, count)[addr] == if dst <= addr < dst + count {
            bus[src + addr - dst]
        } else {
            bus[addr]
        },
    decreases count,
{
    if count > 0 {
        let k = (count - 1) as nat;
        lemma_copied_disjoint(bus, src, dst, k, addr);
        lemma_copied_disjoint(bus, src, dst, k, src + k);
    }
}

} // verus!
