use vstd::prelude::*;

use crate::cpu::{Cpu, CpuRequest};
use crate::game::ram::hram::H_VBLANK_OCCURRED;

verus! {

/// What hVBlankOccurred holds while the V-blank handler has not yet run.
pub const NOT_VBLANKED: u8 = 1;

/// `new` is `old` after waiting for `frames` V-blanks: hVBlankOccurred set to
/// "not yet", the processor halted, and one wait handed out per frame.
pub open spec fn waited_frames(new: &Cpu, old: &Cpu, frames: nat) -> bool {
    &&& new.bus() == old.bus().update(H_VBLANK_OCCURRED as int, NOT_VBLANKED)
    &&& new.requests@ == old.requests@ + Seq::new(frames, |i: int| CpuRequest::WaitVBlank)
    &&& *new == (Cpu {
        halted: true,
        requests: new.requests,
        wram: new.wram,
        mem: new.mem,
        ..*old
    })
}

/// Wait for the next vblank interrupt: mark hVBlankOccurred as not yet
/// cleared and halt until the V-blank handler clears it.
pub fn delay_frame(cpu: &mut Cpu)
    ensures
        waited_frames(final(cpu), old(cpu), 1),
{
    cpu.write_byte(H_VBLANK_OCCURRED, NOT_VBLANKED);
    cpu.wait_vblank();
    assert(cpu.requests@ =~= old(cpu).requests@ + Seq::new(1, |i: int| CpuRequest::WaitVBlank));
}

} // verus!
