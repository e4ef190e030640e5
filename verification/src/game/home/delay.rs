use vstd::prelude::*;

use crate::cpu::{Cpu, CpuRequest};
use crate::game::ram::hram::H_VBLANK_OCCURRED;

use super::vblank::{delay_frame, waited_frames, NOT_VBLANKED};

verus! {

/// Wait `frames` frames: `frames` V-blanks pass.
pub fn delay_frames(cpu: &mut Cpu, frames: u8)
    requires
        frames > 0,
    ensures
        waited_frames(final(cpu), old(cpu), frames as nat),
{
    let mut i: u16 = 0;
    while i < frames as u16
        invariant
            i <= frames as u16,
            i == 0 ==> *cpu == *old(cpu),
            i > 0 ==> waited_frames(cpu, old(cpu), i as nat),
        decreases frames as u16 - i,
    {
        let ghost before = *cpu;
        delay_frame(cpu);
        proof {
            old(cpu).lemma_bus_len();
            if i > 0 {
                assert(cpu.bus() =~= old(cpu).bus().update(H_VBLANK_OCCURRED as int, NOT_VBLANKED));
            }
            assert(cpu.requests@ =~= old(cpu).requests@ + Seq::new(
                (i + 1) as nat,
                |j: int| CpuRequest::WaitVBlank,
            ));
        }
        i = i + 1;
    }
}

} // verus!
