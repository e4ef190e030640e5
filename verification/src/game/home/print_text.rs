use vstd::prelude::*;

use crate::cpu::{Cpu, CpuRequest};

verus! {

/// The routine of the ROM that waits after a letter is printed.
pub const PRINT_LETTER_DELAY: u16 = 0x38c8;

/// This function is used to wait a short period after printing a letter to the
/// screen unless the player presses the A/B button or the delay is turned off
/// through wd730 or the letter printing delay flags; the wait is the ROM's.
pub fn print_letter_delay(cpu: &mut Cpu)
    ensures
        final(cpu).only_requested(old(cpu), CpuRequest::Call(PRINT_LETTER_DELAY)),
{
    cpu.call(PRINT_LETTER_DELAY);
}

} // verus!
