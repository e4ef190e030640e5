use vstd::prelude::*;

verus! {

/// What the V-blank handler is to redraw (0: nothing, 1: a column, 2: a row)
/// and where in video RAM.
pub const H_REDRAW_ROW_OR_COLUMN_MODE: u16 = 0xffd0;

pub const H_REDRAW_ROW_OR_COLUMN_DEST: u16 = 0xffd1;

/// V-blank sets this to 0 each time it runs.
/// So, by setting it to a nonzero value and waiting for it to become 0 again,
/// you can detect that the V-blank handler has run since then.
pub const H_VBLANK_OCCURRED: u16 = 0xffd6;

} // verus!
