use vstd::prelude::*;

verus! {

/// The screen's size in pixels.
pub const SCREEN_W: usize = 160;

pub const SCREEN_H: usize = 144;

/// The background's size in 8 × 8 tiles.
pub const TILES_W: usize = 20;

pub const TILES_H: usize = 18;

/// The tile sheets that background tiles are taken from.
#[derive(Debug, Clone, Copy, PartialEq, Eq, Structural)]
pub enum GpuAtlas {
    BoxBorder,
    Font,
}

/// A tile: the sheet, and its column and row in the sheet.
#[derive(Debug, Clone, Copy, PartialEq, Eq, Structural)]
pub struct GpuTile {
    pub atlas: GpuAtlas,
    pub x: usize,
    pub y: usize,
}

impl GpuTile {
    pub fn new(atlas: GpuAtlas, x: usize, y: usize) -> (res: GpuTile)
        ensures
            res == (GpuTile { atlas, x, y }),
    {
        GpuTile { atlas, x, y }
    }
}

/// A layer of background tiles over the screen, each cell empty or holding a
/// tile.
pub struct GpuLayer {
    background: Vec<Option<GpuTile>>,
}

impl GpuLayer {
    /// The cells, row by row.
    pub closed spec fn cells(&self) -> Seq<Option<GpuTile>> {
        self.background@
    }

    /// The cell at column `x`, row `y`.
    pub open spec fn cell(&self, x: int, y: int) -> Option<GpuTile> {
        self.cells()[y * TILES_W + x]
    }

    pub closed spec fn wf(&self) -> bool {
        self.background@.len() == TILES_W * TILES_H
    }

    /// An empty layer.
    pub fn new() -> (res: GpuLayer)
        ensures
            res.wf(),
            forall|x: int, y: int| 0 <= x < TILES_W && 0 <= y < TILES_H ==> #[trigger] res.cell(x, y) is None,
    {
        let mut background: Vec<Option<GpuTile>> = Vec::new();
        let mut i: usize = 0;
        while i < TILES_W * TILES_H
            invariant
                i <= TILES_W * TILES_H,
                background@.len() == i,
                forall|j: int| 0 <= j < i ==> #[trigger] background@[j] is None,
            decreases TILES_W * TILES_H - i,
        {
            background.push(None);
            i = i + 1;
        }
        let res = GpuLayer { background };
        assert forall|x: int, y: int| 0 <= x < TILES_W && 0 <= y < TILES_H implies #[trigger] res.cell(x, y) is None by {
            assert(0 <= y * TILES_W + x < TILES_W * TILES_H) by (nonlinear_arith)
                requires
                    0 <= x < TILES_W,
                    0 <= y < TILES_H,
            ;
        }
        res
    }

    /// The tile at column `x`, row `y`.
    pub fn background(&self, x: usize, y: usize) -> (res: Option<GpuTile>)
        requires
            self.wf(),
            x < TILES_W,
            y < TILES_H,
        ensures
            res == self.cell(x as int, y as int),
    {
        self.background[y * TILES_W + x]
    }

    /// Puts `tile` at column `x`, row `y`.
    pub fn set_background(&mut self, x: usize, y: usize, tile: GpuTile)
        requires
            old(self).wf(),
            x < TILES_W,
            y < TILES_H,
        ensures
            final(self).wf(),
            final(self).cell(x as int, y as int) == Some(tile),
            forall|i: int, j: int|
                0 <= i < TILES_W && 0 <= j < TILES_H && (i != x || j != y) ==> #[trigger] final(self).cell(
                    i,
                    j,
                ) == old(self).cell(i, j),
    {
        let idx = y * TILES_W + x;
        self.background.set(idx, Some(tile));
        assert forall|i: int, j: int|
            0 <= i < TILES_W && 0 <= j < TILES_H && (i != x || j != y) implies #[trigger] self.cell(i, j)
            == old(self).cell(i, j) by {
            assert(j * TILES_W + i != y * TILES_W + x) by (nonlinear_arith)
                requires
                    0 <= i < TILES_W,
                    0 <= j < TILES_H,
                    x < TILES_W,
                    y < TILES_H,
                    i != x || j != y,
            ;
        }
    }
}

} // verus!
