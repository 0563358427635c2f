//! Layout of video memory on screen: a grid of fixed-size cells, each a
//! base rectangle, with a contrasting inner rectangle where the byte is not
//! zero.

use vstd::prelude::*;
use crate::isa::VRAM_SIZE;

verus! {

/// Cells per row of the grid.
pub const GRID_COLUMNS: usize = 40;

/// Width of a cell, in pixels.
pub const CELL_WIDTH: u32 = 20;

/// Height of a cell, in pixels.
pub const CELL_HEIGHT: u32 = 24;

/// Margin of the inner rectangle inside its cell, in pixels.
pub const CELL_MARGIN: u32 = 2;

/// An axis-aligned rectangle in pixels.
#[derive(Clone, Copy, Debug, PartialEq, Eq, Structural)]
pub struct CellRect {
    pub x: i32,
    pub y: i32,
    pub w: u32,
    pub h: u32,
}

/// What to draw for one cell: the base rectangle, and the inner one for a
/// nonzero byte.
#[derive(Clone, Copy, Debug, PartialEq, Eq, Structural)]
pub struct CellDraw {
    pub base: CellRect,
    pub inner: Option<CellRect>,
}

/// The cell at index `i`: column `i % 40`, row `i / 40`.
pub open spec fn cell_spec(i: int, code: u8) -> CellDraw {
    let x = (i % GRID_COLUMNS as int) * CELL_WIDTH;
    let y = (i / GRID_COLUMNS as int) * CELL_HEIGHT;
    CellDraw {
        base: CellRect { x: x as i32, y: y as i32, w: CELL_WIDTH, h: CELL_HEIGHT },
        inner: if code == 0 {
            None
        } else {
            Some(
                CellRect {
                    x: (x + CELL_MARGIN) as i32,
                    y: (y + CELL_MARGIN) as i32,
                    w: (CELL_WIDTH - 2 * CELL_MARGIN) as u32,
                    h: (CELL_HEIGHT - 2 * CELL_MARGIN) as u32,
                },
            )
        },
    }
}

/// Draws the contents of video memory.
pub struct Renderer {}

impl Renderer {
    /// A renderer; it holds no state.
    pub fn new() -> (r: Self) {
        Renderer {}
    }

    /// What to draw for the cell at index `i` of video memory holding `code`.
    pub fn cell(&self, i: usize, code: u8) -> (r: CellDraw)
        requires
            i < VRAM_SIZE,
        ensures
            r == cell_spec(i as int, code),
    {
        let col = (i % GRID_COLUMNS) as u32;
        let row = (i / GRID_COLUMNS) as u32;
        assert(row < 25) by (nonlinear_arith)
            requires
                i < 1000,
                row == i / 40,
        ;
        let x = (col * CELL_WIDTH) as i32;
        let y = (row * CELL_HEIGHT) as i32;
        let base = CellRect { x, y, w: CELL_WIDTH, h: CELL_HEIGHT };
        let inner = if code == 0 {
            None
        } else {
            Some(
                CellRect {
                    x: x + CELL_MARGIN as i32,
                    y: y + CELL_MARGIN as i32,
                    w: CELL_WIDTH - 2 * CELL_MARGIN,
                    h: CELL_HEIGHT - 2 * CELL_MARGIN,
                },
            )
        };
        CellDraw { base, inner }
    }

    /// What to draw for each byte of `vram`, in order.
    pub fn layout(&self, vram: &[u8]) -> (r: Vec<CellDraw>)
        requires
            vram@.len() <= VRAM_SIZE,
        ensures
            r@.len() == vram@.len(),
            forall|k: int| 0 <= k < vram@.len() ==> r@[k] == cell_spec(k, vram@[k]),
    {
        let mut r: Vec<CellDraw> = Vec::new();
        let mut k: usize = 0;
        while k < vram.len()
            invariant
                k <= vram@.len() <= VRAM_SIZE,
                r@.len() == k,
                forall|j: int| 0 <= j < k ==> r@[j] == cell_spec(j, vram@[j]),
            decreases vram@.len() - k,
        {
            let c = self.cell(k, vram[k]);
            r.push(c);
            k = k + 1;
        }
        r
    }
}

} // verus!
