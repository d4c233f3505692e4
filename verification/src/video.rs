//! The geometry of the display: the window that a grid of cells needs at a
//! given scale, and the squares that stand for the cells that are on.

use vstd::prelude::*;

verus! {

/// A filled square on the host's canvas, in pixels.
#[derive(Clone, Copy, Debug, PartialEq, Eq, Structural)]
pub struct PixelRect {
    pub x: i32,
    pub y: i32,
    pub width: u32,
    pub height: u32,
}

/// The square that stands for cell `i` of a grid `cols` cells wide, each
/// cell `scale` pixels wide and high.
pub open spec fn rect_at(i: int, cols: int, scale: int) -> PixelRect {
    PixelRect {
        x: ((i % cols) * scale) as i32,
        y: ((i / cols) * scale) as i32,
        width: scale as u32,
        height: scale as u32,
    }
}

/// The squares of the cells that are on, in the order of the cells.
pub open spec fn lit_rects(cells: Seq<u8>, cols: int, scale: int) -> Seq<PixelRect>
    decreases cells.len(),
{
    if cells.len() == 0 {
        Seq::empty()
    } else {
        let before = lit_rects(cells.drop_last(), cols, scale);
        if cells.last() == 1 {
            before.push(rect_at(cells.len() - 1, cols, scale))
        } else {
            before
        }
    }
}

/// The layout of a grid of cells on the host's canvas.
pub struct Video {
    cols: usize,
    rows: usize,
    scale_factor: usize,
}

impl Video {
    /// The number of columns of the grid.
    pub closed spec fn spec_cols(&self) -> int {
        self.cols as int
    }

    /// The number of rows of the grid.
    pub closed spec fn spec_rows(&self) -> int {
        self.rows as int
    }

    /// The side of a cell in pixels.
    pub closed spec fn spec_scale(&self) -> int {
        self.scale_factor as int
    }

    /// The grid has a column, and the window it needs has sides that the
    /// canvas can address.
    pub open spec fn wf(&self) -> bool {
        fits(self.spec_cols(), self.spec_rows(), self.spec_scale())
    }

    /// The layout of a grid of `cols` by `rows` cells at `scale_factor`
    /// pixels a cell, or nothing if the grid has no column or if its window
    /// would be wider or higher than the canvas can address.
    pub fn init(cols: usize, rows: usize, scale_factor: usize) -> (r: Option<Video>)
        ensures
            fits(cols as int, rows as int, scale_factor as int) <==> r is Some,
            r matches Some(video) ==> video.wf() && video.spec_cols() == cols && video.spec_rows()
                == rows && video.spec_scale() == scale_factor,
    {
        if cols == 0 {
            return None;
        }
        let width = match cols.checked_mul(scale_factor) {
            Some(width) => width,
            None => {
                return None;
            },
        };
        let height = match rows.checked_mul(scale_factor) {
            Some(height) => height,
            None => {
                return None;
            },
        };
        if width > 0x7FFF_FFFF || height > 0x7FFF_FFFF {
            return None;
        }
        Some(Video { cols, rows, scale_factor })
    }

    /// The number of columns of the grid.
    pub fn cols(&self) -> (cols: usize)
        ensures
            cols == self.spec_cols(),
    {
        self.cols
    }

    /// The number of rows of the grid.
    pub fn rows(&self) -> (rows: usize)
        ensures
            rows == self.spec_rows(),
    {
        self.rows
    }

    /// The side of a cell in pixels.
    pub fn scale_factor(&self) -> (scale: usize)
        ensures
            scale == self.spec_scale(),
    {
        self.scale_factor
    }

    /// The width and the height of the window, in pixels.
    pub fn window_size(&self) -> (size: (u32, u32))
        requires
            self.wf(),
        ensures
            size.0 == self.spec_cols() * self.spec_scale(),
            size.1 == self.spec_rows() * self.spec_scale(),
    {
        ((self.cols * self.scale_factor) as u32, (self.rows * self.scale_factor) as u32)
    }

    /// The squares to fill for a framebuffer: one for each cell that is on,
    /// in the order of the cells.
    pub fn draw(&self, chip8_video: &[u8]) -> (rects: Vec<PixelRect>)
        requires
            self.wf(),
            chip8_video@.len() <= self.spec_cols() * self.spec_rows(),
        ensures
            rects@ == lit_rects(chip8_video@, self.spec_cols(), self.spec_scale()),
    {
        let mut rects: Vec<PixelRect> = Vec::new();
        let mut i: usize = 0;
        while i < chip8_video.len()
            invariant
                self.wf(),
                i <= chip8_video@.len() <= self.spec_cols() * self.spec_rows(),
                rects@ == lit_rects(
                    chip8_video@.subrange(0, i as int),
                    self.spec_cols(),
                    self.spec_scale(),
                ),
            decreases chip8_video@.len() - i,
        {
            assert(chip8_video@.subrange(0, i + 1).drop_last() =~= chip8_video@.subrange(
                0,
                i as int,
            ));
            if chip8_video[i] == 1 {
                proof {
                    lemma_cell_on_canvas(
                        i as int,
                        self.spec_cols(),
                        self.spec_rows(),
                        self.spec_scale(),
                    );
                }
                rects.push(
                    PixelRect {
                        x: ((i % self.cols) * self.scale_factor) as i32,
                        y: ((i / self.cols) * self.scale_factor) as i32,
                        width: self.scale_factor as u32,
                        height: self.scale_factor as u32,
                    },
                );
            }
            i += 1;
        }
        assert(chip8_video@.subrange(0, i as int) =~= chip8_video@);
        rects
    }
}

/// A grid of `cols` by `rows` cells at `scale` pixels a cell has a column
/// and a window whose sides are at most the largest coordinate of a canvas.
pub open spec fn fits(cols: int, rows: int, scale: int) -> bool {
    cols > 0 && cols * scale <= 0x7FFF_FFFF && rows * scale <= 0x7FFF_FFFF
}

/// The square of a cell of the grid lies within the window.
proof fn lemma_cell_on_canvas(i: int, cols: int, rows: int, scale: int)
    requires
        fits(cols, rows, scale),
        0 <= scale,
        0 <= i < cols * rows,
    ensures
        0 <= (i % cols) * scale <= 0x7FFF_FFFF,
        0 <= (i / cols) * scale <= 0x7FFF_FFFF,
        0 <= scale <= 0x7FFF_FFFF,
{
    assert(0 <= i % cols < cols);
    assert(0 <= i / cols < rows) by (nonlinear_arith)
        requires
            0 <= i < cols * rows,
            cols > 0,
    ;
    assert((i % cols) * scale <= cols * scale) by (nonlinear_arith)
        requires
            0 <= i % cols < cols,
            0 <= scale,
    ;
    assert((i / cols) * scale <= rows * scale) by (nonlinear_arith)
        requires
            0 <= i / cols < rows,
            0 <= scale,
    ;
    assert(0 <= (i % cols) * scale) by (nonlinear_arith)
        requires
            0 <= i % cols,
            0 <= scale,
    ;
    assert(0 <= (i / cols) * scale) by (nonlinear_arith)
        requires
            0 <= i / cols,
            0 <= scale,
    ;
    assert(scale <= cols * scale) by (nonlinear_arith)
        requires
            cols > 0,
            0 <= scale,
    ;
}

} // verus!
