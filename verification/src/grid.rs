//! A write-once pixel buffer.
//!
//! The renderer must write every pixel exactly once before the image is
//! saved. [`PixelGrid`] makes both halves of that checkable: a write to a
//! pixel that was already written fails, as does a write out of range, so a
//! grid that [`PixelGrid::is_complete`] accepts holds exactly one written
//! color per pixel.

use crate::color::Hsv;
use vstd::prelude::*;

verus! {

/// Why a pixel write was refused. A write error is fatal to the render: a
/// silent clip or overwrite would corrupt the image without indication.
#[derive(Clone, Copy, Debug, PartialEq, Eq, Structural)]
pub enum WriteError {
    /// The coordinate lies outside the grid.
    OutOfRange,
    /// The pixel was written before.
    RepeatedWrite,
}

/// A `width x height` grid of HSV colors, row-major, each cell written at
/// most once.
pub struct PixelGrid {
    width: usize,
    height: usize,
    cells: Vec<Option<Hsv>>,
}

impl PixelGrid {
    /// Grid width in pixels.
    pub closed spec fn spec_width(&self) -> usize {
        self.width
    }

    /// Grid height in pixels.
    pub closed spec fn spec_height(&self) -> usize {
        self.height
    }

    /// The cells in row-major order: pixel `(x, y)` sits at index
    /// `y * width + x`.
    pub closed spec fn cells(&self) -> Seq<Option<Hsv>> {
        self.cells@
    }

    /// The grid's invariant: positive dimensions, one cell per pixel.
    pub open spec fn wf(&self) -> bool {
        &&& 1 <= self.spec_width()
        &&& 1 <= self.spec_height()
        &&& self.cells().len() == self.spec_width() as int * self.spec_height() as int
        &&& self.spec_width() as int * self.spec_height() as int <= usize::MAX as int
    }

    /// Every pixel has been written.
    pub open spec fn spec_complete(&self) -> bool {
        forall|i: int| 0 <= i < self.cells().len() ==> self.cells()[i] is Some
    }

    /// A blank grid with every pixel unwritten; `None` exactly when a
    /// dimension is zero or the pixel count does not fit a `usize`.
    pub fn new(width: usize, height: usize) -> (r: Option<PixelGrid>)
        ensures
            r is Some <==> (1 <= width && 1 <= height
                && width as int * height as int <= usize::MAX as int),
            r is Some ==> {
                let g = r->Some_0;
                &&& g.wf()
                &&& g.spec_width() == width
                &&& g.spec_height() == height
                &&& forall|i: int| 0 <= i < g.cells().len() ==> g.cells()[i] is None
            },
    {
        if width < 1 || height < 1 {
            return None;
        }
        let total: usize = match width.checked_mul(height) {
            Some(t) => t,
            None => {
                return None;
            },
        };
        let mut cells: Vec<Option<Hsv>> = Vec::new();
        let mut i: usize = 0;
        while i < total
            invariant
                i <= total,
                cells@.len() == i,
                forall|j: int| 0 <= j < i ==> cells@[j] is None,
            decreases total - i,
        {
            cells.push(None);
            i = i + 1;
        }
        Some(PixelGrid { width, height, cells })
    }

    /// Writes pixel `(x, y)`, exactly once: rejects a coordinate outside the
    /// grid and a pixel that was written before, leaving the grid unchanged;
    /// otherwise fills exactly that cell.
    pub fn set(&mut self, x: usize, y: usize, color: Hsv) -> (r: Result<(), WriteError>)
        requires
            old(self).wf(),
        ensures
            final(self).wf(),
            final(self).spec_width() == old(self).spec_width(),
            final(self).spec_height() == old(self).spec_height(),
            match r {
                Ok(()) => {
                    let idx = y as int * old(self).spec_width() as int + x as int;
                    &&& x < old(self).spec_width()
                    &&& y < old(self).spec_height()
                    &&& old(self).cells()[idx] is None
                    &&& final(self).cells() == old(self).cells().update(idx, Some(color))
                },
                Err(WriteError::OutOfRange) => {
                    &&& (x >= old(self).spec_width() || y >= old(self).spec_height())
                    &&& final(self).cells() == old(self).cells()
                },
                Err(WriteError::RepeatedWrite) => {
                    let idx = y as int * old(self).spec_width() as int + x as int;
                    &&& x < old(self).spec_width()
                    &&& y < old(self).spec_height()
                    &&& old(self).cells()[idx] is Some
                    &&& final(self).cells() == old(self).cells()
                },
            },
    {
        if x >= self.width || y >= self.height {
            return Err(WriteError::OutOfRange);
        }
        proof {
            lemma_row_major_index_in_range(
                x as int,
                y as int,
                self.spec_width() as int,
                self.spec_height() as int,
            );
        }
        let idx: usize = y * self.width + x;
        if self.cells[idx].is_some() {
            return Err(WriteError::RepeatedWrite);
        }
        self.cells.set(idx, Some(color));
        Ok(())
    }

    /// Reads pixel `(x, y)`: the written color, `None` for an unwritten pixel
    /// or a coordinate outside the grid.
    pub fn get(&self, x: usize, y: usize) -> (r: Option<Hsv>)
        requires
            self.wf(),
        ensures
            x < self.spec_width() && y < self.spec_height() ==> r == self.cells()[y as int
                * self.spec_width() as int + x as int],
            !(x < self.spec_width() && y < self.spec_height()) ==> r is None,
    {
        if x >= self.width || y >= self.height {
            return None;
        }
        proof {
            lemma_row_major_index_in_range(
                x as int,
                y as int,
                self.spec_width() as int,
                self.spec_height() as int,
            );
        }
        let idx: usize = y * self.width + x;
        self.cells[idx]
    }

    /// Grid width in pixels.
    pub fn width(&self) -> (w: usize)
        ensures
            w == self.spec_width(),
    {
        self.width
    }

    /// Grid height in pixels.
    pub fn height(&self) -> (h: usize)
        ensures
            h == self.spec_height(),
    {
        self.height
    }

    /// Whether every pixel has been written; the image may be handed to the
    /// encoder exactly then.
    pub fn is_complete(&self) -> (b: bool)
        requires
            self.wf(),
        ensures
            b == self.spec_complete(),
    {
        let mut i: usize = 0;
        let total: usize = self.cells.len();
        while i < total
            invariant
                i <= total,
                total == self.cells().len(),
                forall|j: int| 0 <= j < i ==> self.cells()[j] is Some,
            decreases total - i,
        {
            if self.cells[i].is_none() {
                return false;
            }
            i = i + 1;
        }
        true
    }
}

/// Row-major indexing stays inside the grid: for `x < width` and
/// `y < height`, the cell index `y * width + x` lies below `width * height`.
pub proof fn lemma_row_major_index_in_range(x: int, y: int, width: int, height: int)
    requires
        0 <= x < width,
        0 <= y < height,
    ensures
        0 <= y * width + x < width * height,
{
    assert(0 <= y * width + x < width * height) by (nonlinear_arith)
        requires
            0 <= x < width,
            0 <= y < height,
    ;
}

/// In a complete grid, every pixel `(x, y)` of the `width x height` range
/// holds a written color.
pub proof fn lemma_complete_covers_every_pixel(g: &PixelGrid, x: int, y: int)
    requires
        g.wf(),
        g.spec_complete(),
        0 <= x < g.spec_width(),
        0 <= y < g.spec_height(),
    ensures
        g.cells()[y * g.spec_width() as int + x] is Some,
{
    lemma_row_major_index_in_range(x, y, g.spec_width() as int, g.spec_height() as int);
}

} // verus!
