//! The grid of cells that a viewport draws into.
use vstd::prelude::*;
use crate::{Pixel, ScreenPos, ScreenSize};

verus! {

/// The mathematical model of a pixel buffer: its cells in row-major order,
/// and its size.
pub struct Grid {
    pub cells: Seq<Option<Pixel>>,
    pub size: ScreenSize,
}

impl Grid {
    /// There is exactly one cell for each position of the grid.
    pub open spec fn wf(self) -> bool {
        self.cells.len() == self.size.area()
    }

    /// A grid of the given size in which no cell is set.
    pub open spec fn empty(size: ScreenSize) -> Grid {
        Grid { cells: Seq::new(size.area(), |i: int| None::<Pixel>), size }
    }

    /// The same grid with every cell unset.
    pub open spec fn cleared(self) -> Grid {
        Grid { cells: Seq::new(self.cells.len(), |i: int| None::<Pixel>), ..self }
    }

    /// Whether no cell is set.
    pub open spec fn is_blank(self) -> bool {
        forall|i: int| 0 <= i < self.cells.len() ==> self.cells[i] is None
    }

    /// Whether `pos` names a cell of the grid.
    pub open spec fn in_bounds(self, pos: ScreenPos) -> bool {
        pos.x < self.size.width && pos.y < self.size.height
    }

    /// The index of the cell at `pos`.
    pub open spec fn index_of(self, pos: ScreenPos) -> int {
        self.size.width * pos.y + pos.x
    }

    /// The position of the cell with the given index. Beyond the last row
    /// the row number is cut down to sixteen bits.
    pub open spec fn coords_of(self, index: int) -> ScreenPos {
        ScreenPos {
            x: (index % (self.size.width as int)) as u16,
            y: (index / (self.size.width as int)) as u16,
        }
    }

    /// The cell at `pos`, and nothing outside the grid.
    pub open spec fn get(self, pos: ScreenPos) -> Option<Pixel> {
        if self.in_bounds(pos) && self.index_of(pos) < self.cells.len() {
            self.cells[self.index_of(pos)]
        } else {
            None
        }
    }

    /// Whether the cell at `index` already shows the glyph of `pixel`.
    pub open spec fn shows_glyph(self, index: int, pixel: Pixel) -> bool {
        self.cells[index] matches Some(existing) && existing.glyph == pixel.glyph
    }

    /// The grid after `pixel` was written at its own position. A cell that
    /// already shows the same glyph is left as it is, colours included.
    pub open spec fn set(self, pixel: Pixel) -> Grid {
        let index = self.index_of(pixel.pos);
        if self.shows_glyph(index, pixel) {
            self
        } else {
            Grid { cells: self.cells.update(index, Some(pixel)), ..self }
        }
    }
}

/// The index of an in-bounds position is the index of a cell.
pub proof fn lemma_index_in_range(grid: Grid, pos: ScreenPos)
    requires
        grid.wf(),
        grid.in_bounds(pos),
    ensures
        0 <= grid.index_of(pos) < grid.cells.len(),
{
    let w = grid.size.width as int;
    let h = grid.size.height as int;
    let y = pos.y as int;
    assert(w * y <= w * (h - 1)) by (nonlinear_arith)
        requires
            0 <= y <= h - 1,
            0 <= w,
    ;
    assert(w * (h - 1) == w * h - w) by (nonlinear_arith);
}

/// The position computed for a cell's index is inside the grid.
pub proof fn lemma_coords_in_bounds(grid: Grid, index: int)
    requires
        grid.wf(),
        0 <= index < grid.cells.len(),
    ensures
        grid.in_bounds(grid.coords_of(index)),
        grid.coords_of(index).x == index % (grid.size.width as int),
        grid.coords_of(index).y == index / (grid.size.width as int),
{
    let w = grid.size.width as int;
    let h = grid.size.height as int;
    assert(w > 0) by (nonlinear_arith)
        requires
            0 <= index < w * h,
            0 <= w,
    ;
    let q = index / w;
    let r = index % w;
    assert(0 <= q < h && 0 <= r < w && index == w * q + r) by (nonlinear_arith)
        requires
            0 <= index < w * h,
            0 < w,
            q == index / w,
            r == index % w,
    ;
}

/// Turning an index into a position and back gives the index again.
pub proof fn lemma_index_of_coords(grid: Grid, index: int)
    requires
        grid.wf(),
        0 <= index < grid.cells.len(),
    ensures
        grid.index_of(grid.coords_of(index)) == index,
{
    lemma_coords_in_bounds(grid, index);
    let w = grid.size.width as int;
    assert(w != 0 ==> index == w * (index / w) + index % w) by (nonlinear_arith);
}

/// Turning an in-bounds position into an index and back gives the position
/// again.
pub proof fn lemma_coords_of_index(grid: Grid, pos: ScreenPos)
    requires
        grid.wf(),
        grid.in_bounds(pos),
    ensures
        grid.coords_of(grid.index_of(pos)) == pos,
{
    let w = grid.size.width as int;
    let x = pos.x as int;
    let y = pos.y as int;
    let index = w * y + x;
    assert(index / w == y && index % w == x) by (nonlinear_arith)
        requires
            index == w * y + x,
            0 <= x < w,
    ;
}

/// Reading the position computed for a cell's index gives that cell.
pub proof fn lemma_get_at_coords(grid: Grid, index: int)
    requires
        grid.wf(),
        0 <= index < grid.cells.len(),
    ensures
        grid.get(grid.coords_of(index)) == grid.cells[index],
{
    lemma_coords_in_bounds(grid, index);
    lemma_index_of_coords(grid, index);
}

/// Clearing a grid gives the empty grid of its size, and one in which no cell
/// is set.
pub proof fn lemma_cleared_is_empty(grid: Grid)
    requires
        grid.wf(),
    ensures
        grid.cleared() == Grid::empty(grid.size),
        grid.cleared().wf(),
        grid.cleared().is_blank(),
{
    assert(grid.cleared().cells =~= Grid::empty(grid.size).cells);
}

/// Character buffer holds all the "pixels" to be drawn on the screen.
#[derive(Debug)]
pub struct PixelBuffer {
    /// The cells in row-major order.
    pub pixels: Vec<Option<Pixel>>,
    size: ScreenSize,
}

impl View for PixelBuffer {
    type V = Grid;

    closed spec fn view(&self) -> Grid {
        Grid { cells: self.pixels@, size: self.size }
    }
}

impl PixelBuffer {
    /// Create a new character buffer in which no cell is set.
    /// Should be at least the same size as the viewport it's relative to.
    pub fn new(size: ScreenSize) -> (buffer: Self)
        ensures
            buffer@ == Grid::empty(size),
            buffer@.wf(),
    {
        let cap: usize = Self::cell_count(size);
        let mut pixels: Vec<Option<Pixel>> = Vec::new();
        let mut i: usize = 0;
        while i < cap
            invariant
                i <= cap,
                pixels@.len() == i,
                forall|j: int| 0 <= j < i ==> pixels@[j] is None,
            decreases cap - i,
        {
            pixels.push(None);
            i += 1;
        }
        let buffer = Self { pixels, size };
        assert(buffer@.cells =~= Grid::empty(size).cells);
        buffer
    }

    /// The number of cells of a grid of the given size.
    fn cell_count(size: ScreenSize) -> (count: usize)
        ensures
            count == size.area(),
    {
        assert((size.width as nat) * (size.height as nat) <= 0xffff * 0xffff) by (nonlinear_arith)
            requires
                size.width <= 0xffff,
                size.height <= 0xffff,
        ;
        (size.width as usize) * (size.height as usize)
    }

    /// Convert index to x y coordinates.
    pub fn index_to_coords(&self, index: usize) -> (pos: ScreenPos)
        requires
            self@.size.width > 0,
        ensures
            pos == self@.coords_of(index as int),
            self@.wf() && index < self@.cells.len() ==> self@.in_bounds(pos) && self@.index_of(pos)
                == index,
    {
        let x: usize = index % self.size.width as usize;
        let y: usize = index / self.size.width as usize;
        proof {
            if self@.wf() && index < self@.cells.len() {
                lemma_coords_in_bounds(self@, index as int);
                lemma_index_of_coords(self@, index as int);
            }
        }
        ScreenPos::new(
            #[verifier::truncate]
            (x as u16),
            #[verifier::truncate]
            (y as u16),
        )
    }

    /// Convert x y coordinates inside the buffer to the index of their cell.
    pub fn coords_to_index(&self, pos: ScreenPos) -> (index: usize)
        ensures
            index == self@.index_of(pos),
            self@.wf() && self@.in_bounds(pos) ==> index < self@.cells.len() && self@.coords_of(
                index as int,
            ) == pos,
    {
        proof {
            if self@.wf() && self@.in_bounds(pos) {
                lemma_index_in_range(self@, pos);
                lemma_coords_of_index(self@, pos);
            }
            let w = self.size.width as int;
            let y = pos.y as int;
            assert(0 <= w * y <= 0xffff * 0xffff) by (nonlinear_arith)
                requires
                    0 <= w <= 0xffff,
                    0 <= y <= 0xffff,
            ;
        }
        self.size.width as usize * pos.y as usize + pos.x as usize
    }

    /// Get the pixel at the given screen position. There is none outside
    /// the buffer.
    pub fn get_pixel(&self, pos: ScreenPos) -> (pixel: Option<Pixel>)
        ensures
            pixel == self@.get(pos),
    {
        if pos.x < self.size.width && pos.y < self.size.height {
            let index: usize = self.coords_to_index(pos);
            if index < self.pixels.len() {
                self.pixels[index]
            } else {
                None
            }
        } else {
            None
        }
    }

    /// Write a pixel at its own position, unless the cell there already
    /// shows the same glyph.
    pub fn set_pixel(&mut self, pixel: Pixel)
        requires
            old(self)@.wf(),
            old(self)@.in_bounds(pixel.pos),
        ensures
            final(self)@ == old(self)@.set(pixel),
            final(self)@.wf(),
    {
        let index: usize = self.coords_to_index(pixel.pos);
        if let Some(existing_pixel) = self.pixels[index] {
            if existing_pixel.glyph == pixel.glyph {
                return ;
            }
        }
        self.pixels.set(index, Some(pixel));
    }

    /// Unset every cell.
    pub fn clear(&mut self)
        ensures
            final(self)@ == old(self)@.cleared(),
    {
        let n: usize = self.pixels.len();
        let mut i: usize = 0;
        while i < n
            invariant
                i <= n,
                self.pixels@.len() == n,
                self.size == old(self).size,
                forall|j: int| 0 <= j < i ==> self.pixels@[j] is None,
            decreases n - i,
        {
            self.pixels.set(i, None);
            i += 1;
        }
        assert(self@.cells =~= old(self)@.cleared().cells);
    }
}

} // verus!
