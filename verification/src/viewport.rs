//! The drawable area of the screen and its frame-by-frame diff.
use vstd::prelude::*;
use crate::pixelbuffer::{
    lemma_cleared_is_empty, lemma_coords_in_bounds, lemma_coords_of_index, lemma_get_at_coords,
    lemma_index_in_range, Grid,
};
use crate::widgets::Widget;
use crate::{Pixel, PixelBuffer, ScreenPos, ScreenSize};

verus! {

/// The mathematical model of a viewport: where it sits on screen, its size,
/// the grid that is being drawn into and the grid that was shown last.
pub struct Scene {
    pub position: ScreenPos,
    pub size: ScreenSize,
    pub pending: Grid,
    pub committed: Grid,
}

impl Scene {
    /// Both grids have the size of the viewport.
    pub open spec fn wf(self) -> bool {
        &&& self.pending.wf()
        &&& self.committed.wf()
        &&& self.pending.size == self.size
        &&& self.committed.size == self.size
    }

    /// A viewport on which nothing was drawn or shown yet.
    pub open spec fn fresh(position: ScreenPos, size: ScreenSize) -> Scene {
        Scene { position, size, pending: Grid::empty(size), committed: Grid::empty(size) }
    }

    /// The same viewport with another size, and nothing drawn or shown.
    pub open spec fn resized(self, width: u16, height: u16) -> Scene {
        Scene::fresh(self.position, ScreenSize { width, height })
    }

    /// Whether a position, relative to the viewport, is inside it.
    pub open spec fn in_view(self, pos: ScreenPos) -> bool {
        pos.x < self.size.width && pos.y < self.size.height
    }

    /// Every cell of the viewport has a position on screen.
    pub open spec fn fits_screen(self) -> bool {
        &&& self.position.x + self.size.width <= 0x1_0000
        &&& self.position.y + self.size.height <= 0x1_0000
    }

    /// The viewport after one pixel was drawn. A pixel outside the view
    /// changes nothing.
    pub open spec fn draw(self, pixel: Pixel) -> Scene {
        if self.in_view(pixel.pos) {
            Scene { pending: self.pending.set(pixel), ..self }
        } else {
            self
        }
    }

    /// The viewport after the pixels were drawn one after the other.
    pub open spec fn draw_all(self, pixels: Seq<Pixel>) -> Scene
        decreases pixels.len(),
    {
        if pixels.len() == 0 {
            self
        } else {
            self.draw_all(pixels.drop_last()).draw(pixels.last())
        }
    }

    /// The viewport after a pixel was drawn that many cells to the right of
    /// and below its own position. A pixel that this moves out of the view
    /// changes nothing.
    pub open spec fn draw_at(self, pixel: Pixel, offset: ScreenPos) -> Scene {
        if pixel.pos.x + offset.x < self.size.width && pixel.pos.y + offset.y < self.size.height {
            self.draw(
                pixel.at(
                    ScreenPos {
                        x: (pixel.pos.x + offset.x) as u16,
                        y: (pixel.pos.y + offset.y) as u16,
                    },
                ),
            )
        } else {
            self
        }
    }

    /// The viewport after the pixels were drawn one after the other, each
    /// moved by the offset.
    pub open spec fn draw_all_at(self, pixels: Seq<Pixel>, offset: ScreenPos) -> Scene
        decreases pixels.len(),
    {
        if pixels.len() == 0 {
            self
        } else {
            self.draw_all_at(pixels.drop_last(), offset).draw_at(pixels.last(), offset)
        }
    }

    /// The position on screen of a position relative to the viewport.
    pub open spec fn absolute(self, pos: ScreenPos) -> ScreenPos {
        ScreenPos { x: (pos.x + self.position.x) as u16, y: (pos.y + self.position.y) as u16 }
    }

    /// What the frame holds for the cell with the given index: the pending
    /// pixel, moved to the cell's position on screen, or a blank where a pixel
    /// was shown and none is pending, or nothing.
    pub open spec fn delta(self, index: int) -> Option<Pixel> {
        let pos = self.absolute(self.pending.coords_of(index));
        match (self.pending.cells[index], self.committed.cells[index]) {
            (Some(pixel), _) => Some(pixel.at(pos)),
            (None, Some(_)) => Some(Pixel::blank(pos)),
            (None, None) => None,
        }
    }

    /// The frame's pixels for the first `count` cells, in the order of the
    /// cells.
    pub open spec fn frame_upto(self, count: nat) -> Seq<Pixel>
        decreases count,
    {
        if count == 0 {
            Seq::empty()
        } else {
            let before = self.frame_upto((count - 1) as nat);
            match self.delta(count - 1) {
                Some(pixel) => before.push(pixel),
                None => before,
            }
        }
    }

    /// The frame: for each cell, in row-major order, what changed.
    pub open spec fn frame(self) -> Seq<Pixel> {
        self.frame_upto(self.pending.cells.len())
    }

    /// The viewport after a frame was taken: what was pending is now what is
    /// shown, and nothing is pending.
    pub open spec fn advance(self) -> Scene {
        Scene { pending: self.committed.cleared(), committed: self.pending, ..self }
    }
}

/// A pixel drawn inside the view can be read back at its position, and no
/// other cell changes. This holds unless the cell already shows the pixel's
/// glyph in other colours or with another stored position: see
/// `lemma_draw_same_glyph`.
pub proof fn lemma_draw_then_get(scene: Scene, pixel: Pixel)
    requires
        scene.wf(),
        scene.in_view(pixel.pos),
        scene.pending.get(pixel.pos) matches Some(cell) ==> cell.glyph != pixel.glyph || cell
            == pixel,
    ensures
        scene.draw(pixel).wf(),
        scene.draw(pixel).pending.get(pixel.pos) == Some(pixel),
        forall|other: ScreenPos|
            other != pixel.pos ==> #[trigger] scene.draw(pixel).pending.get(other)
                == scene.pending.get(other),
{
    let grid = scene.pending;
    lemma_index_in_range(grid, pixel.pos);
    lemma_coords_of_index(grid, pixel.pos);
    assert forall|other: ScreenPos| other != pixel.pos implies #[trigger] scene.draw(
        pixel,
    ).pending.get(other) == grid.get(other) by {
        if grid.in_bounds(other) {
            lemma_index_in_range(grid, other);
            lemma_coords_of_index(grid, other);
        }
    }
}

/// A pixel drawn on a cell that already shows its glyph changes nothing: the
/// cell keeps the colours it had.
pub proof fn lemma_draw_same_glyph(scene: Scene, pixel: Pixel)
    requires
        scene.wf(),
        scene.in_view(pixel.pos),
        scene.pending.get(pixel.pos) matches Some(cell) && cell.glyph == pixel.glyph,
    ensures
        scene.draw(pixel) == scene,
{
    lemma_index_in_range(scene.pending, pixel.pos);
}

/// A pixel drawn outside the view leaves the viewport as it was.
pub proof fn lemma_draw_outside_view(scene: Scene, pixel: Pixel)
    requires
        !scene.in_view(pixel.pos),
    ensures
        scene.draw(pixel) == scene,
{
}

/// Drawing changes neither what is shown nor where the viewport sits, and
/// keeps both grids at the viewport's size.
pub proof fn lemma_draw_all_keeps(scene: Scene, pixels: Seq<Pixel>)
    requires
        scene.wf(),
    ensures
        scene.draw_all(pixels).wf(),
        scene.draw_all(pixels).committed == scene.committed,
        scene.draw_all(pixels).position == scene.position,
        scene.draw_all(pixels).size == scene.size,
    decreases pixels.len(),
{
    if pixels.len() > 0 {
        lemma_draw_all_keeps(scene, pixels.drop_last());
        let before = scene.draw_all(pixels.drop_last());
        if before.in_view(pixels.last().pos) {
            lemma_index_in_range(before.pending, pixels.last().pos);
        }
    }
}

/// Where no cell is pending and none was shown, the frame is empty.
pub proof fn lemma_frame_of_nothing(scene: Scene, count: nat)
    requires
        forall|i: int| 0 <= i < count ==> scene.delta(i) is None,
    ensures
        scene.frame_upto(count) == Seq::<Pixel>::empty(),
    decreases count,
{
    if count > 0 {
        lemma_frame_of_nothing(scene, (count - 1) as nat);
    }
}

/// A frame holds at most one pixel for each cell.
pub proof fn lemma_frame_len(scene: Scene, count: nat)
    ensures
        scene.frame_upto(count).len() <= count,
    decreases count,
{
    if count > 0 {
        lemma_frame_len(scene, (count - 1) as nat);
    }
}

/// The frame for more cells starts with the frame for fewer.
pub proof fn lemma_frame_grows(scene: Scene, fewer: nat, more: nat)
    requires
        fewer <= more,
    ensures
        scene.frame_upto(fewer).len() <= scene.frame_upto(more).len(),
        scene.frame_upto(more).take(scene.frame_upto(fewer).len() as int) == scene.frame_upto(
            fewer,
        ),
    decreases more,
{
    let short = scene.frame_upto(fewer);
    if fewer == more {
        assert(short.take(short.len() as int) =~= short);
    } else {
        lemma_frame_grows(scene, fewer, (more - 1) as nat);
        let before = scene.frame_upto((more - 1) as nat);
        assert(scene.frame_upto(more).take(short.len() as int) =~= before.take(short.len() as int));
    }
}

/// What changed in a cell stands in the frame, behind what changed in the
/// cells before it.
pub proof fn lemma_frame_holds_delta(scene: Scene, index: int)
    requires
        0 <= index < scene.pending.cells.len(),
        scene.delta(index) is Some,
    ensures
        scene.frame_upto(index as nat).len() < scene.frame().len(),
        scene.frame()[scene.frame_upto(index as nat).len() as int] == scene.delta(index)->0,
{
    let with = scene.frame_upto((index + 1) as nat);
    lemma_frame_grows(scene, (index + 1) as nat, scene.pending.cells.len());
    assert(scene.frame().take(with.len() as int)[with.len() - 1] == with[with.len() - 1]);
}

/// Each pixel of a frame is what changed in one cell, and stands behind
/// what changed in the cells before that one.
pub proof fn lemma_frame_pixel_is_delta(scene: Scene, count: nat, place: int) -> (index: int)
    requires
        0 <= place < scene.frame_upto(count).len(),
    ensures
        0 <= index < count,
        scene.delta(index) == Some(scene.frame_upto(count)[place]),
        scene.frame_upto(index as nat).len() == place,
    decreases count,
{
    let before = scene.frame_upto((count - 1) as nat);
    if place < before.len() {
        lemma_frame_pixel_is_delta(scene, (count - 1) as nat, place)
    } else {
        count - 1
    }
}

/// Taking a frame keeps both grids at the viewport's size and leaves
/// nothing pending.
pub proof fn lemma_advance_wf(scene: Scene)
    requires
        scene.wf(),
    ensures
        scene.advance().wf(),
        scene.advance().pending.is_blank(),
        scene.advance().committed == scene.pending,
{
    lemma_cleared_is_empty(scene.committed);
}

/// No false deltas: when a frame is taken with nothing drawn since the one
/// before, the frame that follows it at once is empty.
pub proof fn lemma_idle_frame_is_empty(scene: Scene)
    requires
        scene.wf(),
        scene.pending.is_blank(),
    ensures
        scene.advance().frame() == Seq::<Pixel>::empty(),
{
    lemma_advance_wf(scene);
    let next = scene.advance();
    lemma_frame_of_nothing(next, next.pending.cells.len());
}

/// A resize discards the history: in the frame that follows it every cell
/// drawn since is reported as the pixel drawn, and no cell as a blank.
pub proof fn lemma_frame_after_resize(scene: Scene, width: u16, height: u16, pixels: Seq<Pixel>)
    ensures
        ({
            let drawn = scene.resized(width, height).draw_all(pixels);
            &&& drawn.wf()
            &&& drawn.committed.is_blank()
            &&& forall|i: int|
                0 <= i < drawn.pending.cells.len() ==> #[trigger] drawn.delta(i) == (
                match drawn.pending.cells[i] {
                    Some(pixel) => Some(pixel.at(drawn.absolute(drawn.pending.coords_of(i)))),
                    None => None,
                })
        }),
{
    let start = scene.resized(width, height);
    lemma_draw_all_keeps(start, pixels);
}

/// Represents a drawable area on screen.
pub struct Viewport {
    /// The viewport's position on screen.
    /// Where 0,0 is the top left corner.
    pub position: ScreenPos,
    /// The size of the viewport. Should probably match the size of the camera
    /// that is used with this viewport.
    pub size: ScreenSize,
    new_buf: PixelBuffer,
    old_buf: PixelBuffer,
}

impl View for Viewport {
    type V = Scene;

    closed spec fn view(&self) -> Scene {
        Scene {
            position: self.position,
            size: self.size,
            pending: self.new_buf@,
            committed: self.old_buf@,
        }
    }
}

impl Viewport {
    /// Create a new viewport with a given screen position.
    pub fn new(position: ScreenPos, size: ScreenSize) -> (viewport: Self)
        ensures
            viewport@ == Scene::fresh(position, size),
            viewport@.wf(),
    {
        Self { position, size, new_buf: PixelBuffer::new(size), old_buf: PixelBuffer::new(size) }
    }

    /// Resize the viewport. Both grids start over: the next frame holds
    /// every pixel drawn after the resize, and no blank.
    /// Remember to clear the renderer or residual
    /// characters might remain.
    pub fn resize(&mut self, width: u16, height: u16)
        ensures
            final(self)@ == old(self)@.resized(width, height),
            final(self)@.wf(),
    {
        self.size = ScreenSize::new(width, height);
        self.new_buf = PixelBuffer::new(self.size);
        self.old_buf = PixelBuffer::new(self.size);
    }

    /// Draw the pixels onto the renderable surface layers, in their order.
    pub fn draw_pixels(&mut self, pixels: Vec<Pixel>)
        requires
            old(self)@.wf(),
        ensures
            final(self)@ == old(self)@.draw_all(pixels@),
            final(self)@.wf(),
    {
        let mut i: usize = 0;
        while i < pixels.len()
            invariant
                i <= pixels@.len(),
                self@.wf(),
                self@ == old(self)@.draw_all(pixels@.take(i as int)),
            decreases pixels@.len() - i,
        {
            assert(pixels@.take(i + 1).drop_last() =~= pixels@.take(i as int));
            self.draw_pixel(pixels[i]);
            i += 1;
        }
        assert(pixels@.take(i as int) =~= pixels@);
    }

    /// Draw a single pixel onto the rendereable surface layers.
    /// This is called from `draw_pixels` for each pixel.
    /// A pixel outside the viewport is dropped.
    ///
    /// This is useful if it's desired to draw just one pixel.
    pub fn draw_pixel(&mut self, pixel: Pixel)
        requires
            old(self)@.wf(),
        ensures
            final(self)@ == old(self)@.draw(pixel),
            final(self)@.wf(),
    {
        if self.in_view(pixel.pos) {
            self.new_buf.set_pixel(pixel);
        }
    }

    /// Draw a widget with an offset in the viewport: the widget lays itself
    /// out for the size of the viewport, and its pixels are drawn in their
    /// order, each moved by the offset.
    pub fn draw_widget(&mut self, widget: &impl Widget, offset: ScreenPos)
        requires
            old(self)@.wf(),
            widget.fits(old(self)@.size),
        ensures
            exists|pixels: Seq<Pixel>| final(self)@ == old(self)@.draw_all_at(pixels, offset),
            final(self)@.wf(),
            final(self)@.committed == old(self)@.committed,
            final(self)@.position == old(self)@.position,
            final(self)@.size == old(self)@.size,
    {
        let pixels = widget.pixels(self.size);
        self.draw_pixels_at(pixels, offset);
    }

    /// Draw the pixels in their order, each as many cells to the right of and
    /// below its own position as the offset says. A pixel that this moves out
    /// of the viewport is dropped.
    pub fn draw_pixels_at(&mut self, pixels: Vec<Pixel>, offset: ScreenPos)
        requires
            old(self)@.wf(),
        ensures
            final(self)@ == old(self)@.draw_all_at(pixels@, offset),
            final(self)@.wf(),
            final(self)@.committed == old(self)@.committed,
            final(self)@.position == old(self)@.position,
            final(self)@.size == old(self)@.size,
    {
        let mut i: usize = 0;
        while i < pixels.len()
            invariant
                i <= pixels@.len(),
                self@.wf(),
                self@ == old(self)@.draw_all_at(pixels@.take(i as int), offset),
                self@.committed == old(self)@.committed,
                self@.position == old(self)@.position,
                self@.size == old(self)@.size,
            decreases pixels@.len() - i,
        {
            assert(pixels@.take(i + 1).drop_last() =~= pixels@.take(i as int));
            let mut p = pixels[i];
            match (p.pos.x.checked_add(offset.x), p.pos.y.checked_add(offset.y)) {
                (Some(x), Some(y)) => {
                    p.pos.x = x;
                    p.pos.y = y;
                    self.draw_pixel(p);
                },
                _ => {},
            }
            i += 1;
        }
        assert(pixels@.take(i as int) =~= pixels@);
    }

    /// Whether every cell of the viewport has a position on screen.
    pub fn fits_screen(&self) -> (fits: bool)
        ensures
            fits == self@.fits_screen(),
    {
        self.position.x as u32 + self.size.width as u32 <= 0x1_0000 && self.position.y as u32
            + self.size.height as u32 <= 0x1_0000
    }

    /// The viewport's position on screen.
    pub fn position(&self) -> (position: ScreenPos)
        ensures
            position == self@.position,
    {
        self.position
    }

    /// The size of the viewport.
    pub fn size(&self) -> (size: ScreenSize)
        ensures
            size == self@.size,
    {
        self.size
    }

    /// The number of cells of the viewport.
    fn cell_count(&self) -> (count: usize)
        ensures
            count == self@.size.area(),
    {
        assert((self.size.width as nat) * (self.size.height as nat) <= 0xffff * 0xffff)
            by (nonlinear_arith)
            requires
                self.size.width <= 0xffff,
                self.size.height <= 0xffff,
        ;
        (self.size.width as usize) * (self.size.height as usize)
    }

    fn in_view(&self, pos: ScreenPos) -> (inside: bool)
        ensures
            inside == self@.in_view(pos),
    {
        pos.x < self.size.width && pos.y < self.size.height
    }

    fn offset(&self, pos: ScreenPos) -> (shifted: ScreenPos)
        requires
            pos.x + self.position.x <= u16::MAX,
            pos.y + self.position.y <= u16::MAX,
        ensures
            shifted == self@.absolute(pos),
    {
        ScreenPos::new(pos.x + self.position.x, pos.y + self.position.y)
    }

    /// Take the frame: the pixels that changed since the last one, in
    /// row-major order, each at its position on screen. What was drawn becomes
    /// what is shown, and the next frame starts with nothing drawn.
    pub fn pixels(&mut self) -> (frame: Vec<Pixel>)
        requires
            old(self)@.wf(),
            old(self)@.fits_screen(),
        ensures
            frame@ == old(self)@.frame(),
            final(self)@ == old(self)@.advance(),
            final(self)@.wf(),
    {
        let mut pixels = Vec::<Pixel>::new();
        let count: usize = self.cell_count();
        let mut index: usize = 0;
        while index < count
            invariant
                index <= count,
                count == self@.pending.cells.len(),
                self@.wf(),
                self@.fits_screen(),
                self@ == old(self)@,
                pixels@ == self@.frame_upto(index as nat),
            decreases count - index,
        {
            proof {
                lemma_coords_in_bounds(self@.pending, index as int);
                lemma_get_at_coords(self@.pending, index as int);
                lemma_get_at_coords(self@.committed, index as int);
            }
            let coords = self.new_buf.index_to_coords(index);
            match (self.new_buf.get_pixel(coords), self.old_buf.get_pixel(coords)) {
                (Some(pixel), _) => {
                    let mut pixel = pixel;
                    pixel.pos = self.offset(coords);
                    pixels.push(pixel);
                },
                (None, Some(_)) => {
                    pixels.push(Pixel::white(' ', self.offset(coords)));
                },
                (None, None) => {},
            }
            index += 1;
        }
        std::mem::swap(&mut self.new_buf, &mut self.old_buf);
        self.new_buf.clear();
        proof {
            lemma_cleared_is_empty(old(self)@.committed);
        }
        pixels
    }
}

} // verus!
