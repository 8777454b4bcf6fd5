//! From a frame to what a terminal is told.
//!
//! A frame is a list of pixels. A terminal takes directives: move the cursor,
//! set a colour, print a glyph, flush. The [`Emitter`] writes the directives
//! for a frame and remembers the colours it set last, so that it sets a colour
//! only where the colour changes.
use vstd::prelude::*;
use crate::{Color, Pixel, Viewport};

verus! {

/// One thing that a terminal is told to do.
#[derive(Debug, Clone, Copy, PartialEq, Eq, Structural)]
pub enum Directive {
    /// Move the cursor to this column and row.
    MoveTo(u16, u16),
    /// Print in this colour from now on.
    SetForeground(Color),
    /// Print on this colour from now on.
    SetBackground(Color),
    /// Print the glyph at the cursor.
    Print(char),
    /// Make visible what was told so far.
    Flush,
}

/// The colour that a terminal is told for a pixel's colour: the colour
/// itself, or the terminal's default where the pixel has none.
pub open spec fn spec_paint(color: Option<Color>) -> Color {
    match color {
        Some(color) => color,
        None => Color::Reset,
    }
}

/// The colour that a terminal is told for a pixel's colour: the colour
/// itself, or the terminal's default where the pixel has none.
#[verifier::when_used_as_spec(spec_paint)]
pub fn paint(color: Option<Color>) -> (told: Color)
    ensures
        told == spec_paint(color),
{
    match color {
        Some(color) => color,
        None => Color::Reset,
    }
}

/// Writes the directives for frames. For each of the two colours it holds
/// the one it set last; at first it has set none, which is not the same as
/// having set the default.
#[derive(Debug, Clone, Copy, PartialEq, Eq, Structural)]
pub struct Emitter {
    pub last_color_fg: Option<Option<Color>>,
    pub last_color_bg: Option<Option<Color>>,
}

impl Emitter {
    /// The directives for one pixel: move the cursor to it, set each colour
    /// that differs from the one set last, print the glyph.
    pub open spec fn pixel_directives(self, pixel: Pixel) -> Seq<Directive> {
        let fg: Seq<Directive> = if self.last_color_fg != Some(pixel.fg_color) {
            seq![Directive::SetForeground(paint(pixel.fg_color))]
        } else {
            seq![]
        };
        let bg: Seq<Directive> = if self.last_color_bg != Some(pixel.bg_color) {
            seq![Directive::SetBackground(paint(pixel.bg_color))]
        } else {
            seq![]
        };
        seq![Directive::MoveTo(pixel.pos.x, pixel.pos.y)] + fg + bg + seq![
            Directive::Print(pixel.glyph),
        ]
    }

    /// The emitter after the directives for the pixels: it has set the
    /// colours of the last of them.
    pub open spec fn after(self, pixels: Seq<Pixel>) -> Emitter {
        if pixels.len() == 0 {
            self
        } else {
            Emitter {
                last_color_fg: Some(pixels.last().fg_color),
                last_color_bg: Some(pixels.last().bg_color),
            }
        }
    }

    /// The directives for the pixels, one pixel after the other.
    pub open spec fn pixels_directives(self, pixels: Seq<Pixel>) -> Seq<Directive>
        decreases pixels.len(),
    {
        if pixels.len() == 0 {
            Seq::empty()
        } else {
            self.pixels_directives(pixels.drop_last()) + self.after(
                pixels.drop_last(),
            ).pixel_directives(pixels.last())
        }
    }

    /// The directives for a frame: those for its pixels, in their order, and
    /// one flush.
    pub open spec fn frame_directives(self, pixels: Seq<Pixel>) -> Seq<Directive> {
        self.pixels_directives(pixels).push(Directive::Flush)
    }

    /// An emitter that has set no colour yet.
    pub fn new() -> (emitter: Self)
        ensures
            emitter == (Emitter { last_color_fg: None, last_color_bg: None }),
    {
        Emitter { last_color_fg: None, last_color_bg: None }
    }

    /// The directives that paint the pixels of a frame, in the order of the
    /// pixels, with one flush at the end.
    pub fn emit(&mut self, pixels: Vec<Pixel>) -> (directives: Vec<Directive>)
        ensures
            directives@ == old(self).frame_directives(pixels@),
            *final(self) == old(self).after(pixels@),
    {
        let mut directives: Vec<Directive> = Vec::new();
        let mut i: usize = 0;
        while i < pixels.len()
            invariant
                i <= pixels@.len(),
                directives@ == old(self).pixels_directives(pixels@.take(i as int)),
                *self == old(self).after(pixels@.take(i as int)),
            decreases pixels@.len() - i,
        {
            let pixel = pixels[i];
            let ghost before = directives@;
            directives.push(Directive::MoveTo(pixel.pos.x, pixel.pos.y));

            // Set the foreground colour if the colour is different
            // than the last colour used
            if self.last_color_fg != Some(pixel.fg_color) {
                self.last_color_fg = Some(pixel.fg_color);
                directives.push(Directive::SetForeground(paint(pixel.fg_color)));
            }
            // Set the background colour if the colour is different
            // than the last colour used

            if self.last_color_bg != Some(pixel.bg_color) {
                self.last_color_bg = Some(pixel.bg_color);
                directives.push(Directive::SetBackground(paint(pixel.bg_color)));
            }
            directives.push(Directive::Print(pixel.glyph));
            proof {
                let done = pixels@.take(i + 1);
                assert(done.drop_last() =~= pixels@.take(i as int));
                assert(done.last() == pixel);
                assert(directives@ =~= before + old(self).after(
                    pixels@.take(i as int),
                ).pixel_directives(pixel));
            }
            i += 1;
        }
        assert(pixels@.take(i as int) =~= pixels@);
        directives.push(Directive::Flush);
        directives
    }
}

/// What a terminal shows in one cell.
pub struct Shown {
    pub glyph: char,
    pub fg: Color,
    pub bg: Color,
}

/// The mathematical model of a terminal: where its cursor is, the colours
/// it prints in, and what it shows in the cells printed so far.
pub struct Terminal {
    pub cursor: (int, int),
    pub fg: Color,
    pub bg: Color,
    pub cells: Map<(int, int), Shown>,
}

impl Terminal {
    /// The terminal after one directive. Printing shows the glyph at the
    /// cursor in the colours in effect and moves the cursor one cell on.
    pub open spec fn tell(self, directive: Directive) -> Terminal {
        match directive {
            Directive::MoveTo(x, y) => Terminal { cursor: (x as int, y as int), ..self },
            Directive::SetForeground(color) => Terminal { fg: color, ..self },
            Directive::SetBackground(color) => Terminal { bg: color, ..self },
            Directive::Print(glyph) => Terminal {
                cells: self.cells.insert(self.cursor, Shown { glyph, fg: self.fg, bg: self.bg }),
                cursor: (self.cursor.0 + 1, self.cursor.1),
                ..self
            },
            Directive::Flush => self,
        }
    }

    /// The terminal after the directives, one after the other.
    pub open spec fn tell_all(self, directives: Seq<Directive>) -> Terminal
        decreases directives.len(),
    {
        if directives.len() == 0 {
            self
        } else {
            self.tell_all(directives.drop_last()).tell(directives.last())
        }
    }

    /// The terminal after the pixel was painted on it in its own colours.
    pub open spec fn paint(self, pixel: Pixel) -> Terminal {
        Terminal {
            cursor: (pixel.pos.x + 1, pixel.pos.y as int),
            fg: paint(pixel.fg_color),
            bg: paint(pixel.bg_color),
            cells: self.cells.insert(
                (pixel.pos.x as int, pixel.pos.y as int),
                Shown { glyph: pixel.glyph, fg: paint(pixel.fg_color), bg: paint(pixel.bg_color) },
            ),
        }
    }

    /// The terminal after the pixels were painted on it, one after the
    /// other.
    pub open spec fn paint_all(self, pixels: Seq<Pixel>) -> Terminal
        decreases pixels.len(),
    {
        if pixels.len() == 0 {
            self
        } else {
            self.paint_all(pixels.drop_last()).paint(pixels.last())
        }
    }

    /// Whether the terminal prints in the colours that the emitter has set
    /// last, as far as it has set any.
    pub open spec fn in_step_with(self, emitter: Emitter) -> bool {
        &&& emitter.last_color_fg matches Some(color) ==> self.fg == paint(color)
        &&& emitter.last_color_bg matches Some(color) ==> self.bg == paint(color)
    }
}

/// Telling a terminal one list of directives and then another is telling it
/// the two lists joined.
pub proof fn lemma_tell_all_concat(
    terminal: Terminal,
    first: Seq<Directive>,
    second: Seq<Directive>,
)
    ensures
        terminal.tell_all(first + second) == terminal.tell_all(first).tell_all(second),
    decreases second.len(),
{
    if second.len() == 0 {
        assert(first + second =~= first);
    } else {
        lemma_tell_all_concat(terminal, first, second.drop_last());
        assert((first + second).drop_last() =~= first + second.drop_last());
    }
}

/// The directives for one pixel paint the pixel in its own colours, on a
/// terminal that prints in the colours that the emitter has set last.
pub proof fn lemma_pixel_directives_paint(terminal: Terminal, emitter: Emitter, pixel: Pixel)
    requires
        terminal.in_step_with(emitter),
    ensures
        terminal.tell_all(emitter.pixel_directives(pixel)) == terminal.paint(pixel),
{
    let directives = emitter.pixel_directives(pixel);
    let moved = Directive::MoveTo(pixel.pos.x, pixel.pos.y);
    let fg = Directive::SetForeground(paint(pixel.fg_color));
    let bg = Directive::SetBackground(paint(pixel.bg_color));
    let print = Directive::Print(pixel.glyph);
    reveal_with_fuel(Terminal::tell_all, 5);
    let sets_fg = emitter.last_color_fg != Some(pixel.fg_color);
    let sets_bg = emitter.last_color_bg != Some(pixel.bg_color);
    if sets_fg && sets_bg {
        assert(directives =~= seq![moved, fg, bg, print]);
        assert(directives.drop_last() =~= seq![moved, fg, bg]);
        assert(directives.drop_last().drop_last() =~= seq![moved, fg]);
        assert(directives.drop_last().drop_last().drop_last() =~= seq![moved]);
    } else if sets_fg {
        assert(directives =~= seq![moved, fg, print]);
        assert(directives.drop_last() =~= seq![moved, fg]);
        assert(directives.drop_last().drop_last() =~= seq![moved]);
    } else if sets_bg {
        assert(directives =~= seq![moved, bg, print]);
        assert(directives.drop_last() =~= seq![moved, bg]);
        assert(directives.drop_last().drop_last() =~= seq![moved]);
    } else {
        assert(directives =~= seq![moved, print]);
        assert(directives.drop_last() =~= seq![moved]);
    }
}

/// Leaving out the colours that are in effect changes nothing that a
/// terminal shows: the directives for a frame paint each pixel of the frame
/// in its own colours, in the order of the frame, on a terminal that prints
/// in the colours that the emitter has set last. The terminal then prints in
/// the colours that the emitter has set last after the frame.
pub proof fn lemma_frame_directives_paint(terminal: Terminal, emitter: Emitter, pixels: Seq<Pixel>)
    requires
        terminal.in_step_with(emitter),
    ensures
        terminal.tell_all(emitter.pixels_directives(pixels)) == terminal.paint_all(pixels),
        terminal.tell_all(emitter.frame_directives(pixels)) == terminal.paint_all(pixels),
        terminal.paint_all(pixels).in_step_with(emitter.after(pixels)),
    decreases pixels.len(),
{
    if pixels.len() > 0 {
        let before = pixels.drop_last();
        lemma_frame_directives_paint(terminal, emitter, before);
        lemma_tell_all_concat(
            terminal,
            emitter.pixels_directives(before),
            emitter.after(before).pixel_directives(pixels.last()),
        );
        lemma_pixel_directives_paint(
            terminal.paint_all(before),
            emitter.after(before),
            pixels.last(),
        );
    }
    assert(emitter.frame_directives(pixels).drop_last() =~= emitter.pixels_directives(pixels));
}

/// Something that a render can render to.
pub trait RenderTarget {
    /// Whether `after` is a state in which `clear` may leave this target. A
    /// target that says nothing else may be left in any state.
    open spec fn clears_to(&self, after: &Self) -> bool {
        true
    }

    /// Show the pixels of a frame.
    fn render(&mut self, pixels: Vec<Pixel>);

    /// Wipe everything shown.
    fn clear(&mut self)
        ensures
            old(self).clears_to(final(self)),
    ;
}

/// Draws characters to a render target (most likely stdout)
pub struct Renderer<T: RenderTarget> {
    pub target: T,
}

impl<T: RenderTarget> Renderer<T> {
    /// Create a new target
    pub fn new(target: T) -> (renderer: Self)
        ensures
            renderer.target == target,
    {
        Self { target }
    }

    /// Draw characters to screen: take the viewport's frame and hand it to
    /// the target.
    pub fn render(&mut self, viewport: &mut Viewport)
        requires
            old(viewport)@.wf(),
            old(viewport)@.fits_screen(),
        ensures
            final(viewport)@ == old(viewport)@.advance(),
            final(viewport)@.wf(),
    {
        self.target.render(viewport.pixels());
    }

    /// Clear the screen: the target is cleared, as its own `clear` does it.
    pub fn clear(&mut self)
        ensures
            old(self).target.clears_to(&final(self).target),
    {
        self.target.clear();
    }
}

/// A dummy render target.
pub struct DummyTarget;

impl RenderTarget for DummyTarget {
    fn render(&mut self, _pixels: Vec<Pixel>) {
    }

    fn clear(&mut self) {
    }
}

} // verus!
