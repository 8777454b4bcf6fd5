//! Helpers for showing the state of a game while it is developed.
use vstd::prelude::*;
use crate::{Pixel, ScreenPos, Viewport};

verus! {

/// The pixel of character number `index` of a line of text: in the first
/// row and the default colours, its column cut down to sixteen bits.
pub open spec fn line_pixel(text: Seq<char>, index: int) -> Pixel {
    Pixel {
        glyph: text[index],
        pos: ScreenPos { x: index as u16, y: 0 },
        fg_color: None,
        bg_color: None,
    }
}

/// The pixels of a line of text.
pub open spec fn line_pixels(text: Seq<char>) -> Seq<Pixel> {
    Seq::new(text.len(), |i: int| line_pixel(text, i))
}

/// Useful to log text to screen
pub struct DebugOutput {
    pub text: String,
}

impl DebugOutput {
    /// Draw the text in the first row of the viewport.
    pub fn render(&self, viewport: &mut Viewport)
        requires
            old(viewport)@.wf(),
        ensures
            final(viewport)@ == old(viewport)@.draw_all(line_pixels(self.text@)),
            final(viewport)@.wf(),
    {
        let count: usize = self.text.as_str().unicode_len();
        let mut index: usize = 0;
        let ghost line = line_pixels(self.text@);
        for c in iter: self.text.as_str().chars()
            invariant
                iter.seq() == self.text@,
                self.text@.len() == count,
                line == line_pixels(self.text@),
                index == iter.index(),
                viewport@.wf(),
                viewport@ == old(viewport)@.draw_all(line.take(index as int)),
        {
            assert(line.take(index + 1).drop_last() =~= line.take(index as int));
            let pixel = Pixel::white(
                c,
                ScreenPos::new(
                    #[verifier::truncate]
                    (index as u16),
                    0,
                ),
            );
            viewport.draw_pixel(pixel);
            index += 1;
        }
        assert(line.take(index as int) =~= line);
    }
}

impl Default for DebugOutput {
    fn default() -> (output: Self)
        ensures
            output.text@ == Seq::<char>::empty(),
    {
        Self { text: String::new() }
    }
}

} // verus!
