//! A small engine for drawing games on a character terminal.
//!
//! A [`Viewport`] keeps two grids of cells and reports, once per frame, only
//! the cells that changed. A [`Camera`] maps positions in the world to cells of
//! a viewport and can follow a target. An [`Emitter`] turns a frame into the
//! directives that a terminal needs, leaving out colour changes that would
//! repeat the colour already in effect.
use vstd::prelude::*;

pub mod camera;
pub mod color;
pub mod entities;
pub mod events;
pub mod geometry;
pub mod pixelbuffer;
pub mod render;
pub mod string_ops;
pub mod ui;
pub mod viewport;
pub mod widgets;
pub mod world;

pub use camera::Camera;
pub use color::Color;
pub use geometry::{ScreenPos, ScreenSize, WorldPos, WorldRect, WorldSize};
pub use pixelbuffer::PixelBuffer;
pub use render::{Directive, DummyTarget, Emitter, RenderTarget, Renderer};
pub use viewport::Viewport;

verus! {

/// A character at a position, with a colour.
#[derive(Debug, Clone, Copy, PartialEq, Structural)]
pub struct Pixel {
    pub glyph: char,
    pub pos: ScreenPos,
    pub fg_color: Option<Color>,
    pub bg_color: Option<Color>,
}

impl Pixel {
    pub fn new(
        glyph: char,
        pos: ScreenPos,
        fg_color: Option<Color>,
        bg_color: Option<Color>,
    ) -> (pixel: Self)
        ensures
            pixel == (Pixel { glyph, pos, fg_color, bg_color }),
    {
        Self { glyph, pos, fg_color, bg_color }
    }

    /// A pixel in the terminal's default colours.
    pub fn white(c: char, pos: ScreenPos) -> (pixel: Self)
        ensures
            pixel == (Pixel { glyph: c, pos, fg_color: None, bg_color: None }),
    {
        Self::new(c, pos, None, None)
    }

    /// The pixel that wipes a cell: a space in the default colours.
    pub open spec fn blank(pos: ScreenPos) -> Pixel {
        Pixel { glyph: ' ', pos, fg_color: None, bg_color: None }
    }

    /// The same pixel at another position.
    pub open spec fn at(self, pos: ScreenPos) -> Pixel {
        Pixel { pos, ..self }
    }
}

} // verus!
