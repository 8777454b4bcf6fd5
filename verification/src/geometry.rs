//! Positions and sizes in the two unit spaces of the engine.
//!
//! Screen space is a grid of cells with its origin in the top left corner.
//! World space is the grid on which a game places its entities. The two are
//! kept apart by type: a camera is the only way from one to the other.
use vstd::prelude::*;

verus! {

/// A position on screen, where 0,0 is the top left corner.
#[derive(Debug, Clone, Copy, PartialEq, Eq, Hash, Structural)]
pub struct ScreenPos {
    pub x: u16,
    pub y: u16,
}

impl ScreenPos {
    pub fn new(x: u16, y: u16) -> (pos: Self)
        ensures
            pos.x == x,
            pos.y == y,
    {
        ScreenPos { x, y }
    }

    /// The top left corner.
    pub fn zero() -> (pos: Self)
        ensures
            pos.x == 0,
            pos.y == 0,
    {
        ScreenPos { x: 0, y: 0 }
    }
}

/// A size on screen, in cells.
#[derive(Debug, Clone, Copy, PartialEq, Eq, Hash, Structural)]
pub struct ScreenSize {
    pub width: u16,
    pub height: u16,
}

impl ScreenSize {
    pub fn new(width: u16, height: u16) -> (size: Self)
        ensures
            size.width == width,
            size.height == height,
    {
        ScreenSize { width, height }
    }

    /// The number of cells of a grid of this size.
    pub open spec fn area(self) -> nat {
        (self.width as nat) * (self.height as nat)
    }
}

/// A position in the world.
#[derive(Debug, Clone, Copy, PartialEq, Eq, Hash, Structural)]
pub struct WorldPos {
    pub x: i32,
    pub y: i32,
}

impl WorldPos {
    pub fn new(x: i32, y: i32) -> (pos: Self)
        ensures
            pos.x == x,
            pos.y == y,
    {
        WorldPos { x, y }
    }
}

/// A size in the world.
#[derive(Debug, Clone, Copy, PartialEq, Eq, Hash, Structural)]
pub struct WorldSize {
    pub width: u16,
    pub height: u16,
}

impl WorldSize {
    pub fn new(width: u16, height: u16) -> (size: Self)
        ensures
            size.width == width,
            size.height == height,
    {
        WorldSize { width, height }
    }
}

/// A rect in the world. A position is inside it from its left and top edge
/// up to, and without, its right and bottom edge.
#[derive(Debug, Clone, Copy, PartialEq, Eq, Hash, Structural)]
pub struct WorldRect {
    pub origin: WorldPos,
    pub size: WorldSize,
}

impl WorldRect {
    pub fn new(origin: WorldPos, size: WorldSize) -> (rect: Self)
        ensures
            rect.origin == origin,
            rect.size == size,
    {
        WorldRect { origin, size }
    }

    /// The right and bottom edge are coordinates of the world.
    pub open spec fn wf(self) -> bool {
        &&& self.origin.x + self.size.width <= i32::MAX
        &&& self.origin.y + self.size.height <= i32::MAX
    }

    /// Whether the position is inside the rect.
    pub open spec fn spec_contains(&self, pos: WorldPos) -> bool {
        &&& self.origin.x <= pos.x < self.origin.x + self.size.width
        &&& self.origin.y <= pos.y < self.origin.y + self.size.height
    }

    pub fn min_x(&self) -> (x: i32)
        ensures
            x == self.origin.x,
    {
        self.origin.x
    }

    pub fn min_y(&self) -> (y: i32)
        ensures
            y == self.origin.y,
    {
        self.origin.y
    }

    pub fn max_x(&self) -> (x: i32)
        requires
            self.wf(),
        ensures
            x == self.origin.x + self.size.width,
    {
        self.origin.x + self.size.width as i32
    }

    pub fn max_y(&self) -> (y: i32)
        requires
            self.wf(),
        ensures
            y == self.origin.y + self.size.height,
    {
        self.origin.y + self.size.height as i32
    }

    /// Whether the position is inside the rect.
    #[verifier::when_used_as_spec(spec_contains)]
    pub fn contains(&self, pos: WorldPos) -> (inside: bool)
        ensures
            inside == self.spec_contains(pos),
    {
        self.origin.x <= pos.x && (pos.x as i64) < self.origin.x as i64 + self.size.width as i64
            && self.origin.y <= pos.y && (pos.y as i64) < self.origin.y as i64
            + self.size.height as i64
    }
}

/// A point in a space of its user's choice.
#[derive(Debug, PartialEq, Eq, Hash)]
pub struct Point2D<T> {
    pub x: T,
    pub y: T,
}

impl<T> Point2D<T> {
    pub fn new(x: T, y: T) -> (point: Self)
        ensures
            point.x == x,
            point.y == y,
    {
        Point2D { x, y }
    }
}

} // verus!
