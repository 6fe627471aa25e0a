//! Coordinates of graphics: where a graphic stands and how large it is drawn.

use vstd::prelude::*;

verus! {

/// A pair of coordinates.
///
/// Components such as [`Position`] implement this trait to give access to
/// their coordinates. The two spec functions are the mathematical reading of
/// a value; the executable methods are stated against them.
pub trait Vector2<T>: Sized {
    /// The x coordinate of the pair.
    spec fn x(&self) -> T;

    /// The y coordinate of the pair.
    spec fn y(&self) -> T;

    /// The coordinates of the origin.
    spec fn origin() -> (T, T);

    /// Constructs a vector at the origin.
    fn new() -> (v: Self)
        ensures
            (v.x(), v.y()) == Self::origin(),
    ;

    /// Constructs a vector with the given coordinates.
    fn spawn(x: T, y: T) -> (v: Self)
        ensures
            v.x() == x,
            v.y() == y,
    ;

    /// Gets the x coordinate of the vector.
    fn get_x(&self) -> (x: T)
        ensures
            x == self.x(),
    ;

    /// Gets the y coordinate of the vector.
    fn get_y(&self) -> (y: T)
        ensures
            y == self.y(),
    ;
}

/// The position of a graphic.
#[derive(Clone, Copy, Debug, PartialEq, Eq, Structural)]
pub struct Position(pub u16, pub u16);

impl Vector2<u16> for Position {
    open spec fn x(&self) -> u16 {
        self.0
    }

    open spec fn y(&self) -> u16 {
        self.1
    }

    open spec fn origin() -> (u16, u16) {
        (0, 0)
    }

    fn new() -> (v: Position)
        ensures
            v == Position(0, 0),
    {
        Position(0, 0)
    }

    fn spawn(x: u16, y: u16) -> (v: Position)
        ensures
            v == Position(x, y),
    {
        Position(x, y)
    }

    fn get_x(&self) -> (x: u16) {
        self.0
    }

    fn get_y(&self) -> (y: u16) {
        self.1
    }
}

/// The scale of a graphic.
#[derive(Clone, Copy, Debug, PartialEq, Eq, Structural)]
pub struct Scale(pub u8, pub u8);

impl Vector2<u8> for Scale {
    open spec fn x(&self) -> u8 {
        self.0
    }

    open spec fn y(&self) -> u8 {
        self.1
    }

    open spec fn origin() -> (u8, u8) {
        (0, 0)
    }

    fn new() -> (v: Scale)
        ensures
            v == Scale(0, 0),
    {
        Scale(0, 0)
    }

    fn spawn(x: u8, y: u8) -> (v: Scale)
        ensures
            v == Scale(x, y),
    {
        Scale(x, y)
    }

    fn get_x(&self) -> (x: u8) {
        self.0
    }

    fn get_y(&self) -> (y: u8) {
        self.1
    }
}

} // verus!
