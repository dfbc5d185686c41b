//! Grid coordinates and colours.

use vstd::prelude::*;

verus! {

/// A pair of whole numbers: a cell of the grid, or a size measured in cells
/// or in pixels.
#[derive(Clone, Copy, Debug, PartialEq, Eq, Structural)]
pub struct Point {
    pub x: i32,
    pub y: i32,
}

/// The colours the game paints with.
#[derive(Clone, Copy, Debug, PartialEq, Eq, Structural)]
pub enum Color {
    White,
    Black,
    Red,
    Blue,
    Purple,
}

} // verus!
