use vstd::prelude::*;

verus! {

/// A screen or text coordinate pair: `x` is a column or grapheme index,
/// `y` is a row index.
#[derive(Clone, Copy, PartialEq, Eq, Structural, Debug)]
pub struct Position {
    pub x: usize,
    pub y: usize,
}

/// A viewport extent in columns (`width`) and rows (`height`).
#[derive(Clone, Copy, PartialEq, Eq, Structural, Debug)]
pub struct Size {
    pub height: usize,
    pub width: usize,
}

impl Position {
    /// Component-wise difference, clamped at zero on each axis.
    pub fn subtract(&self, other: &Self) -> (r: Self)
        ensures
            r.x == if self.x >= other.x { self.x - other.x } else { 0 },
            r.y == if self.y >= other.y { self.y - other.y } else { 0 },
    {
        Self { x: self.x.saturating_sub(other.x), y: self.y.saturating_sub(other.y) }
    }
}

impl Default for Position {
    fn default() -> (r: Self)
        ensures
            r.x == 0 && r.y == 0,
    {
        Position { x: 0, y: 0 }
    }
}

impl Default for Size {
    fn default() -> (r: Self)
        ensures
            r.height == 0 && r.width == 0,
    {
        Size { height: 0, width: 0 }
    }
}

} // verus!
