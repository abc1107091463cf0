//! Plain screen coordinates and extents.

use vstd::prelude::*;
use vstd::std_specs::convert::FromSpecImpl;
use vstd::std_specs::convert::IntoSpec;
use vstd::std_specs::ops::AddSpecImpl;

verus! {

/// A cell on the screen: `x` is the column, `y` the row.
#[derive(Debug, Clone, Copy, PartialEq, Eq, Structural, PartialOrd, Ord, Hash)]
pub struct Position {
    pub x: u16,
    pub y: u16,
}

/// The extent of a rectangle of cells.
#[derive(Debug, Clone, Copy, PartialEq, Eq, Structural, PartialOrd, Ord, Hash)]
pub struct Size {
    pub width: u16,
    pub height: u16,
}

impl Default for Position {
    /// The top-left cell.
    fn default() -> (r: Position)
        ensures
            r == (Position { x: 0, y: 0 }),
    {
        Position { x: 0, y: 0 }
    }
}

impl Default for Size {
    /// The empty extent.
    fn default() -> (r: Size)
        ensures
            r == (Size { width: 0, height: 0 }),
    {
        Size { width: 0, height: 0 }
    }
}

impl From<Size> for Position {
    /// The cell just past the far corner of a rectangle of this extent that
    /// starts at the origin.
    fn from(size: Size) -> (r: Position) {
        Position { x: size.width, y: size.height }
    }
}

impl FromSpecImpl<Size> for Position {
    open spec fn obeys_from_spec() -> bool {
        true
    }

    open spec fn from_spec(size: Size) -> Position {
        Position { x: size.width, y: size.height }
    }
}

impl From<Position> for Size {
    /// The extent of the rectangle between the origin and this cell.
    fn from(position: Position) -> (r: Size) {
        Size { width: position.x, height: position.y }
    }
}

impl FromSpecImpl<Position> for Size {
    open spec fn obeys_from_spec() -> bool {
        true
    }

    open spec fn from_spec(position: Position) -> Size {
        Size { width: position.x, height: position.y }
    }
}

impl From<Size> for (u16, u16) {
    fn from(size: Size) -> (r: (u16, u16)) {
        (size.width, size.height)
    }
}

impl FromSpecImpl<Size> for (u16, u16) {
    open spec fn obeys_from_spec() -> bool {
        true
    }

    open spec fn from_spec(size: Size) -> (u16, u16) {
        (size.width, size.height)
    }
}

impl From<Position> for (u16, u16) {
    fn from(position: Position) -> (r: (u16, u16)) {
        (position.x, position.y)
    }
}

impl FromSpecImpl<Position> for (u16, u16) {
    open spec fn obeys_from_spec() -> bool {
        true
    }

    open spec fn from_spec(position: Position) -> (u16, u16) {
        (position.x, position.y)
    }
}

impl From<(u16, u16)> for Size {
    fn from(pair: (u16, u16)) -> (r: Size) {
        Size { width: pair.0, height: pair.1 }
    }
}

impl FromSpecImpl<(u16, u16)> for Size {
    open spec fn obeys_from_spec() -> bool {
        true
    }

    open spec fn from_spec(pair: (u16, u16)) -> Size {
        Size { width: pair.0, height: pair.1 }
    }
}

impl From<(u16, u16)> for Position {
    fn from(pair: (u16, u16)) -> (r: Position) {
        Position { x: pair.0, y: pair.1 }
    }
}

impl FromSpecImpl<(u16, u16)> for Position {
    open spec fn obeys_from_spec() -> bool {
        true
    }

    open spec fn from_spec(pair: (u16, u16)) -> Position {
        Position { x: pair.0, y: pair.1 }
    }
}

impl<R: Into<Size>> core::ops::Add<R> for Size {
    type Output = Size;

    /// Adds the two extents component by component.
    fn add(self, rhs: R) -> (r: Size) {
        let rhs: Size = rhs.into();
        Size { width: self.width + rhs.width, height: self.height + rhs.height }
    }
}

impl<R: Into<Size>> AddSpecImpl<R> for Size {
    open spec fn obeys_add_spec() -> bool {
        true
    }

    open spec fn add_req(self, rhs: R) -> bool {
        &&& R::obeys_into_spec()
        &&& self.width + rhs.into_spec().width <= u16::MAX
        &&& self.height + rhs.into_spec().height <= u16::MAX
    }

    open spec fn add_spec(self, rhs: R) -> Size {
        Size {
            width: (self.width + rhs.into_spec().width) as u16,
            height: (self.height + rhs.into_spec().height) as u16,
        }
    }
}

impl<R: Into<Position>> core::ops::Add<R> for Position {
    type Output = Position;

    /// Moves the cell right by `rhs.x` columns and down by `rhs.y` rows.
    fn add(self, rhs: R) -> (r: Position) {
        let rhs: Position = rhs.into();
        Position { x: self.x + rhs.x, y: self.y + rhs.y }
    }
}

impl<R: Into<Position>> AddSpecImpl<R> for Position {
    open spec fn obeys_add_spec() -> bool {
        true
    }

    open spec fn add_req(self, rhs: R) -> bool {
        &&& R::obeys_into_spec()
        &&& self.x + rhs.into_spec().x <= u16::MAX
        &&& self.y + rhs.into_spec().y <= u16::MAX
    }

    open spec fn add_spec(self, rhs: R) -> Position {
        Position {
            x: (self.x + rhs.into_spec().x) as u16,
            y: (self.y + rhs.into_spec().y) as u16,
        }
    }
}

} // verus!
