//! A rectangle of cells on the screen with a cursor that never leaves it.

use vstd::prelude::*;

use crate::stuff::Position;
use crate::stuff::Size;

verus! {

/// Whether a request to move the cursor was carried out.
#[derive(Debug, Clone, Copy, PartialEq, Eq, Structural)]
pub enum CursorMove {
    /// The cursor stands where the request aimed.
    Moved,
    /// The request aimed outside the panel; the cursor did not move.
    Blocked,
}

/// A request to move the cursor of a panel.
#[derive(Debug, Clone, Copy, PartialEq, Eq, Structural)]
pub enum CursorMovement {
    /// One column to the left.
    Left,
    /// One row down.
    Down,
    /// One row up.
    Up,
    /// One column to the right.
    Right,
    /// To the first column of the current row.
    LeftMost,
    /// To the last row of the current column.
    Bottom,
    /// To the first row of the current column.
    Top,
    /// To the last column of the current row.
    RightMost,
}

/// A panel: where it starts on the screen, how many columns and rows of
/// cells it has, and the cell its cursor is on, counted from the panel's
/// own top-left cell.
#[derive(Debug)]
pub struct Panel {
    position: Position,
    size: Size,
    cursor: Position,
}

/// What a [`Panel`] holds, as plain values.
pub struct PanelView {
    pub position: Position,
    pub size: Size,
    pub cursor: Position,
}

impl PanelView {
    /// The panel has at least one cell, its far corner is a cell of the
    /// screen, and the cursor is on one of the panel's cells.
    pub open spec fn wf(self) -> bool {
        &&& self.size.width > 0
        &&& self.size.height > 0
        &&& self.position.x + self.size.width <= u16::MAX
        &&& self.position.y + self.size.height <= u16::MAX
        &&& self.contains(self.cursor.x as int, self.cursor.y as int)
    }

    /// Whether the cell at `column` and `row` of the unbounded grid is one
    /// of the panel's cells.
    pub open spec fn contains(self, column: int, row: int) -> bool {
        0 <= column < self.size.width && 0 <= row < self.size.height
    }

    /// The cell of the unbounded grid that `dir` aims at, as column and row.
    pub open spec fn aim(self, dir: CursorMovement) -> (int, int) {
        match dir {
            CursorMovement::Left => (self.cursor.x - 1, self.cursor.y as int),
            CursorMovement::Right => (self.cursor.x + 1, self.cursor.y as int),
            CursorMovement::Up => (self.cursor.x as int, self.cursor.y - 1),
            CursorMovement::Down => (self.cursor.x as int, self.cursor.y + 1),
            CursorMovement::LeftMost => (0, self.cursor.y as int),
            CursorMovement::RightMost => (self.size.width - 1, self.cursor.y as int),
            CursorMovement::Top => (self.cursor.x as int, 0),
            CursorMovement::Bottom => (self.cursor.x as int, self.size.height - 1),
        }
    }

    /// Whether `dir` aims at one of the panel's cells.
    pub open spec fn allows(self, dir: CursorMovement) -> bool {
        self.contains(self.aim(dir).0, self.aim(dir).1)
    }

    /// The panel with its cursor on the cell at `column` and `row`.
    pub open spec fn with_cursor(self, column: int, row: int) -> PanelView {
        PanelView { cursor: Position { x: column as u16, y: row as u16 }, ..self }
    }

    /// The panel after a request to move: the cursor is on the cell aimed
    /// at if that is one of the panel's cells, and has not moved if not.
    pub open spec fn after(self, dir: CursorMovement) -> PanelView {
        if self.allows(dir) {
            self.with_cursor(self.aim(dir).0, self.aim(dir).1)
        } else {
            self
        }
    }
}

impl View for Panel {
    type V = PanelView;

    closed spec fn view(&self) -> PanelView {
        PanelView { position: self.position, size: self.size, cursor: self.cursor }
    }
}

impl Panel {
    /// See [`PanelView::wf`].
    pub open spec fn wf(&self) -> bool {
        self@.wf()
    }

    /// A panel of `size` cells whose top-left cell is at `position` on the
    /// screen, with the cursor on that cell.
    pub fn new(position: Position, size: Size) -> (r: Panel)
        requires
            size.width > 0,
            size.height > 0,
            position.x + size.width <= u16::MAX,
            position.y + size.height <= u16::MAX,
        ensures
            r.wf(),
            r@ == (PanelView { position, size, cursor: Position { x: 0, y: 0 } }),
    {
        Panel { position, size, cursor: Position { x: 0, y: 0 } }
    }

    /// The screen cell of the panel's top-left corner.
    pub fn position(&self) -> (r: &Position)
        ensures
            *r == self@.position,
    {
        &self.position
    }

    /// The number of columns and rows of the panel.
    pub fn size(&self) -> (r: &Size)
        ensures
            *r == self@.size,
    {
        &self.size
    }

    /// The screen cell of the panel's top-left corner, and the screen cell
    /// one column right of and one row below its bottom-right corner.
    pub fn bounds(&self) -> (r: (Position, Position))
        requires
            self.wf(),
        ensures
            r.0 == self@.position,
            r.1.x == self@.position.x + self@.size.width,
            r.1.y == self@.position.y + self@.size.height,
    {
        (self.position, self.position + self.size)
    }

    /// The cell the cursor is on, counted from the panel's top-left cell.
    pub fn cursor(&self) -> (r: &Position)
        ensures
            *r == self@.cursor,
    {
        &self.cursor
    }

    /// Puts the cursor on `column` of the row it is on, if the panel has
    /// that column, and leaves it where it is if not.
    pub fn set_column(&mut self, column: u16) -> (r: CursorMove)
        requires
            old(self).wf(),
        ensures
            final(self).wf(),
            r == CursorMove::Moved <==> column < old(self)@.size.width,
            r == CursorMove::Blocked <==> column >= old(self)@.size.width,
            final(self)@ == if column < old(self)@.size.width {
                old(self)@.with_cursor(column as int, old(self)@.cursor.y as int)
            } else {
                old(self)@
            },
    {
        if column < self.size.width {
            self.cursor.x = column;
            CursorMove::Moved
        } else {
            CursorMove::Blocked
        }
    }

    /// Puts the cursor on `row` of the column it is on, if the panel has
    /// that row, and leaves it where it is if not.
    pub fn set_row(&mut self, row: u16) -> (r: CursorMove)
        requires
            old(self).wf(),
        ensures
            final(self).wf(),
            r == CursorMove::Moved <==> row < old(self)@.size.height,
            r == CursorMove::Blocked <==> row >= old(self)@.size.height,
            final(self)@ == if row < old(self)@.size.height {
                old(self)@.with_cursor(old(self)@.cursor.x as int, row as int)
            } else {
                old(self)@
            },
    {
        if row < self.size.height {
            self.cursor.y = row;
            CursorMove::Moved
        } else {
            CursorMove::Blocked
        }
    }

    /// Moves the cursor one column to the left, unless it is on the first
    /// column.
    pub fn move_left(&mut self) -> (r: CursorMove)
        requires
            old(self).wf(),
        ensures
            final(self).wf(),
            final(self)@ == old(self)@.after(CursorMovement::Left),
            r == CursorMove::Blocked <==> old(self)@.cursor.x == 0,
            r == CursorMove::Moved <==> old(self)@.cursor.x > 0,
    {
        self.move_cursor(CursorMovement::Left)
    }

    /// Moves the cursor one column to the right, unless it is on the last
    /// column.
    pub fn move_right(&mut self) -> (r: CursorMove)
        requires
            old(self).wf(),
        ensures
            final(self).wf(),
            final(self)@ == old(self)@.after(CursorMovement::Right),
            r == CursorMove::Blocked <==> old(self)@.cursor.x == old(self)@.size.width - 1,
            r == CursorMove::Moved <==> old(self)@.cursor.x < old(self)@.size.width - 1,
    {
        self.move_cursor(CursorMovement::Right)
    }

    /// Moves the cursor one row up, unless it is on the first row.
    pub fn move_up(&mut self) -> (r: CursorMove)
        requires
            old(self).wf(),
        ensures
            final(self).wf(),
            final(self)@ == old(self)@.after(CursorMovement::Up),
            r == CursorMove::Blocked <==> old(self)@.cursor.y == 0,
            r == CursorMove::Moved <==> old(self)@.cursor.y > 0,
    {
        self.move_cursor(CursorMovement::Up)
    }

    /// Moves the cursor one row down, unless it is on the last row.
    pub fn move_down(&mut self) -> (r: CursorMove)
        requires
            old(self).wf(),
        ensures
            final(self).wf(),
            final(self)@ == old(self)@.after(CursorMovement::Down),
            r == CursorMove::Blocked <==> old(self)@.cursor.y == old(self)@.size.height - 1,
            r == CursorMove::Moved <==> old(self)@.cursor.y < old(self)@.size.height - 1,
    {
        self.move_cursor(CursorMovement::Down)
    }

    /// Moves the cursor as `dir` asks if that keeps it on the panel, and
    /// leaves it where it is if not.
    pub fn move_cursor(&mut self, dir: CursorMovement) -> (r: CursorMove)
        requires
            old(self).wf(),
        ensures
            final(self).wf(),
            final(self)@ == old(self)@.after(dir),
            r == CursorMove::Moved <==> old(self)@.allows(dir),
            r == CursorMove::Blocked <==> !old(self)@.allows(dir),
    {
        let width: u16 = self.size.width;
        let height: u16 = self.size.height;
        match dir {
            CursorMovement::Left => {
                if self.cursor.x > 0 {
                    self.cursor.x -= 1;
                    CursorMove::Moved
                } else {
                    CursorMove::Blocked
                }
            },
            CursorMovement::Down => {
                if self.cursor.y < height - 1 {
                    self.cursor.y += 1;
                    CursorMove::Moved
                } else {
                    CursorMove::Blocked
                }
            },
            CursorMovement::Up => {
                if self.cursor.y > 0 {
                    self.cursor.y -= 1;
                    CursorMove::Moved
                } else {
                    CursorMove::Blocked
                }
            },
            CursorMovement::Right => {
                if self.cursor.x < width - 1 {
                    self.cursor.x += 1;
                    CursorMove::Moved
                } else {
                    CursorMove::Blocked
                }
            },
            CursorMovement::LeftMost => {
                self.cursor.x = 0;
                CursorMove::Moved
            },
            CursorMovement::Bottom => {
                self.cursor.y = height - 1;
                CursorMove::Moved
            },
            CursorMovement::Top => {
                self.cursor.y = 0;
                CursorMove::Moved
            },
            CursorMovement::RightMost => {
                self.cursor.x = width - 1;
                CursorMove::Moved
            },
        }
    }
}

/// A request to move leaves the cursor on a cell of the panel, and is
/// refused if and only if the cell that it aims at is none of the panel's.
pub proof fn law_cursor_stays_on_panel(v: PanelView, dir: CursorMovement)
    requires
        v.wf(),
    ensures
        v.after(dir).wf(),
        v.contains(v.after(dir).cursor.x as int, v.after(dir).cursor.y as int),
        v.after(dir).position == v.position,
        v.after(dir).size == v.size,
        v.after(dir) == v <== !v.contains(v.aim(dir).0, v.aim(dir).1),
        v.after(dir).cursor.x == v.aim(dir).0 && v.after(dir).cursor.y == v.aim(dir).1 <== v.contains(
            v.aim(dir).0,
            v.aim(dir).1,
        ),
{
}

} // verus!
