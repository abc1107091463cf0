//! A view of a file through a window of ten rows of two groups of eight
//! bytes, with one cursor that both panels share.

use vstd::prelude::*;

use crate::editor::ActivePanel;
use crate::file::law_down_stays_in_file;
use crate::file::law_up_approaches_start;
use crate::file::lemma_window_in_file;
use crate::file::CursorDirection;
use crate::file::FileCursor;
use crate::file::FileCursorView;
use crate::geometry::law_window_is_whole_rows;
use crate::geometry::lemma_cell_columns;
use crate::geometry::Geometry;
use crate::geometry::GeometryView;
use crate::geometry::TOP_ROWS;
use crate::snapshot::dim_blank;
use crate::snapshot::texts;
use crate::snapshot::Frame;
use crate::snapshot::Snapshot;
use crate::snapshot::SnapshotView;
use crate::stuff::Position;

verus! {

/// The bytes of a group of a view.
pub const VIEW_BYTES_PER_GROUP: u16 = 8;

/// The groups of a row of a view.
pub const VIEW_GROUPS_PER_ROW: u16 = 2;

/// The rows of a view.
pub const VIEW_ROWS: u16 = 10;

/// One of the two panels that show the window.
#[derive(Debug, Clone, Copy, PartialEq, Eq, Structural)]
pub enum Panel {
    /// The columns of hex pairs.
    Hex,
    /// The column of characters.
    Ascii,
}

impl Panel {
    /// The panel that this one is not.
    pub open spec fn other(self) -> Panel {
        match self {
            Panel::Hex => Panel::Ascii,
            Panel::Ascii => Panel::Hex,
        }
    }

    /// Makes this the other panel.
    pub fn switch(&mut self)
        ensures
            *final(self) == old(self).other(),
    {
        *self = match *self {
            Panel::Hex => Panel::Ascii,
            Panel::Ascii => Panel::Hex,
        };
    }
}

/// Whether a step of the cursor was carried out.
#[derive(Debug, Clone, Copy, PartialEq, Eq, Structural)]
pub enum CursorMovement {
    /// The step would have left the panel; the cursor did not move.
    StuckEdge,
    /// The cursor is one cell further.
    Moved,
}

/// Where the cursor goes when the other panel becomes the active one.
#[derive(Debug, Clone, Copy, PartialEq, Eq, Structural)]
pub enum PanelMovement {
    /// To the first column of the other panel.
    LeftEdge,
    /// To the last column of the other panel.
    RightEdge,
    /// To the column it is on now.
    KeepCursor,
}

/// A window over a file, the panel that the cursor is in, and the byte of
/// the window that the cursor is on, as column and row.
#[derive(Debug)]
pub struct FileView {
    file: FileCursor,
    geometry: Geometry,
    view_cursor: (u16, u16),
    panel: Panel,
}

/// What a [`FileView`] holds, as plain values.
pub struct FileViewState {
    pub file: FileCursorView,
    pub geometry: GeometryView,
    pub column: nat,
    pub row: nat,
    pub panel: Panel,
}

impl FileViewState {
    /// The layout fits the screen, the window is one of this layout, and
    /// the cursor is on a byte of a row of the layout.
    pub open spec fn wf(self) -> bool {
        &&& self.geometry.wf()
        &&& self.geometry.fits_screen()
        &&& self.geometry.frames(self.file)
        &&& self.column < self.geometry.bytes_per_row()
        &&& self.row < self.geometry.rows
    }

    /// The last column of either panel.
    pub open spec fn right_edge(self) -> nat {
        (self.geometry.bytes_per_row() - 1) as nat
    }

    /// The last row of either panel.
    pub open spec fn bottom_edge(self) -> nat {
        (self.geometry.rows - 1) as nat
    }

    /// The view after a step to the left: one column further left, or as
    /// it is where the cursor is on the first column.
    pub open spec fn stepped_left(self) -> FileViewState {
        if self.column == 0 {
            self
        } else {
            FileViewState { column: (self.column - 1) as nat, ..self }
        }
    }

    /// The view after a step to the right: one column further right, or as
    /// it is where the cursor is on the last column.
    pub open spec fn stepped_right(self) -> FileViewState {
        if self.column == self.right_edge() {
            self
        } else {
            FileViewState { column: self.column + 1, ..self }
        }
    }

    /// The view after a step down: the cursor one row further down, or,
    /// where it is on the last row, the window one row further down.
    pub open spec fn stepped_down(self) -> FileViewState {
        if self.row == self.bottom_edge() {
            FileViewState { file: self.file.scrolled(CursorDirection::Down(1)), ..self }
        } else {
            FileViewState { row: self.row + 1, ..self }
        }
    }

    /// The view after a step up: the cursor one row further up, or, where
    /// it is on the first row, the window one row further up.
    pub open spec fn stepped_up(self) -> FileViewState {
        if self.row == 0 {
            FileViewState { file: self.file.scrolled(CursorDirection::Up(1)), ..self }
        } else {
            FileViewState { row: (self.row - 1) as nat, ..self }
        }
    }

    /// The view with the other panel active and the cursor where
    /// `move_type` says.
    pub open spec fn switched(self, move_type: PanelMovement) -> FileViewState {
        FileViewState {
            panel: self.panel.other(),
            column: match move_type {
                PanelMovement::LeftEdge => 0,
                PanelMovement::RightEdge => self.right_edge(),
                PanelMovement::KeepCursor => self.column,
            },
            ..self
        }
    }

    /// What the display of the view needs.
    pub open spec fn snapshot(self) -> SnapshotView {
        SnapshotView {
            window_bytes: self.file.buffer,
            bytes_per_row: self.geometry.bytes_per_row(),
            groups_per_row: self.geometry.groups_per_row,
            bytes_per_group: self.geometry.bytes_per_group,
            current_row_offset: self.file.origin_row(),
            active_panel: match self.panel {
                Panel::Hex => ActivePanel::Hex,
                Panel::Ascii => ActivePanel::Ascii,
            },
            cursor_column: self.column,
            cursor_row: self.row,
        }
    }

    /// The screen column of the cursor.
    pub open spec fn screen_column(self) -> nat {
        match self.panel {
            Panel::Hex => self.geometry.hex_column_of(self.column),
            Panel::Ascii => self.geometry.ascii_column(self.column),
        }
    }

    /// The screen row of the cursor.
    pub open spec fn screen_row(self) -> nat {
        TOP_ROWS as nat + self.row
    }
}

/// A step to the left or to the right leaves the cursor on a column of the
/// panel, and is refused if and only if it would lead off the panel.
pub proof fn law_cursor_stays_on_its_row(v: FileViewState)
    requires
        v.wf(),
    ensures
        v.stepped_left().wf(),
        v.stepped_right().wf(),
        v.stepped_left() == v <==> v.column - 1 < 0,
        v.stepped_right() == v <==> v.column + 1 > v.right_edge(),
{
}

/// A step up or down leaves the cursor on a row of the panel; from the
/// first row a step up moves the window and not the cursor, and so does a
/// step down from the last row.
pub proof fn law_cursor_stays_on_its_column(v: FileViewState)
    requires
        v.wf(),
    ensures
        v.stepped_up().wf(),
        v.stepped_down().wf(),
        v.stepped_up().row == v.row <==> v.row == 0,
        v.stepped_down().row == v.row <==> v.row == v.bottom_edge(),
        v.stepped_up().column == v.column,
        v.stepped_down().column == v.column,
{
    law_up_approaches_start(v.file, 1);
    law_down_stays_in_file(v.file, 1);
}

/// A switch leads to the other panel. One that keeps the cursor leads
/// from the last column to the last column and from the first to the
/// first; one to an edge leads to that edge.
pub proof fn law_switch_keeps_the_edge(v: FileViewState, move_type: PanelMovement)
    requires
        v.wf(),
    ensures
        v.switched(move_type).wf(),
        v.switched(move_type).panel == v.panel.other(),
        v.switched(move_type).row == v.row,
        move_type == PanelMovement::KeepCursor ==> v.switched(move_type).column == v.column,
        move_type == PanelMovement::LeftEdge ==> v.switched(move_type).column == 0,
        move_type == PanelMovement::RightEdge ==> v.switched(move_type).column == v.switched(
            move_type,
        ).right_edge(),
{
    law_window_is_whole_rows(v.geometry);
}

impl View for FileView {
    type V = FileViewState;

    closed spec fn view(&self) -> FileViewState {
        FileViewState {
            file: self.file@,
            geometry: self.geometry@,
            column: self.view_cursor.0 as nat,
            row: self.view_cursor.1 as nat,
            panel: self.panel,
        }
    }
}

impl FileView {
    /// See [`FileViewState::wf`].
    pub open spec fn wf(&self) -> bool {
        self@.wf()
    }

    /// A view of a file of `file_len` bytes: the window at the start of
    /// the file and waiting to be filled, the cursor on the first byte, in
    /// the panel of characters.
    pub fn new(file_len: u64) -> (r: FileView)
        ensures
            r.wf(),
            r@ == (FileViewState {
                file: FileCursorView {
                    window_bytes: 160,
                    line_bytes: 16,
                    file_len: file_len as nat,
                    origin: 0,
                    buffer: Seq::empty(),
                },
                geometry: GeometryView { bytes_per_group: 8, groups_per_row: 2, rows: 10 },
                column: 0,
                row: 0,
                panel: Panel::Ascii,
            }),
    {
        let geometry = Geometry::new(
            VIEW_BYTES_PER_GROUP,
            VIEW_GROUPS_PER_ROW,
            VIEW_ROWS,
        ).unwrap();
        let file = geometry.window_over(file_len);
        FileView { file, geometry, view_cursor: (0, 0), panel: Panel::Ascii }
    }

    /// The window over the file.
    pub fn file(&self) -> (r: &FileCursor)
        ensures
            r@ == self@.file,
    {
        &self.file
    }

    /// The panel that the cursor is in.
    pub fn panel(&self) -> (r: Panel)
        ensures
            r == self@.panel,
    {
        self.panel
    }

    /// The column and the row of the byte that the cursor is on.
    pub fn cursor(&self) -> (r: (u16, u16))
        ensures
            r.0 == self@.column,
            r.1 == self@.row,
    {
        self.view_cursor
    }

    /// Takes what a read of the bytes that the window covers gave: see
    /// [`FileCursor::fill`].
    pub fn fill(&mut self, read: Result<Vec<u8>, std::io::Error>) -> (r: Result<
        (),
        crate::file::CursorError,
    >)
        requires
            old(self).wf(),
        ensures
            final(self).wf(),
            r is Ok <==> read is Ok && read->Ok_0@.len() == old(self)@.file.window_len(),
            r is Ok ==> final(self)@ == (FileViewState {
                file: old(self)@.file.holding(read->Ok_0@),
                ..old(self)@
            }),
            r is Err ==> r->Err_0 is IOError && final(self)@ == old(self)@,
            read is Err ==> r == Err::<(), crate::file::CursorError>(
                crate::file::CursorError::IOError(read->Err_0),
            ),
    {
        self.file.fill(read)
    }

    /// The screen cell to show the cursor on.
    pub fn cursor_position(&self) -> (r: Position)
        requires
            self.wf(),
        ensures
            r.x == self@.screen_column(),
            r.y == self@.screen_row(),
    {
        proof {
            lemma_cell_columns(self@.geometry, self@.column);
        }
        let x: u16 = match self.panel {
            Panel::Hex => self.geometry.hex_column_of(self.view_cursor.0),
            Panel::Ascii => self.geometry.ascii_column_offset(self.view_cursor.0),
        };
        Position { x, y: TOP_ROWS + self.view_cursor.1 }
    }

    /// What the display of the view needs.
    pub fn snapshot(&self) -> (r: Snapshot<'_>)
        requires
            self.wf(),
        ensures
            r.wf(),
            r@ == self@.snapshot(),
    {
        proof {
            lemma_window_in_file(self@.file);
        }
        Snapshot {
            window_bytes: self.file.buffer(),
            bytes_per_row: self.geometry.bytes_per_row(),
            groups_per_row: self.geometry.groups_per_row(),
            bytes_per_group: self.geometry.bytes_per_group(),
            current_row_offset: self.file.position(),
            active_panel: match self.panel {
                Panel::Hex => ActivePanel::Hex,
                Panel::Ascii => ActivePanel::Ascii,
            },
            cursor_column: self.view_cursor.0,
            cursor_row: self.view_cursor.1,
        }
    }

    /// The display of the view, with `blank` for each byte that has no
    /// character to show: the lines of [`SnapshotView::text`], and the
    /// screen cell of the cursor.
    pub fn draw(&self, blank: &[u8]) -> (r: Frame)
        requires
            self.wf(),
        ensures
            texts(r.lines@) == self@.snapshot().text(blank@),
            r.cursor.x == self@.screen_column(),
            r.cursor.y == self@.screen_row(),
    {
        Frame { lines: self.snapshot().draw(blank), cursor: self.cursor_position() }
    }

    /// The display of the view, with a space on a dark grey ground for
    /// each byte that has no character to show.
    pub fn display(&self) -> (r: Frame)
        requires
            self.wf(),
        ensures
            exists|blank: Seq<u8>| texts(r.lines@) == self@.snapshot().text(blank),
            r.cursor.x == self@.screen_column(),
            r.cursor.y == self@.screen_row(),
    {
        let blank = dim_blank();
        self.draw(blank.as_slice())
    }

    /// Makes the other panel the active one and puts the cursor where
    /// `move_type` says.
    pub fn switch_panel(&mut self, move_type: &PanelMovement)
        requires
            old(self).wf(),
        ensures
            final(self).wf(),
            final(self)@ == old(self)@.switched(*move_type),
    {
        self.panel.switch();
        match move_type {
            PanelMovement::LeftEdge => {
                self.view_cursor.0 = 0;
            },
            PanelMovement::RightEdge => {
                let per_row: u32 = self.geometry.bytes_per_row();
                self.view_cursor.0 = (per_row - 1) as u16;
            },
            PanelMovement::KeepCursor => {},
        }
    }

    /// Moves the cursor one column to the left, unless it is on the first
    /// column.
    pub fn cursor_left(&mut self) -> (r: CursorMovement)
        requires
            old(self).wf(),
        ensures
            final(self).wf(),
            final(self)@ == old(self)@.stepped_left(),
            r == CursorMovement::StuckEdge <==> old(self)@.column == 0,
            r == CursorMovement::Moved <==> old(self)@.column > 0,
    {
        if self.view_cursor.0 == 0 {
            CursorMovement::StuckEdge
        } else {
            self.view_cursor.0 -= 1;
            CursorMovement::Moved
        }
    }

    /// Moves the cursor one column to the right, unless it is on the last
    /// column.
    pub fn cursor_right(&mut self) -> (r: CursorMovement)
        requires
            old(self).wf(),
        ensures
            final(self).wf(),
            final(self)@ == old(self)@.stepped_right(),
            r == CursorMovement::StuckEdge <==> old(self)@.column == old(self)@.right_edge(),
            r == CursorMovement::Moved <==> old(self)@.column < old(self)@.right_edge(),
    {
        let per_row: u32 = self.geometry.bytes_per_row();
        if self.view_cursor.0 as u32 == per_row - 1 {
            CursorMovement::StuckEdge
        } else {
            self.view_cursor.0 += 1;
            CursorMovement::Moved
        }
    }

    /// Moves the cursor one row down, or, where it is on the last row,
    /// the window: see [`FileCursor::scroll`].
    pub fn scroll_down(&mut self)
        requires
            old(self).wf(),
        ensures
            final(self).wf(),
            final(self)@ == old(self)@.stepped_down(),
    {
        if self.view_cursor.1 == self.geometry.rows() - 1 {
            let _ = self.file.scroll(CursorDirection::Down(1));
        } else {
            self.view_cursor.1 += 1;
        }
    }

    /// Moves the cursor one row up, or, where it is on the first row, the
    /// window: see [`FileCursor::scroll`].
    pub fn scroll_up(&mut self)
        requires
            old(self).wf(),
        ensures
            final(self).wf(),
            final(self)@ == old(self)@.stepped_up(),
    {
        if self.view_cursor.1 == 0 {
            let _ = self.file.scroll(CursorDirection::Up(1));
        } else {
            self.view_cursor.1 -= 1;
        }
    }
}

} // verus!
