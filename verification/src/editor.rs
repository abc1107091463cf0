//! The editing session: its configuration, its errors, and the actions it
//! takes.

use vstd::prelude::*;
use vstd::std_specs::convert::FromSpecImpl;

use crate::file::law_down_stays_in_file;
use crate::file::law_up_approaches_start;
use crate::file::lemma_window_in_file;
use crate::file::CursorDirection;
use crate::file::CursorError;
use crate::file::FileCursor;
use crate::file::FileCursorView;
use crate::geometry::law_window_is_whole_rows;
use crate::geometry::lemma_cell_columns;
use crate::geometry::Geometry;
use crate::geometry::GeometryView;
use crate::geometry::HEADER_WIDTH;
use crate::geometry::TOP_ROWS;
use crate::panel::CursorMove;
use crate::panel::CursorMovement;
use crate::panel::Panel;
use crate::panel::PanelView;
use crate::snapshot::dim_blank;
use crate::snapshot::texts;
use crate::snapshot::Frame;
use crate::snapshot::Snapshot;
use crate::snapshot::SnapshotView;
use crate::stuff::Position;
use crate::stuff::Size;

verus! {

/// The layout that the user asks for.
#[derive(Debug, Clone, Copy, PartialEq, Eq, Structural)]
pub struct Options {
    /// The number of bytes shown as one cluster of hex pairs.
    pub bytes_per_group: u16,
    /// The number of clusters on a row.
    pub groups_per_row: u16,
}

impl Default for Options {
    /// Options that no session accepts: both numbers are zero until the
    /// user sets them.
    fn default() -> (r: Options)
        ensures
            r == (Options { bytes_per_group: 0, groups_per_row: 0 }),
    {
        Options { bytes_per_group: 0, groups_per_row: 0 }
    }
}

/// Why a session could not start or go on.
#[derive(Debug)]
pub enum EditorError {
    /// A number of the layout is zero.
    InvalidConfiguration,
    /// A scroll asked for a distance in bytes of more than `i64::MAX`.
    InvalidMovement(core::num::TryFromIntError),
    /// Reading the file failed, or did not give the bytes asked for.
    IOError(std::io::Error),
}

impl From<CursorError> for EditorError {
    fn from(value: CursorError) -> (r: EditorError) {
        match value {
            CursorError::InvalidMovement(e) => EditorError::InvalidMovement(e),
            CursorError::IOError(e) => EditorError::IOError(e),
        }
    }
}

impl FromSpecImpl<CursorError> for EditorError {
    open spec fn obeys_from_spec() -> bool {
        true
    }

    open spec fn from_spec(value: CursorError) -> EditorError {
        match value {
            CursorError::InvalidMovement(e) => EditorError::InvalidMovement(e),
            CursorError::IOError(e) => EditorError::IOError(e),
        }
    }
}

impl From<std::io::Error> for EditorError {
    fn from(value: std::io::Error) -> (r: EditorError) {
        EditorError::IOError(value)
    }
}

impl FromSpecImpl<std::io::Error> for EditorError {
    open spec fn obeys_from_spec() -> bool {
        true
    }

    open spec fn from_spec(value: std::io::Error) -> EditorError {
        EditorError::IOError(value)
    }
}

/// Where the cursor goes when the other panel becomes the active one.
#[derive(Debug, Clone, Copy, PartialEq, Eq, Structural)]
pub enum PanelMovement {
    /// To the first column of the other panel.
    LeftEdge,
    /// To the last column of the other panel.
    RightEdge,
    /// To the column it is on now.
    KeepCursor,
}

/// What the user asks the session to do.
#[derive(Debug, PartialEq, Eq)]
pub enum Action {
    /// A step of the cursor to the left.
    Left,
    /// A step of the cursor down.
    Down,
    /// A step of the cursor up.
    Up,
    /// A step of the cursor to the right.
    Right,
    /// The cursor goes to the same byte in the other panel.
    SwitchPanel,
    /// The terminal's window got the focus.
    OnFocus,
    /// The terminal's window lost the focus.
    OnBlur,
    /// The mouse did something on this screen cell.
    Mouse(Position),
    /// This text was pasted.
    Paste(String),
    /// The terminal's window has this size now.
    Resize(Size),
    /// A key that asks for nothing.
    UnboundKey,
    /// The session ends.
    Quit,
}

/// The panel that the cursor is in.
#[derive(Debug, Clone, Copy, PartialEq, Eq, Structural)]
pub enum ActivePanel {
    /// The columns of hex pairs.
    Hex,
    /// The column of characters.
    Ascii,
}

impl ActivePanel {
    /// The panel that this one is not.
    pub open spec fn other(self) -> ActivePanel {
        match self {
            ActivePanel::Hex => ActivePanel::Ascii,
            ActivePanel::Ascii => ActivePanel::Hex,
        }
    }
}

/// What is to be done after an action, by whoever reads the file and draws
/// the screen.
#[derive(Debug, Clone, Copy, PartialEq, Eq, Structural)]
pub enum Step {
    /// Draw the session as it is.
    Redraw,
    /// Read `len` bytes of the file from `offset` on and hand them to
    /// [`Editor::fill`], then draw the session.
    Read { offset: u64, len: usize },
    /// End the session.
    Quit,
}

/// The rows of a session's window.
pub const EDITOR_ROWS: u16 = 10;

/// A session: the layout, the window over the file once one is open, the
/// two panels, each of a row's bytes by the layout's rows, the panel that
/// the cursor is in, and the screen cell that the cursor shows on.
#[derive(Debug)]
pub struct Editor {
    file: Option<FileCursor>,
    hex_panel: Panel,
    ascii_panel: Panel,
    active: ActivePanel,
    geometry: Geometry,
    cursor: Position,
}

/// What an [`Editor`] holds, as plain values.
pub struct EditorView {
    pub file: Option<FileCursorView>,
    pub hex_panel: PanelView,
    pub ascii_panel: PanelView,
    pub active: ActivePanel,
    pub geometry: GeometryView,
    pub cursor: Position,
}

impl EditorView {
    /// The layout fits the screen; each panel starts at the screen cell of
    /// the first byte that it shows and has a cell for each byte of the
    /// layout's rows; and the window, if there is one, is one of this
    /// layout.
    pub open spec fn laid_out(self) -> bool {
        &&& self.geometry.wf()
        &&& self.geometry.fits_screen()
        &&& self.hex_panel.wf()
        &&& self.ascii_panel.wf()
        &&& self.hex_panel.position == (Position { x: HEADER_WIDTH, y: TOP_ROWS })
        &&& self.ascii_panel.position.x == self.geometry.ascii_column(0)
        &&& self.ascii_panel.position.y == TOP_ROWS
        &&& self.hex_panel.size == self.ascii_panel.size
        &&& self.hex_panel.size.width == self.geometry.bytes_per_row()
        &&& self.hex_panel.size.height == self.geometry.rows
        &&& (self.file matches Some(window) ==> self.geometry.frames(window))
    }

    /// The session is laid out, and its screen cursor shows on the cell of
    /// the byte that the cursor of the active panel is on.
    pub open spec fn wf(self) -> bool {
        &&& self.laid_out()
        &&& self.cursor.x == self.screen_column()
        &&& self.cursor.y == self.screen_row()
    }

    /// The panel that the cursor is in.
    pub open spec fn active_panel(self) -> PanelView {
        match self.active {
            ActivePanel::Hex => self.hex_panel,
            ActivePanel::Ascii => self.ascii_panel,
        }
    }

    /// The column of the byte that the cursor is on, counted in bytes from
    /// the start of the row.
    pub open spec fn column(self) -> nat {
        self.active_panel().cursor.x as nat
    }

    /// The row of the byte that the cursor is on, counted from the first
    /// row of the window.
    pub open spec fn row(self) -> nat {
        self.active_panel().cursor.y as nat
    }

    /// The last column of either panel.
    pub open spec fn right_edge(self) -> nat {
        (self.geometry.bytes_per_row() - 1) as nat
    }

    /// The last row of either panel.
    pub open spec fn bottom_edge(self) -> nat {
        (self.geometry.rows - 1) as nat
    }

    /// The screen column of byte `column` of a row in panel `panel`.
    pub open spec fn column_on_screen(self, panel: ActivePanel, column: nat) -> nat {
        match panel {
            ActivePanel::Hex => self.geometry.hex_column_of(column),
            ActivePanel::Ascii => self.geometry.ascii_column(column),
        }
    }

    /// The screen column of the byte that the cursor is on.
    pub open spec fn screen_column(self) -> nat {
        self.column_on_screen(self.active, self.column())
    }

    /// The screen row of the byte that the cursor is on.
    pub open spec fn screen_row(self) -> nat {
        TOP_ROWS as nat + self.row()
    }

    /// The session with the cursor in panel `panel`, on the byte at
    /// `column` and `row`. The cursor of the other panel stays as it is.
    pub open spec fn placed(self, panel: ActivePanel, column: nat, row: nat) -> EditorView {
        EditorView {
            active: panel,
            hex_panel: if panel is Hex {
                self.hex_panel.with_cursor(column as int, row as int)
            } else {
                self.hex_panel
            },
            ascii_panel: if panel is Ascii {
                self.ascii_panel.with_cursor(column as int, row as int)
            } else {
                self.ascii_panel
            },
            cursor: Position {
                x: self.column_on_screen(panel, column) as u16,
                y: (TOP_ROWS + row) as u16,
            },
            ..self
        }
    }

    /// The session with the cursor in the other panel, on the same row and
    /// on the column that `move_type` says.
    pub open spec fn switched(self, move_type: PanelMovement) -> EditorView {
        self.placed(
            self.active.other(),
            match move_type {
                PanelMovement::LeftEdge => 0,
                PanelMovement::RightEdge => self.right_edge(),
                PanelMovement::KeepCursor => self.column(),
            },
            self.row(),
        )
    }

    /// The session with its window scrolled, if it has one.
    pub open spec fn scrolled(self, direction: CursorDirection) -> EditorView {
        EditorView {
            file: match self.file {
                Some(window) => Some(window.scrolled(direction)),
                None => None,
            },
            ..self
        }
    }

    /// The session after `action`.
    ///
    /// A step to the left or to the right moves the cursor along its row;
    /// from the first column a step to the left leads to the last column of
    /// the other panel, and from the last column a step to the right leads
    /// to the first column of the other panel. A step up or down moves the
    /// cursor along its column; from the first row a step up scrolls the
    /// window one row up, and from the last row a step down scrolls it one
    /// row down, and the cursor stays on its row of the screen. A switch
    /// leads to the same byte in the other panel. Every other action leaves
    /// the session as it is.
    pub open spec fn after(self, action: Action) -> EditorView {
        match action {
            Action::Left => if self.column() > 0 {
                self.placed(self.active, (self.column() - 1) as nat, self.row())
            } else {
                self.switched(PanelMovement::RightEdge)
            },
            Action::Right => if self.column() < self.right_edge() {
                self.placed(self.active, self.column() + 1, self.row())
            } else {
                self.switched(PanelMovement::LeftEdge)
            },
            Action::Up => if self.row() > 0 {
                self.placed(self.active, self.column(), (self.row() - 1) as nat)
            } else {
                self.scrolled(CursorDirection::Up(1))
            },
            Action::Down => if self.row() < self.bottom_edge() {
                self.placed(self.active, self.column(), self.row() + 1)
            } else {
                self.scrolled(CursorDirection::Down(1))
            },
            Action::SwitchPanel => self.switched(PanelMovement::KeepCursor),
            _ => self,
        }
    }

    /// The bytes to read before the session can be drawn: those that the
    /// window covers, where there is a window that waits to be filled.
    pub open spec fn pending_read(self) -> Option<(u64, usize)> {
        match self.file {
            Some(window) => if window.filled() {
                None
            } else {
                Some((window.origin as u64, window.window_len() as usize))
            },
            None => None,
        }
    }

    /// What the display of the session needs, once a file is open.
    pub open spec fn snapshot(self) -> SnapshotView
        recommends
            self.file is Some,
    {
        SnapshotView {
            window_bytes: self.file->Some_0.buffer,
            bytes_per_row: self.geometry.bytes_per_row(),
            groups_per_row: self.geometry.groups_per_row,
            bytes_per_group: self.geometry.bytes_per_group,
            current_row_offset: self.file->Some_0.origin_row(),
            active_panel: self.active,
            cursor_column: self.column(),
            cursor_row: self.row(),
        }
    }

    /// What is to be done once `action` has led to this session.
    pub open spec fn step(self, action: Action) -> Step {
        if action is Quit {
            Step::Quit
        } else {
            match self.pending_read() {
                Some((offset, len)) => Step::Read { offset, len },
                None => Step::Redraw,
            }
        }
    }
}

/// Every action leaves a well-formed session well-formed: the cursor of
/// either panel stays on a byte of a row of the layout, and the window
/// stays a window of the layout.
pub proof fn law_session_stays_well_formed(v: EditorView, action: Action)
    requires
        v.wf(),
    ensures
        v.after(action).wf(),
        v.after(action).column() <= v.right_edge(),
        v.after(action).row() <= v.bottom_edge(),
        v.after(action).geometry == v.geometry,
{
    law_window_is_whole_rows(v.geometry);
    match v.file {
        Some(window) => {
            law_up_approaches_start(window, 1);
            law_down_stays_in_file(window, 1);
        },
        None => {},
    }
    let next = v.after(action);
    lemma_cell_columns(v.geometry, next.column());
}

/// A switch that keeps the cursor leads from the last column of either
/// panel to the last column of the other, and from the first column to the
/// first column, on the same row.
pub proof fn law_switch_keeps_the_edge(v: EditorView)
    requires
        v.wf(),
    ensures
        v.after(Action::SwitchPanel) == v.switched(PanelMovement::KeepCursor),
        v.after(Action::SwitchPanel).active == v.active.other(),
        v.after(Action::SwitchPanel).row() == v.row(),
        v.after(Action::SwitchPanel).column() == v.column(),
        v.column() == v.right_edge() ==> v.after(Action::SwitchPanel).column() == v.after(
            Action::SwitchPanel,
        ).right_edge(),
        v.column() == 0 ==> v.after(Action::SwitchPanel).column() == 0,
{
}

/// A step to the left from the first column leads to the last column of
/// the other panel, and a step to the right from the last column leads to
/// the first column of the other panel, on the same row.
pub proof fn law_steps_cross_the_panels(v: EditorView)
    requires
        v.wf(),
    ensures
        v.column() == 0 ==> {
            &&& v.after(Action::Left).active == v.active.other()
            &&& v.after(Action::Left).column() == v.right_edge()
            &&& v.after(Action::Left).row() == v.row()
        },
        v.column() == v.right_edge() ==> {
            &&& v.after(Action::Right).active == v.active.other()
            &&& v.after(Action::Right).column() == 0
            &&& v.after(Action::Right).row() == v.row()
        },
{
    law_window_is_whole_rows(v.geometry);
}

/// A step up from the first row and a step down from the last row leave
/// the cursor where it is and scroll the window by one row.
pub proof fn law_steps_scroll_at_the_edges(v: EditorView)
    requires
        v.wf(),
    ensures
        v.row() == 0 ==> v.after(Action::Up) == v.scrolled(CursorDirection::Up(1)),
        v.row() == v.bottom_edge() ==> v.after(Action::Down) == v.scrolled(
            CursorDirection::Down(1),
        ),
        v.scrolled(CursorDirection::Up(1)).active_panel() == v.active_panel(),
        v.scrolled(CursorDirection::Down(1)).active_panel() == v.active_panel(),
{
}

impl View for Editor {
    type V = EditorView;

    closed spec fn view(&self) -> EditorView {
        EditorView {
            file: match self.file {
                Some(window) => Some(window@),
                None => None,
            },
            hex_panel: self.hex_panel@,
            ascii_panel: self.ascii_panel@,
            active: self.active,
            geometry: self.geometry@,
            cursor: self.cursor,
        }
    }
}

impl Editor {
    /// See [`EditorView::wf`].
    pub open spec fn wf(&self) -> bool {
        self@.wf()
    }

    /// A session with the layout that `options` ask for and
    /// [`EDITOR_ROWS`] rows, unless one of the numbers is zero. No file is
    /// open, and the cursor is on the first byte, in the panel of
    /// characters.
    pub fn new(options: Options) -> (r: Result<Editor, EditorError>)
        requires
            (GeometryView {
                bytes_per_group: options.bytes_per_group as nat,
                groups_per_row: options.groups_per_row as nat,
                rows: EDITOR_ROWS as nat,
            }).fits_screen(),
        ensures
            r is Ok <==> options.bytes_per_group != 0 && options.groups_per_row != 0,
            r is Err ==> r->Err_0 is InvalidConfiguration,
            r is Ok ==> {
                &&& r->Ok_0.wf()
                &&& r->Ok_0@.geometry == (GeometryView {
                    bytes_per_group: options.bytes_per_group as nat,
                    groups_per_row: options.groups_per_row as nat,
                    rows: EDITOR_ROWS as nat,
                })
                &&& r->Ok_0@.file is None
                &&& r->Ok_0@.active == ActivePanel::Ascii
                &&& r->Ok_0@.hex_panel.cursor == (Position { x: 0, y: 0 })
                &&& r->Ok_0@.ascii_panel.cursor == (Position { x: 0, y: 0 })
            },
    {
        let geometry = match Geometry::new(
            options.bytes_per_group,
            options.groups_per_row,
            EDITOR_ROWS,
        ) {
            Ok(geometry) => geometry,
            Err(e) => {
                return Err(e);
            },
        };
        proof {
            law_window_is_whole_rows(geometry@);
            lemma_cell_columns(geometry@, 0);
        }
        let size = Size { width: geometry.bytes_per_row() as u16, height: geometry.rows() };
        let hex_panel = Panel::new(Position { x: HEADER_WIDTH, y: TOP_ROWS }, size);
        let ascii_position = Position { x: geometry.ascii_column_offset(0), y: TOP_ROWS };
        let ascii_panel = Panel::new(ascii_position, size);
        Ok(
            Editor {
                file: None,
                hex_panel,
                ascii_panel,
                active: ActivePanel::Ascii,
                geometry,
                cursor: ascii_position,
            },
        )
    }

    /// The layout of the session.
    pub fn geometry(&self) -> (r: &Geometry)
        ensures
            r@ == self@.geometry,
    {
        &self.geometry
    }

    /// The panel that the cursor is in.
    pub fn active(&self) -> (r: ActivePanel)
        ensures
            r == self@.active,
    {
        self.active
    }

    /// The panel that the cursor is in, with its cursor.
    pub fn active_panel(&self) -> (r: &Panel)
        ensures
            r@ == self@.active_panel(),
    {
        match self.active {
            ActivePanel::Hex => &self.hex_panel,
            ActivePanel::Ascii => &self.ascii_panel,
        }
    }

    /// The screen cell that the cursor shows on.
    pub fn cursor(&self) -> (r: Position)
        ensures
            r == self@.cursor,
    {
        self.cursor
    }

    /// The window over the file, once a file is open.
    pub fn file(&self) -> (r: Option<&FileCursor>)
        ensures
            r is Some <==> self@.file is Some,
            r is Some ==> r->Some_0@ == self@.file->Some_0,
    {
        self.file.as_ref()
    }

    /// The bytes to read before the session can be drawn, as the offset in
    /// the file and the number of bytes: those that the window covers,
    /// where there is a window that waits to be filled.
    pub fn pending_read(&self) -> (r: Option<(u64, usize)>)
        requires
            self.wf(),
        ensures
            r == self@.pending_read(),
    {
        match &self.file {
            Some(window) => {
                if window.is_filled() {
                    None
                } else {
                    Some((window.origin(), window.window_len()))
                }
            },
            None => None,
        }
    }

    /// Takes what a read of the bytes that the window covers gave: see
    /// [`FileCursor::fill`].
    pub fn fill(&mut self, read: Result<Vec<u8>, std::io::Error>) -> (r: Result<(), EditorError>)
        requires
            old(self).wf(),
            old(self)@.file is Some,
        ensures
            final(self).wf(),
            r is Ok <==> read is Ok && read->Ok_0@.len() == old(self)@.file->Some_0.window_len(),
            r is Ok ==> final(self)@ == (EditorView {
                file: Some(old(self)@.file->Some_0.holding(read->Ok_0@)),
                ..old(self)@
            }),
            r is Err ==> r->Err_0 is IOError && final(self)@ == old(self)@,
            read is Err ==> r == Err::<(), EditorError>(EditorError::IOError(read->Err_0)),
    {
        match &mut self.file {
            Some(window) => match window.fill(read) {
                Ok(()) => Ok(()),
                Err(e) => Err(EditorError::from(e)),
            },
            None => Ok(()),
        }
    }

    /// Scrolls the window: see [`FileCursor::scroll`].
    pub fn scroll(&mut self, direction: CursorDirection) -> (r: Result<(), EditorError>)
        requires
            old(self).wf(),
            old(self)@.file is Some,
        ensures
            final(self).wf(),
            final(self)@ == old(self)@.scrolled(direction),
            r is Ok <==> old(self)@.file->Some_0.in_range(direction),
            r is Err ==> r->Err_0 is InvalidMovement,
    {
        match &mut self.file {
            Some(window) => match window.scroll(direction) {
                Ok(()) => Ok(()),
                Err(e) => Err(EditorError::from(e)),
            },
            None => Ok(()),
        }
    }

    /// What the display of the session needs.
    pub fn snapshot(&self) -> (r: Snapshot<'_>)
        requires
            self.wf(),
            self@.file is Some,
        ensures
            r.wf(),
            r@ == self@.snapshot(),
    {
        let window: &FileCursor = self.file.as_ref().unwrap();
        let at: Position = *self.active_panel().cursor();
        proof {
            lemma_window_in_file(window@);
        }
        Snapshot {
            window_bytes: window.buffer(),
            bytes_per_row: self.geometry.bytes_per_row(),
            groups_per_row: self.geometry.groups_per_row(),
            bytes_per_group: self.geometry.bytes_per_group(),
            current_row_offset: window.position(),
            active_panel: self.active,
            cursor_column: at.x,
            cursor_row: at.y,
        }
    }

    /// The display of the session, with `blank` for each byte that has no
    /// character to show: the lines of [`SnapshotView::text`], and the
    /// screen cell of the cursor.
    pub fn draw(&self, blank: &[u8]) -> (r: Frame)
        requires
            self.wf(),
            self@.file is Some,
        ensures
            texts(r.lines@) == self@.snapshot().text(blank@),
            r.cursor == self@.cursor,
    {
        Frame { lines: self.snapshot().draw(blank), cursor: self.cursor }
    }

    /// The display of the session, with a space on a dark grey ground for
    /// each byte that has no character to show.
    pub fn display(&self) -> (r: Frame)
        requires
            self.wf(),
            self@.file is Some,
        ensures
            exists|blank: Seq<u8>| texts(r.lines@) == self@.snapshot().text(blank),
            r.cursor == self@.cursor,
    {
        let blank = dim_blank();
        self.draw(blank.as_slice())
    }

    /// Puts the cursor in the other panel, on the row it is on and on the
    /// column that `move_type` says.
    pub fn switch_panel(&mut self, move_type: &PanelMovement)
        requires
            old(self).wf(),
        ensures
            final(self).wf(),
            final(self)@ == old(self)@.switched(*move_type),
    {
        let from: Position = *self.active_panel().cursor();
        let column: u16 = match move_type {
            PanelMovement::LeftEdge => 0,
            PanelMovement::RightEdge => self.hex_panel.size().width - 1,
            PanelMovement::KeepCursor => from.x,
        };
        match self.active {
            ActivePanel::Hex => {
                self.ascii_panel.set_column(column);
                self.ascii_panel.set_row(from.y);
                self.active = ActivePanel::Ascii;
            },
            ActivePanel::Ascii => {
                self.hex_panel.set_column(column);
                self.hex_panel.set_row(from.y);
                self.active = ActivePanel::Hex;
            },
        }
        self.show_cursor();
    }

    /// Takes one action of the user and says what is to be done next: see
    /// [`EditorView::after`] and [`EditorView::step`].
    pub fn handle(&mut self, action: Action) -> (r: Step)
        requires
            old(self).wf(),
        ensures
            final(self).wf(),
            final(self)@ == old(self)@.after(action),
            r == final(self)@.step(action),
    {
        match action {
            Action::Left => {
                match self.move_active(CursorMovement::Left) {
                    CursorMove::Moved => self.show_cursor(),
                    CursorMove::Blocked => self.switch_panel(&PanelMovement::RightEdge),
                }
            },
            Action::Right => {
                match self.move_active(CursorMovement::Right) {
                    CursorMove::Moved => self.show_cursor(),
                    CursorMove::Blocked => self.switch_panel(&PanelMovement::LeftEdge),
                }
            },
            Action::Up => {
                match self.move_active(CursorMovement::Up) {
                    CursorMove::Moved => self.show_cursor(),
                    CursorMove::Blocked => self.scroll_window(CursorDirection::Up(1)),
                }
            },
            Action::Down => {
                match self.move_active(CursorMovement::Down) {
                    CursorMove::Moved => self.show_cursor(),
                    CursorMove::Blocked => self.scroll_window(CursorDirection::Down(1)),
                }
            },
            Action::SwitchPanel => self.switch_panel(&PanelMovement::KeepCursor),
            Action::Quit => {
                return Step::Quit;
            },
            _ => {},
        }
        match self.pending_read() {
            Some((offset, len)) => Step::Read { offset, len },
            None => Step::Redraw,
        }
    }

    /// Moves the cursor of the active panel, and leaves the screen cursor
    /// where it is.
    fn move_active(&mut self, dir: CursorMovement) -> (r: CursorMove)
        requires
            old(self).wf(),
        ensures
            final(self)@.laid_out(),
            final(self)@ == (EditorView {
                hex_panel: if old(self)@.active is Hex {
                    old(self)@.hex_panel.after(dir)
                } else {
                    old(self)@.hex_panel
                },
                ascii_panel: if old(self)@.active is Ascii {
                    old(self)@.ascii_panel.after(dir)
                } else {
                    old(self)@.ascii_panel
                },
                ..old(self)@
            }),
            r == CursorMove::Moved <==> old(self)@.active_panel().allows(dir),
            r == CursorMove::Blocked <==> !old(self)@.active_panel().allows(dir),
    {
        match self.active {
            ActivePanel::Hex => self.hex_panel.move_cursor(dir),
            ActivePanel::Ascii => self.ascii_panel.move_cursor(dir),
        }
    }

    /// Scrolls the window, if there is one.
    fn scroll_window(&mut self, direction: CursorDirection)
        requires
            old(self).wf(),
        ensures
            final(self).wf(),
            final(self)@ == old(self)@.scrolled(direction),
    {
        match &mut self.file {
            Some(window) => {
                let _ = window.scroll(direction);
            },
            None => {},
        }
    }

    /// Puts the screen cursor on the cell of the byte that the cursor of
    /// the active panel is on.
    fn show_cursor(&mut self)
        requires
            old(self)@.laid_out(),
        ensures
            final(self).wf(),
            final(self)@ == (EditorView {
                cursor: Position {
                    x: old(self)@.screen_column() as u16,
                    y: old(self)@.screen_row() as u16,
                },
                ..old(self)@
            }),
    {
        let at: Position = *self.active_panel().cursor();
        proof {
            lemma_cell_columns(self@.geometry, at.x as nat);
        }
        let x: u16 = match self.active {
            ActivePanel::Hex => self.geometry.hex_column_of(at.x),
            ActivePanel::Ascii => self.geometry.ascii_column_offset(at.x),
        };
        self.cursor = Position { x, y: TOP_ROWS + at.y };
    }

    /// Opens a file of `file_len` bytes: the session gets a window of its
    /// layout at the start of the file, which waits to be filled.
    pub fn open_file(&mut self, file_len: u64)
        requires
            old(self).wf(),
        ensures
            final(self).wf(),
            final(self)@ == (EditorView {
                file: Some(
                    FileCursorView {
                        window_bytes: old(self)@.geometry.window_bytes(),
                        line_bytes: old(self)@.geometry.bytes_per_row(),
                        file_len: file_len as nat,
                        origin: 0,
                        buffer: Seq::empty(),
                    },
                ),
                ..old(self)@
            }),
    {
        self.file = Some(self.geometry.window_over(file_len));
    }
}

} // verus!
