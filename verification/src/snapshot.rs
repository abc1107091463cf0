//! What a session shows: the bytes of its window, its layout and its
//! cursor, and the lines of text that display them.

use vstd::arithmetic::div_mod::lemma_fundamental_div_mod;
use vstd::prelude::*;
use vstd::slice::slice_subrange;

use crate::editor::ActivePanel;
use crate::file::least;
use crate::file::lemma_window_in_file;
use crate::file::FileCursorView;
use crate::render::header_line;
use crate::render::header_text;
use crate::render::row_line;
use crate::render::row_text;
use crate::stuff::Position;

verus! {

/// The state of a session, as its display needs it.
#[derive(Debug, Clone, Copy)]
pub struct Snapshot<'a> {
    /// The bytes in the window.
    pub window_bytes: &'a [u8],
    /// The number of bytes on a row.
    pub bytes_per_row: u32,
    /// The number of groups on a row.
    pub groups_per_row: u16,
    /// The number of bytes of a group.
    pub bytes_per_group: u16,
    /// The index of the window's first row among the rows of the file.
    pub current_row_offset: u64,
    /// The panel that the cursor is in.
    pub active_panel: ActivePanel,
    /// The column of the byte that the cursor is on, counted in bytes from
    /// the start of its row.
    pub cursor_column: u16,
    /// The row of the byte that the cursor is on, counted from the first
    /// row of the window.
    pub cursor_row: u16,
}

/// The lines of text of a display, from the top of the screen down, and
/// the screen cell to show the cursor on.
#[derive(Debug)]
pub struct Frame {
    pub lines: Vec<Vec<u8>>,
    pub cursor: Position,
}

/// The lines as sequences of bytes.
pub open spec fn texts(lines: Seq<Vec<u8>>) -> Seq<Seq<u8>> {
    Seq::new(lines.len(), |i: int| lines[i]@)
}

/// What a [`Snapshot`] holds, as plain values.
pub struct SnapshotView {
    pub window_bytes: Seq<u8>,
    pub bytes_per_row: nat,
    pub groups_per_row: nat,
    pub bytes_per_group: nat,
    pub current_row_offset: nat,
    pub active_panel: ActivePanel,
    pub cursor_column: nat,
    pub cursor_row: nat,
}

impl SnapshotView {
    /// A row holds the bytes of its groups, and the offset of every byte
    /// of the window can be told in 64 bits.
    pub open spec fn wf(self) -> bool {
        &&& self.bytes_per_group > 0
        &&& self.groups_per_row > 0
        &&& self.bytes_per_row == self.bytes_per_group * self.groups_per_row
        &&& self.current_row_offset * self.bytes_per_row + self.window_bytes.len() <= u64::MAX
    }

    /// The number of rows that hold a byte of the window.
    pub open spec fn rows_shown(self) -> nat {
        ((self.window_bytes.len() + self.bytes_per_row - 1) / (self.bytes_per_row as int)) as nat
    }

    /// The offset in the file of the first byte of row `row` of the window.
    pub open spec fn row_offset(self, row: nat) -> nat {
        (self.current_row_offset + row) * self.bytes_per_row
    }

    /// The index in the window of the byte that follows the last byte of
    /// row `row`.
    pub open spec fn row_end(self, row: nat) -> nat {
        if (row + 1) * self.bytes_per_row <= self.window_bytes.len() {
            (row + 1) * self.bytes_per_row
        } else {
            self.window_bytes.len()
        }
    }

    /// The bytes of row `row` of the window: a full row, or what the
    /// window holds of it.
    pub open spec fn row_bytes(self, row: nat) -> Seq<u8> {
        self.window_bytes.subrange((row * self.bytes_per_row) as int, self.row_end(row) as int)
    }

    /// Whether the snapshot is one of `window`: it has the bytes that are
    /// in the window, rows of the window's bytes, and the index of the
    /// window's first row.
    pub open spec fn shows(self, window: FileCursorView) -> bool {
        &&& self.window_bytes == window.buffer
        &&& self.bytes_per_row == window.line_bytes
        &&& self.current_row_offset == window.origin_row()
    }

    /// The text of row `row` of the window.
    pub open spec fn row_text(self, row: nat, blank: Seq<u8>) -> Seq<u8> {
        row_text(
            self.row_offset(row),
            self.row_bytes(row),
            self.bytes_per_group,
            self.groups_per_row,
            blank,
        )
    }

    /// The lines of the display: the header, an empty line, and the text
    /// of each row that holds a byte of the window.
    pub open spec fn text(self, blank: Seq<u8>) -> Seq<Seq<u8>> {
        seq![header_text(self.bytes_per_group, self.groups_per_row), Seq::<u8>::empty()]
            + Seq::new(self.rows_shown(), |row: int| self.row_text(row as nat, blank))
    }
}

impl<'a> View for Snapshot<'a> {
    type V = SnapshotView;

    open spec fn view(&self) -> SnapshotView {
        SnapshotView {
            window_bytes: self.window_bytes@,
            bytes_per_row: self.bytes_per_row as nat,
            groups_per_row: self.groups_per_row as nat,
            bytes_per_group: self.bytes_per_group as nat,
            current_row_offset: self.current_row_offset as nat,
            active_panel: self.active_panel,
            cursor_column: self.cursor_column as nat,
            cursor_row: self.cursor_row as nat,
        }
    }
}

impl<'a> Snapshot<'a> {
    /// See [`SnapshotView::wf`].
    pub open spec fn wf(&self) -> bool {
        self@.wf()
    }

    /// The offset in the file of the first byte of row `row` of the
    /// window.
    pub fn row_offset(&self, row: u16) -> (r: u64)
        requires
            self.wf(),
            row < self@.rows_shown(),
        ensures
            r == self@.row_offset(row as nat),
    {
        let per_row: u64 = self.bytes_per_row as u64;
        proof {
            lemma_row_holds_bytes(self@);
            lemma_rows(self.window_bytes@.len() as int, per_row as int, row as int);
            let before = self.current_row_offset as int;
            assert(before * per_row + row * per_row == (before + row) * per_row)
                by (nonlinear_arith);
            assert(before + row <= (before + row) * per_row) by (nonlinear_arith)
                requires
                    0 <= before + row,
                    1 <= per_row,
            ;
        }
        (self.current_row_offset + row as u64) * per_row
    }

    /// The lines of the display, with `blank` for each byte that has no
    /// character to show: see [`SnapshotView::text`].
    pub fn draw(&self, blank: &[u8]) -> (r: Vec<Vec<u8>>)
        requires
            self.wf(),
        ensures
            texts(r@) == self@.text(blank@),
    {
        let ghost header = seq![
            header_text(self.bytes_per_group as nat, self.groups_per_row as nat),
            Seq::<u8>::empty(),
        ];
        let mut lines: Vec<Vec<u8>> = Vec::new();
        lines.push(header_line(self.bytes_per_group, self.groups_per_row));
        lines.push(Vec::new());
        assert(texts(lines@) =~= header + Seq::new(0, |row: int| self@.row_text(row as nat, blank@)));
        let len: usize = self.window_bytes.len();
        let per_row: u64 = self.bytes_per_row as u64;
        proof {
            lemma_row_holds_bytes(self@);
        }
        let mut start: usize = 0;
        let mut row: u64 = 0;
        proof {
            lemma_rows(len as int, per_row as int, 0);
        }
        while start < len
            invariant
                self.wf(),
                len == self.window_bytes@.len(),
                per_row == self.bytes_per_row,
                per_row > 0,
                start <= len,
                start == row * per_row || start == len,
                start == len ==> row == self@.rows_shown(),
                start < len ==> row < self@.rows_shown(),
                texts(lines@) == header + Seq::new(
                    row as nat,
                    |row: int| self@.row_text(row as nat, blank@),
                ),
            decreases len - start,
        {
            let ghost shown = texts(lines@);
            proof {
                lemma_rows(len as int, per_row as int, row as int);
                lemma_rows(len as int, per_row as int, row + 1);
                let before = self.current_row_offset as int;
                assert(before * per_row + row * per_row == (before + row) * per_row)
                    by (nonlinear_arith);
                assert(before + row <= (before + row) * per_row) by (nonlinear_arith)
                    requires
                        0 <= before + row,
                        1 <= per_row,
                ;
            }
            let end: usize = if ((len - start) as u64) < per_row {
                len
            } else {
                start + per_row as usize
            };
            let offset: u64 = (self.current_row_offset + row) * per_row;
            let bytes = slice_subrange(self.window_bytes, start, end);
            lines.push(row_line(offset, bytes, self.bytes_per_group, self.groups_per_row, blank));
            assert(texts(lines@) =~= shown.push(self@.row_text(row as nat, blank@)));
            start = end;
            row += 1;
            assert(texts(lines@) =~= header + Seq::new(
                row as nat,
                |row: int| self@.row_text(row as nat, blank@),
            ));
        }
        lines
    }
}

/// Where a window holds the bytes of `file` that it covers, each row of a
/// snapshot of the window starts at the offset that the snapshot gives for
/// it, holds the bytes of `file` from that offset on, and is a full row
/// unless the file ends in it.
pub proof fn law_rows_show_the_file(
    s: SnapshotView,
    window: FileCursorView,
    file: Seq<u8>,
    row: nat,
)
    requires
        window.wf(),
        s.shows(window),
        file.len() == window.file_len,
        window.buffer == window.covered(file),
        row < s.rows_shown(),
    ensures
        s.row_offset(row) == window.origin + row * window.line_bytes,
        s.row_offset(row) < file.len(),
        s.row_bytes(row) == file.subrange(
            s.row_offset(row) as int,
            least(s.row_offset(row) + window.line_bytes, file.len()) as int,
        ),
        s.row_bytes(row).len() == window.line_bytes || s.row_offset(row) + s.row_bytes(row).len()
            == file.len(),
{
    let per_row = window.line_bytes as int;
    let len = window.buffer.len() as int;
    lemma_window_in_file(window);
    lemma_rows(len, per_row, row as int);
    lemma_fundamental_div_mod(window.window_bytes as int, per_row);
    assert((window.origin_row() + row) * per_row == window.origin_row() * per_row + row * per_row)
        by (nonlinear_arith);
    if (row + 1) * per_row > len {
        if len == window.window_bytes {
            let rows = window.window_bytes as int / per_row;
            assert(len == per_row * rows);
            assert(row + 1 <= rows) by (nonlinear_arith)
                requires
                    row * per_row < per_row * rows,
                    per_row > 0,
            ;
            assert((row + 1) * per_row <= per_row * rows) by (nonlinear_arith)
                requires
                    row + 1 <= rows,
                    per_row > 0,
            ;
        }
    }
    assert(s.row_bytes(row) =~= file.subrange(
        s.row_offset(row) as int,
        least(s.row_offset(row) + window.line_bytes, file.len()) as int,
    ));
}

/// crossterm's `Stylize::on_dark_grey` on a space, written out through the
/// `Display` of the `StyledContent` that it gives: the text that shows a
/// space on a dark grey ground. Nothing is claimed of the text, which
/// depends on whether the environment has colours switched off.
#[verifier::external_body]
pub(crate) fn dim_blank() -> (r: Vec<u8>) {
    crossterm::style::Stylize::on_dark_grey(" ").to_string().into_bytes()
}

/// A row of a well-formed snapshot holds a byte at least.
proof fn lemma_row_holds_bytes(v: SnapshotView)
    requires
        v.wf(),
    ensures
        v.bytes_per_row > 0,
{
    assert(v.bytes_per_group * v.groups_per_row > 0) by (nonlinear_arith)
        requires
            v.bytes_per_group > 0,
            v.groups_per_row > 0,
    ;
}

/// Of the rows of `per_row` bytes that hold a byte of a window of `len`
/// bytes, row `row` starts in the window if and only if it is one of them;
/// the row after a full row starts in the window, or is the first row that
/// is none of them; and a row that the window ends in is the last of them.
proof fn lemma_rows(len: int, per_row: int, row: int)
    requires
        0 <= len,
        0 < per_row,
        0 <= row,
    ensures
        row * per_row < len <==> row < (len + per_row - 1) / per_row,
        (row + 1) * per_row == row * per_row + per_row,
        row * per_row < len <= (row + 1) * per_row ==> row + 1 == (len + per_row - 1) / per_row,
        0 <= row * per_row,
{
    let count = (len + per_row - 1) / per_row;
    lemma_fundamental_div_mod(len + per_row - 1, per_row);
    let rest = (len + per_row - 1) % per_row;
    assert(0 <= rest < per_row) by (nonlinear_arith)
        requires
            rest == (len + per_row - 1) % per_row,
            per_row > 0,
    ;
    assert(len + per_row - 1 == per_row * count + rest);
    assert((row + 1) * per_row == row * per_row + per_row) by (nonlinear_arith);
    assert(0 <= row * per_row) by (nonlinear_arith)
        requires
            0 <= row,
            0 < per_row,
    ;
    if row < count {
        assert(row * per_row <= (count - 1) * per_row) by (nonlinear_arith)
            requires
                row <= count - 1,
                per_row > 0,
        ;
        assert((count - 1) * per_row == per_row * count - per_row) by (nonlinear_arith);
    } else {
        assert(row * per_row >= count * per_row) by (nonlinear_arith)
            requires
                row >= count,
                per_row > 0,
        ;
        assert(count * per_row == per_row * count) by (nonlinear_arith);
    }
    if row * per_row < len <= (row + 1) * per_row {
        if row + 1 < count {
            assert((row + 1) * per_row <= (count - 1) * per_row) by (nonlinear_arith)
                requires
                    row + 1 <= count - 1,
                    per_row > 0,
            ;
            assert((count - 1) * per_row == per_row * count - per_row) by (nonlinear_arith);
        }
    }
}

} // verus!
