//! The layout of the screen: how many bytes a row and a window hold, and
//! the screen column of each byte in either panel.
//!
//! A row of the display reads
//!
//! ```text
//! 00000010:  41 42 43 44  45 46 47 48 |ABCDEFGH|
//! ```
//!
//! an offset of eight hex digits with a colon and a space, then the groups,
//! each byte as a space and two hex digits and each group closed by a
//! space, then the characters between two bars.

use vstd::arithmetic::div_mod::lemma_div_pos_is_pos;
use vstd::arithmetic::div_mod::lemma_mod_bound;
use vstd::arithmetic::div_mod::lemma_mod_multiples_basic;
use vstd::arithmetic::div_mod::lemma_multiply_divide_lt;
use vstd::arithmetic::mul::lemma_mul_is_commutative;
use vstd::prelude::*;

use crate::editor::EditorError;
use crate::file::FileCursor;
use crate::file::FileCursorView;

verus! {

/// The screen columns that the offset in front of a row takes.
pub const OFFSET_WIDTH: u16 = 10;

/// The screen column of the first hex digit of a row.
pub const HEADER_WIDTH: u16 = 11;

/// The screen columns that a byte takes in the hex panel.
pub const PAIR_WIDTH: u16 = 3;

/// The screen columns between the hex panel and the first character.
pub const SEPARATOR_WIDTH: u16 = 1;

/// The screen rows above the first row of bytes.
pub const TOP_ROWS: u16 = 2;

/// The number of rows, the bytes of a group and the groups of a row.
#[derive(Debug, Clone, Copy, PartialEq, Eq, Structural)]
pub struct Geometry {
    bytes_per_group: u16,
    groups_per_row: u16,
    rows: u16,
}

/// What a [`Geometry`] holds, as plain numbers.
pub struct GeometryView {
    pub bytes_per_group: nat,
    pub groups_per_row: nat,
    pub rows: nat,
}

impl GeometryView {
    /// None of the three numbers is zero, and each fits in 16 bits.
    pub open spec fn wf(self) -> bool {
        &&& 0 < self.bytes_per_group <= u16::MAX
        &&& 0 < self.groups_per_row <= u16::MAX
        &&& 0 < self.rows <= u16::MAX
    }

    /// The number of bytes on a row.
    pub open spec fn bytes_per_row(self) -> nat {
        self.bytes_per_group * self.groups_per_row
    }

    /// The number of bytes in a window of full rows.
    pub open spec fn window_bytes(self) -> nat {
        self.bytes_per_row() * self.rows
    }

    /// The screen columns that a group takes: its hex pairs and the space
    /// that closes it.
    pub open spec fn group_width(self) -> nat {
        self.bytes_per_group * PAIR_WIDTH as nat + 1
    }

    /// The screen column of the first hex digit of byte `byte_in_group` of
    /// group `group`.
    pub open spec fn hex_column(self, group: nat, byte_in_group: nat) -> nat {
        HEADER_WIDTH as nat + group * self.group_width() + byte_in_group * PAIR_WIDTH as nat
    }

    /// The screen column of the first hex digit of byte `byte_index` of a
    /// row.
    pub open spec fn hex_column_of(self, byte_index: nat) -> nat {
        self.hex_column(byte_index / self.bytes_per_group, byte_index % self.bytes_per_group)
    }

    /// The screen columns in front of the bar that opens the characters.
    pub open spec fn hex_block_width(self) -> nat {
        OFFSET_WIDTH as nat + self.groups_per_row * self.group_width()
    }

    /// The screen column of the character of byte `byte_index` of a row.
    pub open spec fn ascii_column(self, byte_index: nat) -> nat {
        self.hex_block_width() + SEPARATOR_WIDTH as nat + byte_index
    }

    /// The screen columns that a row takes, with the bar that closes it.
    pub open spec fn screen_width(self) -> nat {
        self.ascii_column(self.bytes_per_row()) + SEPARATOR_WIDTH as nat
    }

    /// The screen rows that the display takes.
    pub open spec fn screen_height(self) -> nat {
        TOP_ROWS as nat + self.rows
    }

    /// Whether every column and row of the display can be told in 16 bits.
    pub open spec fn fits_screen(self) -> bool {
        self.screen_width() <= u16::MAX && self.screen_height() <= u16::MAX
    }

    /// Whether `window` is a well-formed window of this layout: its rows
    /// have the layout's bytes, and it has room for the layout's rows.
    pub open spec fn frames(self, window: FileCursorView) -> bool {
        &&& window.wf()
        &&& window.line_bytes == self.bytes_per_row()
        &&& window.window_bytes == self.window_bytes()
    }
}

impl View for Geometry {
    type V = GeometryView;

    closed spec fn view(&self) -> GeometryView {
        GeometryView {
            bytes_per_group: self.bytes_per_group as nat,
            groups_per_row: self.groups_per_row as nat,
            rows: self.rows as nat,
        }
    }
}

/// A product is no more than the product of bounds on its factors.
proof fn lemma_product_bound(a: nat, b: nat, a_max: nat, b_max: nat)
    requires
        a <= a_max,
        b <= b_max,
    ensures
        a * b <= a_max * b_max,
{
    assert(a * b <= a_max * b_max) by (nonlinear_arith)
        requires
            a <= a_max,
            b <= b_max,
    ;
}

/// The product of two positive numbers is positive.
proof fn lemma_product_positive(a: nat, b: nat)
    requires
        a > 0,
        b > 0,
    ensures
        a * b > 0,
{
    assert(a * b > 0) by (nonlinear_arith)
        requires
            a > 0,
            b > 0,
    ;
}

/// Both hex digits of a byte of a row stand in front of the bar that opens
/// the characters, and its character stands in front of the bar that closes
/// them.
pub proof fn lemma_cell_columns(g: GeometryView, byte_index: nat)
    requires
        g.wf(),
        byte_index < g.bytes_per_row(),
    ensures
        HEADER_WIDTH <= g.hex_column_of(byte_index),
        g.hex_column_of(byte_index) + PAIR_WIDTH <= g.hex_block_width(),
        g.hex_block_width() < g.ascii_column(byte_index),
        g.ascii_column(byte_index) + SEPARATOR_WIDTH < g.screen_width(),
{
    let per_group = g.bytes_per_group as int;
    let group = byte_index as int / per_group;
    let byte = byte_index as int % per_group;
    let width = g.group_width() as int;
    let groups = g.groups_per_row as int;
    lemma_multiply_divide_lt(byte_index as int, per_group, groups);
    lemma_div_pos_is_pos(byte_index as int, per_group);
    lemma_mod_bound(byte_index as int, per_group);
    assert(0 <= group * width <= groups * width - width) by (nonlinear_arith)
        requires
            0 <= group <= groups - 1,
            width >= 0,
    ;
}

impl Geometry {
    /// See [`GeometryView::wf`].
    pub open spec fn wf(&self) -> bool {
        self@.wf()
    }

    /// The layout with these three numbers, unless one of them is zero.
    pub fn new(bytes_per_group: u16, groups_per_row: u16, rows: u16) -> (r: Result<
        Geometry,
        EditorError,
    >)
        ensures
            r is Ok <==> bytes_per_group != 0 && groups_per_row != 0 && rows != 0,
            r is Ok ==> r->Ok_0.wf() && r->Ok_0@ == (GeometryView {
                bytes_per_group: bytes_per_group as nat,
                groups_per_row: groups_per_row as nat,
                rows: rows as nat,
            }),
            r is Err ==> r->Err_0 is InvalidConfiguration,
    {
        if bytes_per_group == 0 || groups_per_row == 0 || rows == 0 {
            Err(EditorError::InvalidConfiguration)
        } else {
            Ok(Geometry { bytes_per_group, groups_per_row, rows })
        }
    }

    /// The number of bytes shown as one cluster of hex pairs.
    pub fn bytes_per_group(&self) -> (r: u16)
        ensures
            r == self@.bytes_per_group,
    {
        self.bytes_per_group
    }

    /// The number of clusters on a row.
    pub fn groups_per_row(&self) -> (r: u16)
        ensures
            r == self@.groups_per_row,
    {
        self.groups_per_row
    }

    /// The number of rows on the screen.
    pub fn rows(&self) -> (r: u16)
        ensures
            r == self@.rows,
    {
        self.rows
    }

    /// The number of bytes on a row.
    pub fn bytes_per_row(&self) -> (r: u32)
        ensures
            r == self@.bytes_per_row(),
            self.wf() ==> r > 0,
    {
        proof {
            lemma_product_bound(self@.bytes_per_group, self@.groups_per_row, 0xffff, 0xffff);
            if self.wf() {
                lemma_product_positive(self@.bytes_per_group, self@.groups_per_row);
            }
        }
        self.bytes_per_group as u32 * self.groups_per_row as u32
    }

    /// The number of bytes in a window of full rows, which is a whole
    /// number of rows.
    pub fn window_bytes(&self) -> (r: u64)
        ensures
            r == self@.window_bytes(),
            self.wf() ==> r > 0 && r as int % self@.bytes_per_row() as int == 0,
    {
        proof {
            lemma_product_bound(self@.bytes_per_group, self@.groups_per_row, 0xffff, 0xffff);
            lemma_product_bound(self@.bytes_per_row(), self@.rows, 0xfffe_0001, 0xffff);
            if self.wf() {
                law_window_is_whole_rows(self@);
                lemma_product_positive(self@.bytes_per_row(), self@.rows);
            }
        }
        let per_row: u32 = self.bytes_per_row();
        per_row as u64 * self.rows as u64
    }

    /// Whether every column and row of the display can be told in 16 bits.
    pub fn fits_screen(&self) -> (r: bool)
        ensures
            r == self@.fits_screen(),
    {
        proof {
            lemma_product_bound(self@.groups_per_row, self@.group_width(), 0xffff, 0x2_fffe);
        }
        let group_width: u64 = self.bytes_per_group as u64 * PAIR_WIDTH as u64 + 1;
        let per_row: u64 = self.bytes_per_row() as u64;
        let width: u64 = OFFSET_WIDTH as u64 + self.groups_per_row as u64 * group_width
            + SEPARATOR_WIDTH as u64 + per_row + SEPARATOR_WIDTH as u64;
        let height: u32 = TOP_ROWS as u32 + self.rows as u32;
        width <= 0xffff && height <= 0xffff
    }

    /// A window of this layout at the start of a file of `file_len` bytes,
    /// waiting to be filled.
    pub fn window_over(&self, file_len: u64) -> (r: FileCursor)
        requires
            self.wf(),
            self@.fits_screen(),
        ensures
            self@.frames(r@),
            r@ == (FileCursorView {
                window_bytes: self@.window_bytes(),
                line_bytes: self@.bytes_per_row(),
                file_len: file_len as nat,
                origin: 0,
                buffer: Seq::empty(),
            }),
    {
        proof {
            lemma_product_bound(self@.groups_per_row, self@.group_width(), 0xffff, 0x2_fffe);
            lemma_product_bound(self@.bytes_per_row(), self@.rows, 0xffff, 0xffff);
        }
        let per_row: u32 = self.bytes_per_row();
        let window: u64 = self.window_bytes();
        FileCursor::new(file_len, window as usize, per_row as u64)
    }

    /// The screen column of the first hex digit of byte `byte_in_group` of
    /// group `group`.
    pub fn hex_column_offset(&self, group: u16, byte_in_group: u16) -> (r: u16)
        requires
            self@.hex_column(group as nat, byte_in_group as nat) <= u16::MAX,
        ensures
            r == self@.hex_column(group as nat, byte_in_group as nat),
    {
        proof {
            lemma_product_bound(group as nat, self@.group_width(), 0xffff, 0x2_fffe);
        }
        let group_width: u64 = self.bytes_per_group as u64 * PAIR_WIDTH as u64 + 1;
        let column: u64 = HEADER_WIDTH as u64 + group as u64 * group_width + byte_in_group as u64
            * PAIR_WIDTH as u64;
        column as u16
    }

    /// The screen column of the first hex digit of byte `byte_index` of a
    /// row.
    pub fn hex_column_of(&self, byte_index: u16) -> (r: u16)
        requires
            self.wf(),
            self@.fits_screen(),
            byte_index < self@.bytes_per_row(),
        ensures
            r == self@.hex_column_of(byte_index as nat),
    {
        proof {
            lemma_cell_columns(self@, byte_index as nat);
        }
        self.hex_column_offset(byte_index / self.bytes_per_group, byte_index % self.bytes_per_group)
    }

    /// The screen column of the character of byte `byte_index` of a row.
    pub fn ascii_column_offset(&self, byte_index: u16) -> (r: u16)
        requires
            self@.ascii_column(byte_index as nat) <= u16::MAX,
        ensures
            r == self@.ascii_column(byte_index as nat),
    {
        proof {
            lemma_product_bound(self@.groups_per_row, self@.group_width(), 0xffff, 0x2_fffe);
        }
        let group_width: u64 = self.bytes_per_group as u64 * PAIR_WIDTH as u64 + 1;
        let column: u64 = OFFSET_WIDTH as u64 + self.groups_per_row as u64 * group_width
            + SEPARATOR_WIDTH as u64 + byte_index as u64;
        column as u16
    }
}

/// A window of full rows holds a whole number of rows.
pub proof fn law_window_is_whole_rows(g: GeometryView)
    requires
        g.wf(),
    ensures
        g.bytes_per_row() > 0,
        g.window_bytes() % g.bytes_per_row() == 0,
{
    lemma_product_positive(g.bytes_per_group, g.groups_per_row);
    lemma_mul_is_commutative(g.bytes_per_row() as int, g.rows as int);
    lemma_mod_multiples_basic(g.rows as int, g.bytes_per_row() as int);
}

} // verus!
