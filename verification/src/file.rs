//! A window of whole rows over a file, moved up and down by rows.
//!
//! The cursor never touches the file. It is told the file's length when it
//! is made, says which bytes its window covers, and is handed those bytes by
//! whoever reads the file.

use vstd::arithmetic::div_mod::lemma_fundamental_div_mod;
use vstd::arithmetic::div_mod::lemma_mod_multiples_basic;
use vstd::arithmetic::mul::lemma_mul_inequality;
use vstd::arithmetic::mul::lemma_mul_is_commutative;
use vstd::arithmetic::mul::lemma_mul_is_distributive_add;
use vstd::arithmetic::mul::lemma_mul_is_distributive_sub;
use vstd::prelude::*;
use vstd::slice::slice_subrange;
use vstd::slice::slice_to_vec;
use vstd::std_specs::convert::FromSpecImpl;

verus! {

/// std's `std::io::Error`, the error of its I/O operations. Nothing is
/// claimed of it: such an error is carried through unread.
#[verifier::external_type_specification]
#[verifier::external_body]
pub struct ExIoError(std::io::Error);

/// Why a window could not be moved or filled.
#[derive(Debug)]
pub enum CursorError {
    /// The distance asked for, in bytes, is more than `i64::MAX`.
    InvalidMovement(core::num::TryFromIntError),
    /// Reading the file failed, or did not give the bytes of the window.
    IOError(std::io::Error),
}

impl From<std::io::Error> for CursorError {
    fn from(value: std::io::Error) -> (r: CursorError) {
        CursorError::IOError(value)
    }
}

impl FromSpecImpl<std::io::Error> for CursorError {
    open spec fn obeys_from_spec() -> bool {
        true
    }

    open spec fn from_spec(value: std::io::Error) -> CursorError {
        CursorError::IOError(value)
    }
}

impl From<core::num::TryFromIntError> for CursorError {
    fn from(value: core::num::TryFromIntError) -> (r: CursorError) {
        CursorError::InvalidMovement(value)
    }
}

impl FromSpecImpl<core::num::TryFromIntError> for CursorError {
    open spec fn obeys_from_spec() -> bool {
        true
    }

    open spec fn from_spec(value: core::num::TryFromIntError) -> CursorError {
        CursorError::InvalidMovement(value)
    }
}

/// The direction to move a window in, and the number of rows to move it by.
#[derive(Debug, Clone, Copy, PartialEq, Eq, Structural)]
pub enum CursorDirection {
    /// Towards the end of the file.
    Down(u64),
    /// Towards the start of the file.
    Up(u64),
}

impl CursorDirection {
    /// The number of rows asked for.
    pub open spec fn amount(self) -> nat {
        match self {
            CursorDirection::Down(rows) => rows as nat,
            CursorDirection::Up(rows) => rows as nat,
        }
    }

    /// Whether the request asks for at least one row and for no more rows
    /// than `i64::MAX`. No other request moves a window.
    pub open spec fn valid(self) -> bool {
        1 <= self.amount() <= i64::MAX
    }

    /// Whether the request asks for at least one row and for no more rows
    /// than `i64::MAX`.
    pub fn is_valid(&self) -> (r: bool)
        ensures
            r == self.valid(),
    {
        match self {
            CursorDirection::Down(rows) => 1 <= *rows && *rows <= 0x7fff_ffff_ffff_ffff,
            CursorDirection::Up(rows) => 1 <= *rows && *rows <= 0x7fff_ffff_ffff_ffff,
        }
    }
}

/// The smaller of two numbers.
pub open spec fn least(a: nat, b: nat) -> nat {
    if a <= b {
        a
    } else {
        b
    }
}

/// The offset of the first byte of the last row that holds a byte of a file
/// of `file_len` bytes laid out in rows of `line_bytes`; 0 for an empty file.
pub open spec fn last_row_start(file_len: nat, line_bytes: nat) -> nat {
    if file_len == 0 {
        0
    } else {
        (((file_len - 1) / (line_bytes as int)) * line_bytes) as nat
    }
}

/// The greatest multiple of `line_bytes` that is not above `offset`.
pub open spec fn row_start(offset: nat, line_bytes: nat) -> nat {
    ((offset / line_bytes) * line_bytes) as nat
}

/// What a [`FileCursor`] holds, as plain values.
pub struct FileCursorView {
    /// The most bytes the window holds.
    pub window_bytes: nat,
    /// The bytes of one row.
    pub line_bytes: nat,
    /// The length of the file.
    pub file_len: nat,
    /// The offset in the file of the window's first byte.
    pub origin: nat,
    /// The bytes in the window; none while the window waits to be filled.
    pub buffer: Seq<u8>,
}

impl FileCursorView {
    /// The window holds whole rows, starts on a row boundary no later than
    /// the last row of the file, and is either empty or holds every byte of
    /// the file from its origin on that it has room for.
    pub open spec fn wf(self) -> bool {
        &&& self.line_bytes > 0
        &&& self.window_bytes > 0
        &&& self.window_bytes % self.line_bytes == 0
        &&& self.window_bytes <= usize::MAX
        &&& self.line_bytes <= u64::MAX
        &&& self.file_len <= u64::MAX
        &&& self.origin % self.line_bytes == 0
        &&& self.origin <= self.last_row()
        &&& (self.buffer.len() == 0 || self.filled())
    }

    /// The origin of the last window there is: see [`last_row_start`].
    pub open spec fn last_row(self) -> nat {
        last_row_start(self.file_len, self.line_bytes)
    }

    /// The number of bytes of the file that the window covers: all that it
    /// has room for, or fewer where the file ends first.
    pub open spec fn window_len(self) -> nat {
        least(self.window_bytes, (self.file_len - self.origin) as nat)
    }

    /// Whether the window holds the bytes that it covers.
    pub open spec fn filled(self) -> bool {
        self.buffer.len() == self.window_len()
    }

    /// The index of the window's first row among the rows of the file.
    pub open spec fn origin_row(self) -> nat {
        self.origin / self.line_bytes
    }

    /// The number of bytes that `direction` asks to move by.
    pub open spec fn distance(self, direction: CursorDirection) -> nat {
        direction.amount() * self.line_bytes
    }

    /// Whether the distance that `direction` asks for can be told as an
    /// `i64`.
    pub open spec fn in_range(self, direction: CursorDirection) -> bool {
        self.distance(direction) <= i64::MAX
    }

    /// The origin that `direction` leads to: the distance asked for further
    /// down, but not past the last row of the file; or further up, but not
    /// before the start of the file.
    pub open spec fn target(self, direction: CursorDirection) -> nat {
        match direction {
            CursorDirection::Down(_) => least(
                self.origin + self.distance(direction),
                self.last_row(),
            ),
            CursorDirection::Up(_) => (self.origin - least(
                self.origin,
                self.distance(direction),
            )) as nat,
        }
    }

    /// The window at another origin, waiting to be filled.
    pub open spec fn moved_to(self, origin: nat) -> FileCursorView {
        FileCursorView { origin, buffer: Seq::empty(), ..self }
    }

    /// The bytes of `file` that the window covers: those from its origin
    /// on that it has room for.
    pub open spec fn covered(self, file: Seq<u8>) -> Seq<u8> {
        file.subrange(self.origin as int, (self.origin + self.window_len()) as int)
    }

    /// The window with `bytes` in it.
    pub open spec fn holding(self, bytes: Seq<u8>) -> FileCursorView {
        FileCursorView { buffer: bytes, ..self }
    }

    /// The window after a scroll in `direction`: unchanged where the
    /// distance is out of range or the origin stays, and at the new origin,
    /// waiting to be filled, where it moves.
    pub open spec fn scrolled(self, direction: CursorDirection) -> FileCursorView {
        if !self.in_range(direction) || self.target(direction) == self.origin {
            self
        } else {
            self.moved_to(self.target(direction))
        }
    }

    /// The window after `count` scrolls in `direction`, one after the other.
    pub open spec fn scrolled_times(self, direction: CursorDirection, count: nat) -> FileCursorView
        decreases count,
    {
        if count == 0 {
            self
        } else {
            self.scrolled(direction).scrolled_times(direction, (count - 1) as nat)
        }
    }
}

/// A window of at most `window_bytes` bytes over a file, which starts on a
/// boundary between rows of `window_line_bytes` bytes.
#[derive(Debug)]
pub struct FileCursor {
    window_bytes: usize,
    window_line_bytes: u64,
    file_len: u64,
    origin: u64,
    buffer: Vec<u8>,
}

impl View for FileCursor {
    type V = FileCursorView;

    closed spec fn view(&self) -> FileCursorView {
        FileCursorView {
            window_bytes: self.window_bytes as nat,
            line_bytes: self.window_line_bytes as nat,
            file_len: self.file_len as nat,
            origin: self.origin as nat,
            buffer: self.buffer@,
        }
    }
}

/// Zero is a multiple of every positive number.
proof fn lemma_zero_is_multiple(m: int)
    requires
        m > 0,
    ensures
        0int % m == 0,
{
    lemma_mod_multiples_basic(0, m);
}

/// The sum and the difference of two multiples of `m` are multiples of `m`.
proof fn lemma_multiples_add_sub(a: int, b: int, m: int)
    requires
        m > 0,
        a % m == 0,
        b % m == 0,
    ensures
        (a + b) % m == 0,
        (a - b) % m == 0,
{
    lemma_fundamental_div_mod(a, m);
    lemma_fundamental_div_mod(b, m);
    lemma_mul_is_distributive_add(m, a / m, b / m);
    lemma_mul_is_distributive_sub(m, a / m, b / m);
    lemma_mul_is_commutative(m, a / m + b / m);
    lemma_mul_is_commutative(m, a / m - b / m);
    lemma_mod_multiples_basic(a / m + b / m, m);
    lemma_mod_multiples_basic(a / m - b / m, m);
}

/// Of two multiples of `m`, the greater is at least `m` above the smaller.
proof fn lemma_multiples_apart(a: int, b: int, m: int)
    requires
        m > 0,
        a % m == 0,
        b % m == 0,
        a < b,
    ensures
        a + m <= b,
{
    lemma_multiples_add_sub(b, a, m);
    lemma_fundamental_div_mod(b - a, m);
    let q = (b - a) / m;
    assert(q >= 1) by (nonlinear_arith)
        requires
            m > 0,
            b - a == m * q,
            b - a > 0,
    ;
    assert(m * q >= m) by (nonlinear_arith)
        requires
            m > 0,
            q >= 1,
    ;
}

/// The start of the row that `offset` lies in is a row boundary, is not
/// after `offset`, and is less than a row before it.
proof fn lemma_row_start(offset: nat, line_bytes: nat)
    requires
        line_bytes > 0,
    ensures
        row_start(offset, line_bytes) % line_bytes == 0,
        row_start(offset, line_bytes) <= offset,
        offset < row_start(offset, line_bytes) + line_bytes,
{
    let m = line_bytes as int;
    let q = offset as int / m;
    lemma_fundamental_div_mod(offset as int, m);
    lemma_mul_is_commutative(m, q);
    lemma_mod_multiples_basic(q, m);
    assert(q >= 0) by (nonlinear_arith)
        requires
            m > 0,
            offset >= 0,
            q == offset as int / m,
    ;
    assert(q * m >= 0) by (nonlinear_arith)
        requires
            m > 0,
            q >= 0,
    ;
}

/// The start of the last row is a row boundary that lies in the file.
proof fn lemma_last_row_start(file_len: nat, line_bytes: nat)
    requires
        line_bytes > 0,
    ensures
        last_row_start(file_len, line_bytes) % line_bytes == 0,
        last_row_start(file_len, line_bytes) <= file_len,
        file_len > 0 ==> last_row_start(file_len, line_bytes) < file_len,
        file_len <= last_row_start(file_len, line_bytes) + line_bytes,
{
    if file_len > 0 {
        lemma_row_start((file_len - 1) as nat, line_bytes);
    } else {
        lemma_zero_is_multiple(line_bytes as int);
    }
}

/// A row boundary that is not after `offset` is not after the start of the
/// row that `offset` lies in.
proof fn lemma_row_start_is_greatest(boundary: nat, offset: nat, line_bytes: nat)
    requires
        line_bytes > 0,
        boundary % line_bytes == 0,
        boundary <= offset,
    ensures
        boundary <= row_start(offset, line_bytes),
{
    lemma_row_start(offset, line_bytes);
    if boundary > row_start(offset, line_bytes) {
        lemma_multiples_apart(
            row_start(offset, line_bytes) as int,
            boundary as int,
            line_bytes as int,
        );
    }
}

impl FileCursor {
    /// See [`FileCursorView::wf`].
    pub open spec fn wf(&self) -> bool {
        self@.wf()
    }

    /// A window at the start of a file of `file_len` bytes, waiting to be
    /// filled.
    pub fn new(file_len: u64, window_bytes: usize, window_line_bytes: u64) -> (r: FileCursor)
        requires
            window_bytes != 0,
            window_line_bytes != 0,
            window_bytes as int % window_line_bytes as int == 0,
        ensures
            r.wf(),
            r@ == (FileCursorView {
                window_bytes: window_bytes as nat,
                line_bytes: window_line_bytes as nat,
                file_len: file_len as nat,
                origin: 0,
                buffer: Seq::empty(),
            }),
    {
        proof {
            lemma_zero_is_multiple(window_line_bytes as int);
        }
        FileCursor { window_bytes, window_line_bytes, file_len, origin: 0, buffer: Vec::new() }
    }

    /// The same file seen through a window of another size: it starts at
    /// the boundary of the new rows at or before the old origin, and waits
    /// to be filled.
    pub fn set_window(self, window_bytes: usize, window_line_bytes: u64) -> (r: FileCursor)
        requires
            self.wf(),
            window_bytes != 0,
            window_line_bytes != 0,
            window_bytes as int % window_line_bytes as int == 0,
        ensures
            r.wf(),
            r@ == (FileCursorView {
                window_bytes: window_bytes as nat,
                line_bytes: window_line_bytes as nat,
                file_len: self@.file_len,
                origin: row_start(self@.origin, window_line_bytes as nat),
                buffer: Seq::empty(),
            }),
    {
        proof {
            lemma_last_row_start(self@.file_len, self@.line_bytes);
            lemma_row_start(self@.origin, window_line_bytes as nat);
            if self@.file_len > 0 {
                lemma_row_start_is_greatest(
                    row_start(self@.origin, window_line_bytes as nat),
                    (self@.file_len - 1) as nat,
                    window_line_bytes as nat,
                );
            }
        }
        let origin: u64 = (self.origin / window_line_bytes) * window_line_bytes;
        FileCursor {
            window_bytes,
            window_line_bytes,
            file_len: self.file_len,
            origin,
            buffer: Vec::new(),
        }
    }

    /// The index of the window's first row among the rows of the file.
    pub fn position(&self) -> (r: u64)
        requires
            self.wf(),
        ensures
            r == self@.origin_row(),
    {
        self.origin / self.window_line_bytes
    }

    /// The offset in the file of the window's first byte.
    pub fn origin(&self) -> (r: u64)
        ensures
            r == self@.origin,
    {
        self.origin
    }

    /// The length of the file.
    pub fn file_len(&self) -> (r: u64)
        ensures
            r == self@.file_len,
    {
        self.file_len
    }

    /// The number of bytes of the file that the window covers, from its
    /// origin on.
    pub fn window_len(&self) -> (r: usize)
        requires
            self.wf(),
        ensures
            r == self@.window_len(),
    {
        proof {
            lemma_last_row_start(self@.file_len, self@.line_bytes);
        }
        let rest: u64 = self.file_len - self.origin;
        if rest < self.window_bytes as u64 {
            rest as usize
        } else {
            self.window_bytes
        }
    }

    /// Whether the window holds the bytes that it covers.
    pub fn is_filled(&self) -> (r: bool)
        requires
            self.wf(),
        ensures
            r == self@.filled(),
    {
        self.buffer.len() == self.window_len()
    }

    /// Moves the window by whole rows. It stops at the start of the file
    /// and at the last row of the file. Where the origin changes, the
    /// window is emptied and waits to be filled.
    pub fn scroll(&mut self, direction: CursorDirection) -> (r: Result<(), CursorError>)
        requires
            old(self).wf(),
        ensures
            final(self).wf(),
            final(self)@ == old(self)@.scrolled(direction),
            r is Ok <==> old(self)@.in_range(direction),
            r is Err ==> r->Err_0 is InvalidMovement,
    {
        let line: u64 = self.window_line_bytes;
        let rows: u64 = match direction {
            CursorDirection::Down(rows) => rows,
            CursorDirection::Up(rows) => rows,
        };
        assert(rows as u128 * line as u128 <= u128::MAX) by (nonlinear_arith)
            requires
                rows <= u64::MAX,
                line <= u64::MAX,
        ;
        let wide: u128 = rows as u128 * line as u128;
        let distance: u64 = match i64::try_from(wide) {
            Ok(d) => d as u64,
            Err(e) => {
                return Err(CursorError::InvalidMovement(e));
            },
        };
        proof {
            lemma_last_row_start(self@.file_len, self@.line_bytes);
            lemma_mod_multiples_basic(rows as int, line as int);
            lemma_multiples_add_sub(self@.origin as int, distance as int, line as int);
        }
        let target: u64 = match direction {
            CursorDirection::Down(_) => {
                let last: u64 = if self.file_len == 0 {
                    0
                } else {
                    ((self.file_len - 1) / line) * line
                };
                if distance <= last - self.origin {
                    self.origin + distance
                } else {
                    last
                }
            },
            CursorDirection::Up(_) => {
                if distance <= self.origin {
                    self.origin - distance
                } else {
                    0
                }
            },
        };
        if target != self.origin {
            self.origin = target;
            self.buffer = Vec::new();
        }
        Ok(())
    }

    /// Takes what a read of the bytes that the window covers gave. The
    /// bytes go into the window if they are as many as it covers; a read
    /// that failed, or that gave another number of bytes, is an I/O error
    /// and leaves the window as it was.
    pub fn fill(&mut self, read: Result<Vec<u8>, std::io::Error>) -> (r: Result<(), CursorError>)
        requires
            old(self).wf(),
        ensures
            final(self).wf(),
            r is Ok <==> read is Ok && read->Ok_0@.len() == old(self)@.window_len(),
            r is Ok ==> final(self)@ == old(self)@.holding(read->Ok_0@),
            r is Err ==> r->Err_0 is IOError && final(self)@ == old(self)@,
            read is Err ==> r == Err::<(), CursorError>(CursorError::IOError(read->Err_0)),
    {
        match read {
            Ok(bytes) => {
                if bytes.len() == self.window_len() {
                    self.buffer = bytes;
                    Ok(())
                } else {
                    Err(CursorError::IOError(unexpected_eof()))
                }
            },
            Err(e) => Err(CursorError::IOError(e)),
        }
    }

    /// Fills the window out of `file`, which holds every byte of the file.
    pub fn fill_from(&mut self, file: &[u8])
        requires
            old(self).wf(),
            file@.len() == old(self)@.file_len,
        ensures
            final(self).wf(),
            final(self)@ == old(self)@.holding(old(self)@.covered(file@)),
            final(self)@.filled(),
    {
        proof {
            lemma_window_in_file(self@);
        }
        let len: usize = file.len();
        let from: usize = self.origin as usize;
        let to: usize = from + self.window_len();
        assert(to <= len);
        self.buffer = slice_to_vec(slice_subrange(file, from, to));
    }

    /// The bytes in the window: none while it waits to be filled, and else
    /// the bytes that it covers, which are whole rows unless the file ends
    /// in the window.
    pub fn buffer(&self) -> (r: &[u8])
        requires
            self.wf(),
        ensures
            r@ == self@.buffer,
            r@.len() <= self@.window_bytes,
            r@.len() == 0 || r@.len() == self@.window_bytes || self@.origin + r@.len()
                == self@.file_len,
    {
        proof {
            lemma_last_row_start(self@.file_len, self@.line_bytes);
        }
        self.buffer.as_slice()
    }
}

/// A well-formed window lies in the file, and starts as many whole rows
/// into the file as the index of its first row says.
pub proof fn lemma_window_in_file(v: FileCursorView)
    requires
        v.wf(),
    ensures
        v.origin + v.window_len() <= v.file_len,
        v.buffer.len() <= v.window_len() <= v.window_bytes,
        v.origin_row() * v.line_bytes == v.origin,
{
    lemma_last_row_start(v.file_len, v.line_bytes);
    lemma_fundamental_div_mod(v.origin as int, v.line_bytes as int);
    lemma_mul_is_commutative(v.line_bytes as int, v.origin as int / v.line_bytes as int);
}

/// A scroll by no rows, or by more rows than `i64::MAX`, moves nothing.
pub proof fn law_invalid_directions_move_nothing(v: FileCursorView, direction: CursorDirection)
    requires
        v.wf(),
        !direction.valid(),
    ensures
        v.scrolled(direction) == v,
{
    let rows = direction.amount() as int;
    let line = v.line_bytes as int;
    if rows == 0 {
        assert(rows * line == 0) by (nonlinear_arith)
            requires
                rows == 0,
        ;
    } else {
        assert(rows * line >= rows) by (nonlinear_arith)
            requires
                rows >= 0,
                line >= 1,
        ;
    }
}

/// One row down and then one row up leads back to where the window was,
/// unless it was on the last row of the file.
pub proof fn law_down_then_up_restores_origin(v: FileCursorView)
    requires
        v.wf(),
        v.origin < v.last_row(),
    ensures
        v.scrolled(CursorDirection::Down(1)).scrolled(CursorDirection::Up(1)).origin == v.origin,
{
    lemma_last_row_start(v.file_len, v.line_bytes);
    lemma_multiples_apart(v.origin as int, v.last_row() as int, v.line_bytes as int);
    assert(1 * v.line_bytes == v.line_bytes) by (nonlinear_arith);
}

/// Scrolling up leaves a well-formed window that is no further from the
/// start of the file than before. From anywhere but the start, a scroll of
/// at least one row that is in range leads at least one row nearer; at the
/// start, scrolling up changes nothing.
pub proof fn law_up_approaches_start(v: FileCursorView, rows: u64)
    requires
        v.wf(),
    ensures
        v.scrolled(CursorDirection::Up(rows)).wf(),
        v.scrolled(CursorDirection::Up(rows)).origin <= v.origin,
        v.origin == 0 ==> v.scrolled(CursorDirection::Up(rows)) == v,
        v.origin > 0 && rows >= 1 && v.in_range(CursorDirection::Up(rows)) ==> v.scrolled(
            CursorDirection::Up(rows),
        ).origin + v.line_bytes <= v.origin,
{
    let direction = CursorDirection::Up(rows);
    let target = v.target(direction);
    lemma_mod_multiples_basic(rows as int, v.line_bytes as int);
    lemma_multiples_add_sub(v.origin as int, v.distance(direction) as int, v.line_bytes as int);
    lemma_zero_is_multiple(v.line_bytes as int);
    if rows >= 1 {
        lemma_mul_inequality(1, rows as int, v.line_bytes as int);
        assert(1 * v.line_bytes == v.line_bytes) by (nonlinear_arith);
    }
    if target < v.origin {
        lemma_multiples_apart(target as int, v.origin as int, v.line_bytes as int);
    }
}

/// Scrolling up one row at a time reaches the start of the file after as
/// many scrolls as there are rows above the window, and stays there.
pub proof fn law_up_reaches_start(v: FileCursorView, count: nat)
    requires
        v.wf(),
        v.in_range(CursorDirection::Up(1)),
        count >= v.origin_row(),
    ensures
        v.scrolled_times(CursorDirection::Up(1), count).origin == 0,
        v.scrolled_times(CursorDirection::Up(1), count).wf(),
    decreases count,
{
    let up = CursorDirection::Up(1);
    let m = v.line_bytes as int;
    lemma_fundamental_div_mod(v.origin as int, m);
    if count == 0 {
        assert(m * 0 == 0) by (nonlinear_arith);
    } else {
        law_up_approaches_start(v, 1);
        let next = v.scrolled(up);
        assert(1 * v.line_bytes == v.line_bytes) by (nonlinear_arith);
        if v.origin > 0 {
            assert(next.origin == v.origin - m);
            lemma_fundamental_div_mod(next.origin as int, m);
            lemma_mul_is_distributive_sub(m, v.origin as int / m, 1);
            assert(m * (v.origin as int / m - 1) == next.origin);
            assert(next.origin as int / m == v.origin as int / m - 1) by (nonlinear_arith)
                requires
                    m > 0,
                    next.origin == m * (next.origin as int / m),
                    next.origin == m * (v.origin as int / m - 1),
            ;
        }
        law_up_reaches_start(next, (count - 1) as nat);
    }
}

/// Scrolling down leaves a well-formed window that is no nearer to the
/// start of the file than before and no further than the last row of the
/// file: if the file has any bytes, the window covers at least one.
pub proof fn law_down_stays_in_file(v: FileCursorView, rows: u64)
    requires
        v.wf(),
    ensures
        v.scrolled(CursorDirection::Down(rows)).wf(),
        v.origin <= v.scrolled(CursorDirection::Down(rows)).origin <= v.last_row(),
        v.file_len > 0 ==> 1 <= v.scrolled(CursorDirection::Down(rows)).window_len(),
        v.scrolled(CursorDirection::Down(rows)).window_len() <= v.window_bytes,
{
    let direction = CursorDirection::Down(rows);
    lemma_last_row_start(v.file_len, v.line_bytes);
    lemma_mod_multiples_basic(rows as int, v.line_bytes as int);
    lemma_multiples_add_sub(v.origin as int, v.distance(direction) as int, v.line_bytes as int);
}

/// std's `std::io::Error::from` on `std::io::ErrorKind::UnexpectedEof`: an
/// error that tells of a read that gave too few bytes. Nothing is claimed
/// of it.
#[verifier::external_body]
fn unexpected_eof() -> (r: std::io::Error) {
    std::io::Error::from(std::io::ErrorKind::UnexpectedEof)
}

} // verus!
