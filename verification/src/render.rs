//! The text of the display: a header above the hex columns, and for each
//! row its offset, its bytes as hex pairs in groups, and its bytes as
//! characters between two bars.
//!
//! Text is a sequence of bytes. All of it is ASCII but for the mark that
//! stands for a byte that has no character to show, which the caller gives.

use vstd::arithmetic::div_mod::lemma_div_denominator;
use vstd::arithmetic::div_mod::lemma_div_pos_is_pos;
use vstd::arithmetic::div_mod::lemma_fundamental_div_mod;
use vstd::arithmetic::div_mod::lemma_mod_bound;
use vstd::arithmetic::div_mod::lemma_multiply_divide_lt;
use vstd::arithmetic::mul::lemma_mul_is_commutative;
use vstd::prelude::*;

use crate::geometry::lemma_cell_columns;
use crate::geometry::GeometryView;

verus! {

/// The character ` `.
pub const SPACE: u8 = 0x20;

/// The character `:`.
pub const COLON: u8 = 0x3a;

/// The character `|`.
pub const BAR: u8 = 0x7c;

/// The character of a hex digit: `0` to `9`, then `A` to `F`.
pub open spec fn hex_digit(value: nat) -> u8 {
    if value < 10 {
        (0x30 + value) as u8
    } else {
        (0x41 + value - 10) as u8
    }
}

/// The power of 16 with this exponent.
pub open spec fn sixteen_to(exponent: nat) -> nat
    decreases exponent,
{
    if exponent == 0 {
        1
    } else {
        16 * sixteen_to((exponent - 1) as nat)
    }
}

/// The hex digit of `value` at `place`, counted from the last digit, which
/// is at place 0.
pub open spec fn nibble(value: nat, place: nat) -> nat {
    (value / sixteen_to(place)) % 16
}

/// The last `count` hex digits of `value`, the first of them first.
pub open spec fn hex_text(value: nat, count: nat) -> Seq<u8> {
    Seq::new(count, |i: int| hex_digit(nibble(value, (count - 1 - i) as nat)))
}

/// Whether a byte is a character of ASCII that shows as itself.
pub open spec fn printable(byte: u8) -> bool {
    0x20 <= byte <= 0x7e
}

/// The three columns of a byte in the hex panel: a space and the byte's
/// two hex digits, or three spaces where the row has no byte at `index`.
pub open spec fn hex_cell(bytes: Seq<u8>, index: int) -> Seq<u8> {
    if 0 <= index < bytes.len() {
        seq![SPACE] + hex_text(bytes[index] as nat, 2)
    } else {
        seq![SPACE, SPACE, SPACE]
    }
}

/// The hex cells of `count` bytes of a row, from the byte at `from` on.
pub open spec fn hex_cells(bytes: Seq<u8>, from: int, count: nat) -> Seq<u8>
    decreases count,
{
    if count == 0 {
        Seq::empty()
    } else {
        hex_cells(bytes, from, (count - 1) as nat) + hex_cell(bytes, from + count - 1)
    }
}

/// The first `count` groups of a row: the hex cells of each group's bytes,
/// and a space after each group.
pub open spec fn hex_groups(bytes: Seq<u8>, per_group: nat, count: nat) -> Seq<u8>
    decreases count,
{
    if count == 0 {
        Seq::empty()
    } else {
        hex_groups(bytes, per_group, (count - 1) as nat) + hex_cells(
            bytes,
            (count - 1) * per_group,
            per_group,
        ) + seq![SPACE]
    }
}

/// What shows for a byte in the panel of characters: the byte itself if it
/// is printable, `blank` if it is not, and a space where the row has no
/// byte at `index`.
pub open spec fn char_cell(bytes: Seq<u8>, index: int, blank: Seq<u8>) -> Seq<u8> {
    if 0 <= index < bytes.len() {
        if printable(bytes[index]) {
            seq![bytes[index]]
        } else {
            blank
        }
    } else {
        seq![SPACE]
    }
}

/// What shows for the first `count` bytes of a row in the panel of
/// characters.
pub open spec fn char_cells(bytes: Seq<u8>, blank: Seq<u8>, count: nat) -> Seq<u8>
    decreases count,
{
    if count == 0 {
        Seq::empty()
    } else {
        char_cells(bytes, blank, (count - 1) as nat) + char_cell(bytes, count - 1, blank)
    }
}

/// The text of a row: the last eight hex digits of the offset of its first
/// byte, a colon and a space, the groups, and the characters between two
/// bars.
pub open spec fn row_text(
    offset: nat,
    bytes: Seq<u8>,
    per_group: nat,
    groups: nat,
    blank: Seq<u8>,
) -> Seq<u8> {
    hex_text(offset, 8) + seq![COLON, SPACE] + hex_groups(bytes, per_group, groups) + seq![BAR]
        + char_cells(bytes, blank, per_group * groups) + seq![BAR]
}

/// A row of `count` bytes of which each is its own index in the row, as
/// far as a byte can tell it.
pub open spec fn labels(count: nat) -> Seq<u8> {
    Seq::new(count, |i: int| (i % 256) as u8)
}

/// The text of the header: ten spaces, above each hex pair the last two
/// hex digits of the index of its byte in the row, and `ASCII` above the
/// characters.
pub open spec fn header_text(per_group: nat, groups: nat) -> Seq<u8> {
    Seq::new(10, |i: int| SPACE) + hex_groups(labels(per_group * groups), per_group, groups)
        + seq![SPACE, 0x41u8, 0x53u8, 0x43u8, 0x49u8, 0x49u8]
}

/// A hex cell has three columns. Where the row has the byte, the second
/// and the third hold the byte's two hex digits.
proof fn lemma_hex_cell(bytes: Seq<u8>, index: int)
    ensures
        hex_cell(bytes, index).len() == 3,
        hex_cell(bytes, index)[0] == SPACE,
        0 <= index < bytes.len() ==> hex_cell(bytes, index)[1] == hex_digit(
            (bytes[index] / 16) as nat,
        ) && hex_cell(bytes, index)[2] == hex_digit((bytes[index] % 16) as nat),
        !(0 <= index < bytes.len()) ==> hex_cell(bytes, index)[1] == SPACE && hex_cell(
            bytes,
            index,
        )[2] == SPACE,
{
    reveal_with_fuel(sixteen_to, 3);
    if 0 <= index < bytes.len() {
        let value = bytes[index] as nat;
        assert(sixteen_to(1) == 16);
        assert(sixteen_to(0) == 1);
        assert(nibble(value, 1) == value / 16);
        assert(nibble(value, 0) == value % 16);
    }
}

/// The hex cells of `count` bytes take three columns each, one cell after
/// the other.
proof fn lemma_hex_cells(bytes: Seq<u8>, from: int, count: nat, cell: int, column: int)
    requires
        0 <= cell < count,
        0 <= column < 3,
    ensures
        hex_cells(bytes, from, count).len() == 3 * count,
        hex_cells(bytes, from, count)[3 * cell + column] == hex_cell(bytes, from + cell)[column],
    decreases count,
{
    lemma_hex_cells_len(bytes, from, (count - 1) as nat);
    lemma_hex_cell(bytes, from + count - 1);
    if cell < count - 1 {
        lemma_hex_cells(bytes, from, (count - 1) as nat, cell, column);
    }
}

/// The hex cells of `count` bytes take three columns each.
proof fn lemma_hex_cells_len(bytes: Seq<u8>, from: int, count: nat)
    ensures
        hex_cells(bytes, from, count).len() == 3 * count,
    decreases count,
{
    if count > 0 {
        lemma_hex_cells_len(bytes, from, (count - 1) as nat);
        lemma_hex_cell(bytes, from + count - 1);
    }
}

/// The groups of a row take the columns of their cells and one more each.
proof fn lemma_hex_groups_len(bytes: Seq<u8>, per_group: nat, count: nat)
    ensures
        hex_groups(bytes, per_group, count).len() == count * (3 * per_group + 1),
    decreases count,
{
    let width = 3 * per_group + 1;
    if count > 0 {
        lemma_hex_groups_len(bytes, per_group, (count - 1) as nat);
        lemma_hex_cells_len(bytes, (count - 1) * per_group, per_group);
        assert(count * width == (count - 1) * width + width) by (nonlinear_arith);
    } else {
        assert(count * width == 0) by (nonlinear_arith)
            requires
                count == 0,
        ;
    }
}

/// In the groups of a row, the cell of byte `byte` of group `group` starts
/// three columns for each byte before it in its group after the start of
/// its group, and the groups start one after the other.
proof fn lemma_hex_groups(
    bytes: Seq<u8>,
    per_group: nat,
    count: nat,
    group: int,
    byte: int,
    column: int,
)
    requires
        0 <= group < count,
        0 <= byte < per_group,
        0 <= column < 3,
    ensures
        0 <= group * (3 * per_group + 1) + 3 * byte + column < hex_groups(
            bytes,
            per_group,
            count,
        ).len(),
        hex_groups(bytes, per_group, count)[group * (3 * per_group + 1) + 3 * byte + column]
            == hex_cell(bytes, group * per_group + byte)[column],
    decreases count,
{
    let width = 3 * per_group + 1;
    let before = hex_groups(bytes, per_group, (count - 1) as nat);
    let cells = hex_cells(bytes, (count - 1) * per_group, per_group);
    lemma_hex_groups_len(bytes, per_group, (count - 1) as nat);
    lemma_hex_groups_len(bytes, per_group, count);
    lemma_hex_cells_len(bytes, (count - 1) * per_group, per_group);
    assert(count * width == (count - 1) * width + width) by (nonlinear_arith);
    assert(0 <= group * width) by (nonlinear_arith)
        requires
            0 <= group,
            0 <= width,
    ;
    if group < count - 1 {
        lemma_hex_groups(bytes, per_group, (count - 1) as nat, group, byte, column);
    } else {
        lemma_hex_cells(bytes, (count - 1) * per_group, per_group, byte, column);
        assert(hex_groups(bytes, per_group, count) == before + cells + seq![SPACE]);
        assert((before + cells + seq![SPACE])[before.len() + 3 * byte + column] == cells[3 * byte
            + column]);
    }
}

/// The two hex digits of each byte of a row stand in the text of the row
/// at the screen column that the layout gives to the byte, and the bar
/// that opens the characters stands right after the groups.
pub proof fn law_hex_digits_stand_at_their_columns(
    g: GeometryView,
    offset: nat,
    bytes: Seq<u8>,
    blank: Seq<u8>,
    index: nat,
)
    requires
        g.wf(),
        index < bytes.len(),
        index < g.bytes_per_row(),
    ensures
        ({
            let text = row_text(offset, bytes, g.bytes_per_group, g.groups_per_row, blank);
            let column = g.hex_column_of(index) as int;
            let bar = g.hex_block_width() as int;
            &&& column + 1 < bar < text.len()
            &&& text[column] == hex_digit((bytes[index as int] / 16) as nat)
            &&& text[column + 1] == hex_digit((bytes[index as int] % 16) as nat)
            &&& text[bar] == BAR
        }),
{
    let per_group = g.bytes_per_group;
    let groups = g.groups_per_row;
    let group = index as int / per_group as int;
    let byte = index as int % per_group as int;
    let front = hex_text(offset, 8) + seq![COLON, SPACE];
    let cells = hex_groups(bytes, per_group, groups);
    let text = row_text(offset, bytes, per_group, groups, blank);
    lemma_cell_columns(g, index);
    lemma_multiply_divide_lt(index as int, per_group as int, groups as int);
    lemma_div_pos_is_pos(index as int, per_group as int);
    lemma_mod_bound(index as int, per_group as int);
    lemma_fundamental_div_mod(index as int, per_group as int);
    lemma_mul_is_commutative(per_group as int, group);
    lemma_hex_groups_len(bytes, per_group, groups);
    lemma_hex_groups(bytes, per_group, groups, group, byte, 1);
    lemma_hex_groups(bytes, per_group, groups, group, byte, 2);
    lemma_hex_cell(bytes, index as int);
    assert(front.len() == 10);
    assert(text == front + cells + seq![BAR] + char_cells(bytes, blank, per_group * groups)
        + seq![BAR]);
    let at = group * (3 * per_group + 1) + 3 * byte;
    assert(g.hex_column_of(index) == 10 + at + 1);
    assert(text[10 + at + 1] == cells[at + 1]);
    assert(text[10 + at + 2] == cells[at + 2]);
    assert(text[10 + cells.len() as int] == BAR);
}

/// Where the mark for a byte without a character takes one column, so does
/// what shows for each byte of a row in the panel of characters.
proof fn lemma_char_cells(bytes: Seq<u8>, blank: Seq<u8>, count: nat, index: int)
    requires
        blank.len() == 1,
        0 <= index < count,
    ensures
        char_cells(bytes, blank, count).len() == count,
        char_cells(bytes, blank, count)[index] == char_cell(bytes, index, blank)[0],
    decreases count,
{
    lemma_char_cells_len(bytes, blank, (count - 1) as nat);
    if index < count - 1 {
        lemma_char_cells(bytes, blank, (count - 1) as nat, index);
    }
}

/// Where the mark for a byte without a character takes one column, the
/// panel of characters takes a column for each byte of a row.
proof fn lemma_char_cells_len(bytes: Seq<u8>, blank: Seq<u8>, count: nat)
    requires
        blank.len() == 1,
    ensures
        char_cells(bytes, blank, count).len() == count,
    decreases count,
{
    if count > 0 {
        lemma_char_cells_len(bytes, blank, (count - 1) as nat);
    }
}

/// Where the mark for a byte without a character takes one column, the
/// text of a row is as wide as the layout says, what shows for each byte
/// of the row stands at the screen column that the layout gives to the
/// byte's character, and the bar that closes the characters stands last.
pub proof fn law_characters_stand_at_their_columns(
    g: GeometryView,
    offset: nat,
    bytes: Seq<u8>,
    blank: Seq<u8>,
    index: nat,
)
    requires
        g.wf(),
        blank.len() == 1,
        index < bytes.len(),
        index < g.bytes_per_row(),
    ensures
        ({
            let text = row_text(offset, bytes, g.bytes_per_group, g.groups_per_row, blank);
            let column = g.ascii_column(index) as int;
            &&& text.len() == g.screen_width()
            &&& column < text.len() - 1
            &&& text[column] == if printable(bytes[index as int]) {
                bytes[index as int]
            } else {
                blank[0]
            }
            &&& text[text.len() - 1] == BAR
        }),
{
    let per_group = g.bytes_per_group;
    let groups = g.groups_per_row;
    let front = hex_text(offset, 8) + seq![COLON, SPACE] + hex_groups(bytes, per_group, groups)
        + seq![BAR];
    let chars = char_cells(bytes, blank, per_group * groups);
    let text = row_text(offset, bytes, per_group, groups, blank);
    lemma_hex_groups_len(bytes, per_group, groups);
    lemma_char_cells(bytes, blank, per_group * groups, index as int);
    lemma_mul_is_commutative(groups as int, (3 * per_group + 1) as int);
    assert(front.len() == g.hex_block_width() + 1);
    assert(text == front + chars + seq![BAR]);
    assert(text[(front.len() + index) as int] == chars[index as int]);
}

/// Above the two hex digits of each byte of a row, the header shows the
/// last two hex digits of the index of the byte in the row; above the
/// first character it shows the `A` of `ASCII`.
pub proof fn law_labels_stand_above_their_columns(g: GeometryView, index: nat)
    requires
        g.wf(),
        index < g.bytes_per_row(),
    ensures
        ({
            let text = header_text(g.bytes_per_group, g.groups_per_row);
            let column = g.hex_column_of(index) as int;
            &&& column + 1 < g.ascii_column(0) < text.len()
            &&& text[column] == hex_digit((index % 256) / 16)
            &&& text[column + 1] == hex_digit(index % 16)
            &&& text[g.ascii_column(0) as int] == 0x41
        }),
{
    let per_group = g.bytes_per_group;
    let groups = g.groups_per_row;
    let group = index as int / per_group as int;
    let byte = index as int % per_group as int;
    let front = Seq::new(10, |i: int| SPACE);
    let bytes = labels(per_group * groups);
    let cells = hex_groups(bytes, per_group, groups);
    let back = seq![SPACE, 0x41u8, 0x53u8, 0x43u8, 0x49u8, 0x49u8];
    let text = header_text(per_group, groups);
    lemma_cell_columns(g, index);
    lemma_multiply_divide_lt(index as int, per_group as int, groups as int);
    lemma_div_pos_is_pos(index as int, per_group as int);
    lemma_mod_bound(index as int, per_group as int);
    lemma_fundamental_div_mod(index as int, per_group as int);
    lemma_mul_is_commutative(per_group as int, group);
    lemma_mul_is_commutative(groups as int, (3 * per_group + 1) as int);
    lemma_hex_groups_len(bytes, per_group, groups);
    lemma_hex_groups(bytes, per_group, groups, group, byte, 1);
    lemma_hex_groups(bytes, per_group, groups, group, byte, 2);
    lemma_hex_cell(bytes, index as int);
    assert(text == front + cells + back);
    let at = group * (3 * per_group + 1) + 3 * byte;
    assert(g.hex_column_of(index) == 10 + at + 1);
    assert(text[10 + at + 1] == cells[at + 1]);
    assert(text[10 + at + 2] == cells[at + 2]);
    assert(text[10 + cells.len() as int + 1] == back[1]);
    assert(bytes[index as int] == (index % 256) as u8);
    assert((index % 256) % 16 == index % 16);
}

/// The character of a hex digit.
fn hex_digit_of(value: u8) -> (r: u8)
    requires
        value < 16,
    ensures
        r == hex_digit(value as nat),
{
    if value < 10 {
        0x30 + value
    } else {
        0x41 + (value - 10)
    }
}

/// Appends the last `count` hex digits of `value`.
fn push_hex(out: &mut Vec<u8>, value: u64, count: usize)
    ensures
        final(out)@ == old(out)@ + hex_text(value as nat, count as nat),
{
    let ghost before = out@;
    let mut digits: Vec<u8> = Vec::new();
    let mut rest: u64 = value;
    let mut place: usize = 0;
    assert(sixteen_to(0) == 1);
    assert(value as nat / 1 == value as nat);
    while place < count
        invariant
            place <= count,
            digits@.len() == place,
            rest == value as nat / sixteen_to(place as nat),
            sixteen_to(place as nat) > 0,
            forall|k: int| 0 <= k < place ==> digits@[k] == hex_digit(nibble(value as nat, k as nat)),
        decreases count - place,
    {
        proof {
            lemma_div_denominator(value as int, sixteen_to(place as nat) as int, 16);
            lemma_mul_is_commutative(sixteen_to(place as nat) as int, 16);
        }
        digits.push(hex_digit_of((rest % 16) as u8));
        rest = rest / 16;
        place += 1;
    }
    let mut left: usize = count;
    while left > 0
        invariant
            left <= count,
            digits@.len() == count,
            out@ == before + Seq::new((count - left) as nat, |i: int| digits@[count - 1 - i]),
        decreases left,
    {
        left -= 1;
        out.push(digits[left]);
        assert(out@ =~= before + Seq::new((count - left) as nat, |i: int| digits@[count - 1 - i]));
    }
    assert(out@ =~= before + hex_text(value as nat, count as nat));
}

/// Appends the groups of a row.
fn push_hex_groups(out: &mut Vec<u8>, bytes: &[u8], per_group: u16, groups: u16)
    ensures
        final(out)@ == old(out)@ + hex_groups(bytes@, per_group as nat, groups as nat),
{
    let ghost before = out@;
    let mut group: u16 = 0;
    assert(out@ =~= before + hex_groups(bytes@, per_group as nat, 0));
    while group < groups
        invariant
            group <= groups,
            out@ == before + hex_groups(bytes@, per_group as nat, group as nat),
        decreases groups - group,
    {
        let ghost done = out@;
        assert(group * per_group <= 0xffff * 0xffff) by (nonlinear_arith)
            requires
                group <= 0xffff,
                per_group <= 0xffff,
        ;
        let first: u64 = group as u64 * per_group as u64;
        let mut byte: u16 = 0;
        assert(out@ =~= done + hex_cells(bytes@, first as int, 0));
        while byte < per_group
            invariant
                byte <= per_group,
                first == group * per_group,
                first <= 0xffff * 0xffff,
                out@ == done + hex_cells(bytes@, first as int, byte as nat),
            decreases per_group - byte,
        {
            let ghost cells = out@;
            let index: u64 = first + byte as u64;
            if index < bytes.len() as u64 {
                out.push(SPACE);
                push_hex(out, bytes[index as usize] as u64, 2);
            } else {
                out.push(SPACE);
                out.push(SPACE);
                out.push(SPACE);
            }
            byte += 1;
            assert(out@ =~= cells + hex_cell(bytes@, index as int));
            assert(out@ =~= done + hex_cells(bytes@, first as int, byte as nat));
        }
        out.push(SPACE);
        group += 1;
        assert(out@ =~= before + hex_groups(bytes@, per_group as nat, group as nat));
    }
}

/// Appends what shows for the first `count` bytes of a row in the panel of
/// characters.
fn push_char_cells(out: &mut Vec<u8>, bytes: &[u8], blank: &[u8], count: u32)
    ensures
        final(out)@ == old(out)@ + char_cells(bytes@, blank@, count as nat),
{
    let ghost before = out@;
    let mut index: u32 = 0;
    assert(out@ =~= before + char_cells(bytes@, blank@, 0));
    while index < count
        invariant
            index <= count,
            out@ == before + char_cells(bytes@, blank@, index as nat),
        decreases count - index,
    {
        let ghost cells = out@;
        if (index as u64) < bytes.len() as u64 {
            let byte: u8 = bytes[index as usize];
            if 0x20 <= byte && byte <= 0x7e {
                out.push(byte);
            } else {
                out.extend_from_slice(blank);
            }
        } else {
            out.push(SPACE);
        }
        assert(out@ =~= cells + char_cell(bytes@, index as int, blank@));
        index += 1;
        assert(out@ =~= before + char_cells(bytes@, blank@, index as nat));
    }
}

/// The text of the row whose first byte is at `offset` in the file and
/// whose bytes are `bytes`: see [`row_text`].
pub fn row_line(offset: u64, bytes: &[u8], per_group: u16, groups: u16, blank: &[u8]) -> (r: Vec<
    u8,
>)
    ensures
        r@ == row_text(offset as nat, bytes@, per_group as nat, groups as nat, blank@),
{
    let mut out: Vec<u8> = Vec::new();
    push_hex(&mut out, offset, 8);
    out.push(COLON);
    out.push(SPACE);
    push_hex_groups(&mut out, bytes, per_group, groups);
    out.push(BAR);
    assert(per_group * groups <= 0xffff * 0xffff) by (nonlinear_arith)
        requires
            per_group <= 0xffff,
            groups <= 0xffff,
    ;
    push_char_cells(&mut out, bytes, blank, per_group as u32 * groups as u32);
    out.push(BAR);
    assert(out@ =~= row_text(offset as nat, bytes@, per_group as nat, groups as nat, blank@));
    out
}

/// The text of the header: see [`header_text`].
pub fn header_line(per_group: u16, groups: u16) -> (r: Vec<u8>)
    ensures
        r@ == header_text(per_group as nat, groups as nat),
{
    assert(per_group * groups <= 0xffff * 0xffff) by (nonlinear_arith)
        requires
            per_group <= 0xffff,
            groups <= 0xffff,
    ;
    let count: u32 = per_group as u32 * groups as u32;
    let mut indices: Vec<u8> = Vec::new();
    let mut index: u32 = 0;
    while index < count
        invariant
            index <= count,
            indices@ == labels(index as nat),
        decreases count - index,
    {
        indices.push((index % 256) as u8);
        index += 1;
        assert(indices@ =~= labels(index as nat));
    }
    let mut out: Vec<u8> = Vec::new();
    let mut spaces: usize = 0;
    while spaces < 10
        invariant
            spaces <= 10,
            out@ == Seq::new(spaces as nat, |i: int| SPACE),
        decreases 10 - spaces,
    {
        out.push(SPACE);
        spaces += 1;
        assert(out@ =~= Seq::new(spaces as nat, |i: int| SPACE));
    }
    push_hex_groups(&mut out, indices.as_slice(), per_group, groups);
    out.push(SPACE);
    out.push(0x41);
    out.push(0x53);
    out.push(0x43);
    out.push(0x49);
    out.push(0x49);
    assert(out@ =~= header_text(per_group as nat, groups as nat));
    out
}

} // verus!
