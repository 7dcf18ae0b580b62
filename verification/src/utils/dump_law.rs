//! Reading a dump back gives the bytes that were dumped.
use vstd::prelude::*;

use crate::utils::hexdump::{
    spec_ascii_codes, spec_hex_decode, spec_hex_lower_min, spec_hex_upper, spec_hex_value,
    spec_is_hex, spec_is_hex_byte, spec_is_hex_char, spec_lower_digit, spec_upper_digit,
    spec_without_spaces, spec_dump_cell, spec_dump_cells, spec_dump_chars, spec_dump_line,
    spec_dump_text, spec_dump_text_char, spec_is_dump_line, spec_line_digits, spec_is_white_space,
    spec_line_readable, spec_line_bytes, spec_dump_lines, spec_dump, spec_lines, spec_lines_from,
    spec_strip_cr, spec_lines_bytes, spec_lines_readable, spec_undump, lemma_lines_bytes_cons,
};

verus! {

// ----------------------------------------------------------------------------
// Spaces

/// Dropping spaces distributes over concatenation.
proof fn lemma_without_spaces_concat(a: Seq<char>, b: Seq<char>)
    ensures
        spec_without_spaces(a + b) == spec_without_spaces(a) + spec_without_spaces(b),
    decreases b.len(),
{
    if b.len() == 0 {
        assert(a + b =~= a);
        assert(spec_without_spaces(a) + Seq::<char>::empty() =~= spec_without_spaces(a));
    } else {
        lemma_without_spaces_concat(a, b.drop_last());
        assert((a + b).drop_last() =~= a + b.drop_last());
        assert((a + b).last() == b.last());
        if b.last() == ' ' {
        } else {
            assert(spec_without_spaces(a) + spec_without_spaces(b.drop_last()).push(b.last())
                =~= (spec_without_spaces(a) + spec_without_spaces(b.drop_last())).push(b.last()));
        }
    }
}

/// A text without spaces keeps all of it.
proof fn lemma_without_spaces_none(s: Seq<char>)
    requires
        forall|i: int| 0 <= i < s.len() ==> #[trigger] s[i] != ' ',
    ensures
        spec_without_spaces(s) == s,
    decreases s.len(),
{
    if s.len() > 0 {
        lemma_without_spaces_none(s.drop_last());
        assert(s.drop_last().push(s.last()) =~= s);
    }
}

/// A text of spaces keeps none of it.
proof fn lemma_without_spaces_all(s: Seq<char>)
    requires
        forall|i: int| 0 <= i < s.len() ==> #[trigger] s[i] == ' ',
    ensures
        spec_without_spaces(s) == Seq::<char>::empty(),
    decreases s.len(),
{
    if s.len() > 0 {
        lemma_without_spaces_all(s.drop_last());
    }
}

// ----------------------------------------------------------------------------
// Hex digits

/// An uppercase digit is a hex digit whose ASCII code has the digit's value.
proof fn lemma_upper_digit(v: int)
    requires
        0 <= v < 16,
    ensures
        spec_is_hex_char(spec_upper_digit(v)),
        spec_upper_digit(v) != ' ',
        spec_is_hex_byte((spec_upper_digit(v) as u32) as u8),
        spec_hex_value((spec_upper_digit(v) as u32) as u8) == v,
{
    if v < 10 {
        let b = (v + 0x30) as u8;
        assert(b as int == v + 0x30);
        assert(((b as char) as u32) as u8 == b);
    } else {
        let b = (v - 10 + 0x41) as u8;
        assert(b as int == v - 10 + 0x41);
        assert(((b as char) as u32) as u8 == b);
    }
}

/// A lowercase digit is a hex digit.
proof fn lemma_lower_digit(v: int)
    requires
        0 <= v < 16,
    ensures
        spec_is_hex_char(spec_lower_digit(v)),
        spec_lower_digit(v) != ' ',
        spec_lower_digit(v) != '\n',
{
    if v < 10 {
        let b = (v + 0x30) as u8;
        assert(b as int == v + 0x30);
    } else {
        let b = (v - 10 + 0x61) as u8;
        assert(b as int == v - 10 + 0x61);
    }
}

/// Sixteen to the power `w`.
pub open spec fn spec_pow16(w: nat) -> nat
    decreases w,
{
    if w == 0 {
        1
    } else {
        16 * spec_pow16((w - 1) as nat)
    }
}

/// A number below `16^w` takes exactly `w` digits, all hex digits.
proof fn lemma_offset_digits(v: nat, w: nat)
    requires
        v < spec_pow16(w),
    ensures
        spec_hex_lower_min(v, w).len() == w,
        forall|i: int|
            0 <= i < w ==> spec_is_hex_char(#[trigger] spec_hex_lower_min(v, w)[i])
                && spec_hex_lower_min(v, w)[i] != ' ' && spec_hex_lower_min(v, w)[i] != '\n',
    decreases w,
{
    if w == 0 {
        assert(v == 0);
    } else {
        assert(v / 16 < spec_pow16((w - 1) as nat));
        lemma_offset_digits(v / 16, (w - 1) as nat);
        lemma_lower_digit((v % 16) as int);
    }
}

/// The hex digits of bytes decode to the bytes.
proof fn lemma_hex_upper_decodes(bytes: Seq<u8>)
    ensures
        spec_is_hex(spec_ascii_codes(spec_hex_upper(bytes))),
        spec_hex_decode(spec_ascii_codes(spec_hex_upper(bytes))) == bytes,
        forall|i: int|
            0 <= i < spec_hex_upper(bytes).len() ==> spec_is_hex_char(#[trigger] spec_hex_upper(bytes)[i])
                && spec_hex_upper(bytes)[i] != ' ',
{
    let chars = spec_hex_upper(bytes);
    let codes = spec_ascii_codes(chars);
    assert forall|i: int| 0 <= i < chars.len() implies spec_is_hex_char(#[trigger] chars[i]) && chars[i]
        != ' ' && spec_is_hex_byte(codes[i]) && spec_hex_value(codes[i]) == (if i % 2 == 0 {
        bytes[i / 2] / 16
    } else {
        bytes[i / 2] % 16
    }) by {
        if i % 2 == 0 {
            lemma_upper_digit((bytes[i / 2] / 16) as int);
        } else {
            lemma_upper_digit((bytes[i / 2] % 16) as int);
        }
    }
    assert forall|i: int| 0 <= i < codes.len() implies spec_is_hex_byte(#[trigger] codes[i]) by {
        assert(chars[i] != ' ');
    }
    assert forall|k: int| 0 <= k < bytes.len() implies #[trigger] spec_hex_decode(codes)[k] == bytes[k] by {
        assert(chars[2 * k] == spec_upper_digit((bytes[k] / 16) as int));
        assert(chars[2 * k + 1] == spec_upper_digit((bytes[k] % 16) as int));
        lemma_upper_digit((bytes[k] / 16) as int);
        lemma_upper_digit((bytes[k] % 16) as int);
        assert((bytes[k] / 16) * 16 + bytes[k] % 16 == bytes[k]);
    }
    assert(spec_hex_decode(codes) =~= bytes);
}

// ----------------------------------------------------------------------------
// The byte columns of a line

/// A character of the hex column of a dump: a hex digit or a space.
pub open spec fn spec_column_char(c: char) -> bool {
    c == ' ' || spec_is_hex_char(c)
}

/// The first `k` byte columns of a line: their length, what they keep
/// without spaces, and their characters.
proof fn lemma_cells(chars: Seq<char>, start: int, k: nat)
    requires
        0 <= start,
        start + 2 * k <= chars.len(),
        k <= 16,
        forall|m: int| start <= m < start + 2 * k ==> spec_column_char(#[trigger] chars[m]),
    ensures
        spec_dump_cells(chars, start, k).len() == 3 * k + (if k >= 8 { 1int } else { 0int }) + (if k
            >= 16 { 1int } else { 0int }),
        spec_without_spaces(spec_dump_cells(chars, start, k)) == spec_without_spaces(
            chars.subrange(start, start + 2 * k),
        ),
        forall|j: int|
            0 <= j < spec_dump_cells(chars, start, k).len() ==> spec_column_char(
                #[trigger] spec_dump_cells(chars, start, k)[j],
            ),
        k > 0 ==> spec_dump_cells(chars, start, k)[0] == ' ',
        k == 16 ==> spec_dump_cells(chars, start, k).last() == ' ',
    decreases k,
{
    if k == 0 {
        assert(chars.subrange(start, start) =~= Seq::<char>::empty());
    } else {
        let j = (k - 1) as nat;
        lemma_cells(chars, start, j);
        let before = spec_dump_cells(chars, start, j);
        let cell = spec_dump_cell(chars, start, j as int);
        let pair = chars.subrange(start + 2 * j, start + 2 * k);
        assert(pair =~= seq![chars[start + 2 * j], chars[start + 2 * j + 1]]);
        lemma_without_spaces_concat(before, cell);
        assert(chars.subrange(start, start + 2 * k) =~= chars.subrange(start, start + 2 * j) + pair);
        lemma_without_spaces_concat(chars.subrange(start, start + 2 * j), pair);
        if j == 7 || j == 15 {
            assert(cell =~= seq![' '] + pair + seq![' ']);
            lemma_without_spaces_concat(seq![' '] + pair, seq![' ']);
            lemma_without_spaces_concat(seq![' '], pair);
            lemma_without_spaces_all(seq![' ']);
            assert(spec_without_spaces(pair) + Seq::<char>::empty() =~= spec_without_spaces(pair));
        } else {
            assert(cell =~= seq![' '] + pair);
            lemma_without_spaces_concat(seq![' '], pair);
            lemma_without_spaces_all(seq![' ']);
        }
        assert(Seq::<char>::empty() + spec_without_spaces(pair) =~= spec_without_spaces(pair));
        assert(spec_column_char(chars[start + 2 * j]));
        assert(spec_column_char(chars[start + 2 * j + 1]));
        assert forall|m: int| 0 <= m < (before + cell).len() implies spec_column_char(
            #[trigger] (before + cell)[m],
        ) by {
            if m >= before.len() {
                assert((before + cell)[m] == cell[m - before.len()]);
            }
        }
        if j == 0 {
            assert(before.len() == 0);
            assert((before + cell)[0] == cell[0]);
        } else {
            assert((before + cell)[0] == before[0]);
        }
    }
}

// ----------------------------------------------------------------------------
// Lines

/// The number of lines of the dump of `data`.
pub open spec fn spec_dump_line_count(data: Seq<u8>) -> nat {
    spec_dump_chars(data).len() / 32
}

/// The bytes that line `line` of a dump shows: sixteen, or fewer on the
/// last line.
pub open spec fn spec_chunk(data: Seq<u8>, line: int) -> Seq<u8> {
    let end = if 16 * line + 16 <= data.len() { 16 * line + 16 } else { data.len() as int };
    data.subrange(16 * line, end)
}

/// The hex characters of a dump come in whole lines, at least one, of hex
/// digits and padding spaces; every line shows at least one byte, but for
/// the one line of an empty dump.
proof fn lemma_dump_chars_shape(data: Seq<u8>)
    ensures
        spec_dump_chars(data).len() % 32 == 0,
        spec_dump_chars(data).len() >= 32,
        forall|i: int|
            0 <= i < spec_dump_chars(data).len() ==> spec_column_char(#[trigger] spec_dump_chars(data)[i]),
{
    let c = spec_dump_chars(data);
    lemma_hex_upper_decodes(data);
    let d: int = if data.len() == 0 { 1 } else { 2 * data.len() as int };
    assert(c.len() == ((d + 31) / 32) * 32);
    assert(((d + 31) / 32) * 32 % 32 == 0) by (nonlinear_arith)
        requires
            d >= 1,
    ;
    assert(((d + 31) / 32) * 32 >= 32) by (nonlinear_arith)
        requires
            d >= 1,
    ;
    assert forall|i: int| 0 <= i < c.len() implies spec_column_char(#[trigger] c[i]) by {
        if data.len() > 0 && i < 2 * data.len() {
            assert(spec_is_hex_char(spec_hex_upper(data)[i]));
        }
    }
}

/// Every line of a dump shows at least one byte, but for the one line of an
/// empty dump.
proof fn lemma_line_shows_bytes(data: Seq<u8>, line: int)
    requires
        0 <= line < spec_dump_line_count(data),
    ensures
        16 * line < data.len() || (data.len() == 0 && line == 0),
{
    let d: int = if data.len() == 0 { 1 } else { 2 * data.len() as int };
    assert(spec_dump_chars(data).len() == ((d + 31) / 32) * 32);
    assert(line < (d + 31) / 32) by (nonlinear_arith)
        requires
            line < (((d + 31) / 32) * 32) / 32,
            d >= 1,
    ;
    assert(32 * line < d) by (nonlinear_arith)
        requires
            line < (d + 31) / 32,
            line >= 0,
            d >= 1,
    ;
}

/// The hex characters of line `line` are its bytes' digits, then spaces.
proof fn lemma_line_chars(data: Seq<u8>, line: int)
    requires
        0 <= line,
        16 * line < data.len(),
        32 * line + 32 <= spec_dump_chars(data).len(),
    ensures
        spec_dump_chars(data).subrange(32 * line, 32 * line + 32) == spec_hex_upper(
            spec_chunk(data, line),
        ) + Seq::new((32 - 2 * spec_chunk(data, line).len()) as nat, |i: int| ' '),
{
    let c = spec_dump_chars(data);
    let chunk = spec_chunk(data, line);
    let n = 2 * chunk.len();
    let part = c.subrange(32 * line, 32 * line + 32);
    let expected = spec_hex_upper(chunk) + Seq::new((32 - n) as nat, |i: int| ' ');
    assert forall|m: int| 0 <= m < 32 implies #[trigger] part[m] == expected[m] by {
        if m < n {
            assert((32 * line + m) / 2 == 16 * line + m / 2);
            assert((32 * line + m) % 2 == m % 2);
        }
    }
    assert(part =~= expected);
}

/// The digits of line `line`, without spaces, are those of its bytes.
proof fn lemma_line_digits(data: Seq<u8>, line: int)
    requires
        0 <= line < spec_dump_line_count(data),
    ensures
        spec_without_spaces(spec_dump_chars(data).subrange(32 * line, 32 * line + 32))
            == spec_hex_upper(spec_chunk(data, line)),
{
    lemma_dump_chars_shape(data);
    let c = spec_dump_chars(data);
    let chunk = spec_chunk(data, line);
    assert(32 * line + 32 <= c.len()) by (nonlinear_arith)
        requires
            line < c.len() / 32,
            c.len() % 32 == 0,
            line >= 0,
    ;
    lemma_line_shows_bytes(data, line);
    if data.len() == 0 {
        let part = c.subrange(32 * line, 32 * line + 32);
        assert forall|i: int| 0 <= i < part.len() implies #[trigger] part[i] == ' ' by {}
        lemma_without_spaces_all(part);
        assert(chunk =~= Seq::<u8>::empty());
        assert(spec_hex_upper(chunk) =~= Seq::<char>::empty());
    } else {
        assert(16 * line < data.len());
        lemma_line_chars(data, line);
        let pad = Seq::new((32 - 2 * chunk.len()) as nat, |i: int| ' ');
        lemma_without_spaces_all(pad);
        lemma_without_spaces_concat(spec_hex_upper(chunk), pad);
        lemma_hex_upper_decodes(chunk);
        lemma_without_spaces_none(spec_hex_upper(chunk));
        assert(spec_hex_upper(chunk) + Seq::<char>::empty() =~= spec_hex_upper(chunk));
    }
}

/// Line `line` of a dump, without its newline.
pub open spec fn spec_line_text(data: Seq<u8>, line: int) -> Seq<char> {
    spec_dump_line(data, line).drop_last()
}

/// The text column shows no newline and no carriage return.
proof fn lemma_dump_text(data: Seq<u8>, line: int)
    ensures
        spec_dump_text(data, line).len() == 16,
        forall|k: int|
            0 <= k < 16 ==> #[trigger] spec_dump_text(data, line)[k] != '\n' && spec_dump_text(
                data,
                line,
            )[k] != '\r',
{
    assert forall|k: int| 0 <= k < 16 implies #[trigger] spec_dump_text(data, line)[k] != '\n'
        && spec_dump_text(data, line)[k] != '\r' by {
        if 16 * line + k < data.len() {
            let b = data[16 * line + k];
            if 0x20 <= b <= 0x7E && b != 0x5C && b != 0x34 {
                assert((b as char) as u32 == b as u32);
            }
        }
    }
}

/// Line `line` of a dump, for data of at most 2^32 bytes: 78 characters and
/// a newline, a dump line that reads back as the bytes it shows.
proof fn lemma_dump_line(data: Seq<u8>, line: int)
    requires
        0 <= line < spec_dump_line_count(data),
        16 * line < spec_pow16(8),
    ensures
        spec_dump_line(data, line) == spec_line_text(data, line).push('\n'),
        spec_line_text(data, line).len() == 78,
        forall|j: int| 0 <= j < 78 ==> #[trigger] spec_line_text(data, line)[j] != '\n',
        spec_line_text(data, line).last() != '\r',
        spec_is_dump_line(spec_line_text(data, line)),
        spec_line_readable(spec_line_text(data, line)),
        spec_line_bytes(spec_line_text(data, line)) == spec_chunk(data, line),
{
    let chars = spec_dump_chars(data);
    lemma_dump_chars_shape(data);
    assert(32 * line + 32 <= chars.len()) by (nonlinear_arith)
        requires
            line < chars.len() / 32,
            chars.len() % 32 == 0,
            line >= 0,
    ;
    let off = spec_hex_lower_min((16 * line) as nat, 8);
    lemma_offset_digits((16 * line) as nat, 8);
    let cells = spec_dump_cells(chars, 32 * line, 16);
    lemma_cells(chars, 32 * line, 16);
    let text = spec_dump_text(data, line);
    lemma_dump_text(data, line);
    let t = off + seq![' ', ' '] + cells + seq![' ', ' '] + text;
    assert(spec_dump_line(data, line) == t + seq!['\n']);
    assert((t + seq!['\n']).drop_last() =~= t);
    assert(t + seq!['\n'] =~= t.push('\n'));
    assert(t.len() == 78);
    assert forall|j: int| 0 <= j < 78 implies #[trigger] t[j] != '\n' by {
        if j < 8 {
            assert(t[j] == off[j]);
        } else if j < 10 {
        } else if j < 60 {
            assert(t[j] == cells[j - 10]);
        } else if j < 62 {
        } else {
            assert(t[j] == text[j - 62]);
        }
    }
    assert(t.last() == text[15]);
    assert forall|k: int| 0 <= k < 8 implies spec_is_hex_char(#[trigger] t[k]) by {
        assert(t[k] == off[k]);
    }
    assert forall|k: int| 8 <= k < 11 implies spec_is_white_space(#[trigger] t[k]) by {
        if k == 10 {
            assert(t[k] == cells[0]);
        }
    }
    assert forall|k: int| 11 <= k < 59 implies spec_is_hex_char(#[trigger] t[k]) || spec_is_white_space(
        t[k],
    ) by {
        assert(t[k] == cells[k - 10]);
        assert(spec_column_char(cells[k - 10]));
    }
    assert forall|k: int| 59 <= k < 62 implies spec_is_white_space(#[trigger] t[k]) by {
        if k == 59 {
            assert(t[k] == cells[49]);
        }
    }
    assert forall|k: int| 62 <= k < t.len() implies #[trigger] t[k] != '\n' by {}
    assert(spec_is_dump_line(t));
    let mid = cells.subrange(1, 49);
    assert(t.subrange(11, 59) =~= mid);
    assert(cells =~= cells.subrange(0, 1) + mid + cells.subrange(49, 50));
    lemma_without_spaces_concat(cells.subrange(0, 1) + mid, cells.subrange(49, 50));
    lemma_without_spaces_concat(cells.subrange(0, 1), mid);
    assert(cells.subrange(0, 1) =~= seq![' ']);
    assert(cells.subrange(49, 50) =~= seq![' ']);
    lemma_without_spaces_all(seq![' ']);
    assert(Seq::<char>::empty() + spec_without_spaces(mid) + Seq::<char>::empty() =~= spec_without_spaces(mid));
    lemma_line_digits(data, line);
    let chunk = spec_chunk(data, line);
    assert(spec_line_digits(t) == spec_hex_upper(chunk));
    lemma_hex_upper_decodes(chunk);
    assert(spec_hex_upper(chunk).len() % 2 == 0);
}

// ----------------------------------------------------------------------------
// The whole dump

/// A line of `text` at `pos`, up to a newline, is the next line.
proof fn lemma_lines_from_segment(text: Seq<char>, pos: int, line: Seq<char>, j: int)
    requires
        0 <= pos,
        0 <= j <= line.len(),
        pos + line.len() < text.len(),
        text.subrange(pos, pos + line.len()) == line,
        forall|k: int| 0 <= k < line.len() ==> #[trigger] line[k] != '\n',
        text[pos + line.len()] == '\n',
    ensures
        spec_lines_from(text, pos + j, line.take(j)) == seq![spec_strip_cr(line)] + spec_lines_from(
            text,
            pos + line.len() + 1,
            Seq::empty(),
        ),
    decreases line.len() - j,
{
    if j == line.len() {
        assert(line.take(j) =~= line);
    } else {
        assert(text[pos + j] == line[j]);
        assert(line.take(j).push(line[j]) =~= line.take(j + 1));
        lemma_lines_from_segment(text, pos, line, j + 1);
    }
}

/// The dump's lines follow one another, 79 characters each.
proof fn lemma_dump_lines_layout(data: Seq<u8>, n: nat)
    requires
        n <= spec_dump_line_count(data),
        n == 0 || 16 * (n - 1) < spec_pow16(8),
    ensures
        spec_dump_lines(data, n).len() == 79 * n,
        forall|i: int|
            0 <= i < n ==> #[trigger] spec_dump_lines(data, n).subrange(79 * i, 79 * i + 79)
                == spec_dump_line(data, i),
    decreases n,
{
    if n > 0 {
        let m = (n - 1) as nat;
        lemma_dump_lines_layout(data, m);
        lemma_dump_line(data, m as int);
        let before = spec_dump_lines(data, m);
        let last = spec_dump_line(data, m as int);
        assert(spec_dump_lines(data, n) == before + last);
        assert forall|i: int| 0 <= i < n implies #[trigger] spec_dump_lines(data, n).subrange(
            79 * i,
            79 * i + 79,
        ) == spec_dump_line(data, i) by {
            if i < m {
                assert(spec_dump_lines(data, n).subrange(79 * i, 79 * i + 79) =~= before.subrange(
                    79 * i,
                    79 * i + 79,
                ));
            } else {
                assert(spec_dump_lines(data, n).subrange(79 * i, 79 * i + 79) =~= last);
            }
        }
    }
}

/// The lines of a dump from line `i` on.
proof fn lemma_lines_of_dump(data: Seq<u8>, i: nat)
    requires
        i <= spec_dump_line_count(data),
        spec_dump_line_count(data) == 0 || 16 * (spec_dump_line_count(data) - 1) < spec_pow16(8),
    ensures
        spec_lines_from(spec_dump(data), 1 + 79 * (i as int), Seq::empty()) == Seq::new(
            (spec_dump_line_count(data) - i) as nat,
            |k: int| spec_line_text(data, i + k),
        ),
    decreases spec_dump_line_count(data) - i,
{
    let n = spec_dump_line_count(data);
    let text = spec_dump(data);
    lemma_dump_lines_layout(data, n);
    assert(text.len() == 1 + 79 * n);
    if i == n {
        assert(Seq::new(0, |k: int| spec_line_text(data, i + k)) =~= Seq::<Seq<char>>::empty());
    } else {
        lemma_dump_line(data, i as int);
        let line = spec_line_text(data, i as int);
        let p: int = 1 + 79 * (i as int);
        assert(text.subrange(p, p + 79) =~= spec_dump_lines(data, n).subrange(79 * (i as int), 79 * (i as int) + 79));
        assert(text.subrange(p, p + 78) =~= line);
        assert(text[p + 78] == spec_dump_line(data, i as int)[78]);
        lemma_lines_from_segment(text, p, line, 0);
        assert(line.take(0) =~= Seq::<char>::empty());
        lemma_lines_of_dump(data, i + 1);
        assert(1 + 79 * i + 78 + 1 == 1 + 79 * (i + 1));
        assert(spec_strip_cr(line) == line);
        assert(seq![line] + Seq::new((n - i - 1) as nat, |k: int| spec_line_text(data, i + 1 + k))
            =~= Seq::new((n - i) as nat, |k: int| spec_line_text(data, i + k)));
    }
}

/// The bytes of the dump's lines from line `i` on: the data from byte
/// `16 * i` on.
proof fn lemma_bytes_of_dump(data: Seq<u8>, i: nat)
    requires
        i <= spec_dump_line_count(data),
        spec_dump_line_count(data) == 0 || 16 * (spec_dump_line_count(data) - 1) < spec_pow16(8),
    ensures
        spec_lines_readable(
            Seq::new((spec_dump_line_count(data) - i) as nat, |k: int| spec_line_text(data, i + k)),
        ),
        spec_lines_bytes(
            Seq::new((spec_dump_line_count(data) - i) as nat, |k: int| spec_line_text(data, i + k)),
        ) == data.subrange(if 16 * i <= data.len() { 16 * i as int } else { data.len() as int }, data.len() as int),
    decreases spec_dump_line_count(data) - i,
{
    let n = spec_dump_line_count(data);
    let lines = Seq::new((n - i) as nat, |k: int| spec_line_text(data, i + k));
    lemma_dump_chars_shape(data);
    if i == n {
        assert(16 * n >= data.len()) by (nonlinear_arith)
            requires
                n == spec_dump_chars(data).len() / 32,
                spec_dump_chars(data).len() % 32 == 0,
                spec_dump_chars(data).len() >= 2 * data.len(),
        ;
        assert(data.subrange(data.len() as int, data.len() as int) =~= Seq::<u8>::empty());
    } else {
        lemma_dump_line(data, i as int);
        lemma_line_shows_bytes(data, i as int);
        lemma_bytes_of_dump(data, i + 1);
        let rest = Seq::new((n - i - 1) as nat, |k: int| spec_line_text(data, i + 1 + k));
        assert(lines =~= seq![spec_line_text(data, i as int)] + rest);
        lemma_lines_bytes_cons(spec_line_text(data, i as int), rest);
        assert forall|k: int| 0 <= k < lines.len() implies spec_line_readable(#[trigger] lines[k]) by {
            if k > 0 {
                assert(lines[k] == rest[k - 1]);
            }
        }
        let chunk = spec_chunk(data, i as int);
        let start: int = 16 * (i as int);
        let next: int = if 16 * (i + 1) <= data.len() { 16 * (i + 1) as int } else { data.len() as int };
        assert(data.subrange(start as int, data.len() as int) =~= chunk + data.subrange(next, data.len() as int));
    }
}

/// Reading a dump back gives the bytes that were dumped, for data of at most
/// 2^32 bytes (whose offsets take eight hex digits); and a dump can always be
/// read back.
pub proof fn lemma_dump_reads_back(data: Seq<u8>)
    requires
        data.len() <= 0x1_0000_0000,
    ensures
        spec_lines_readable(spec_lines(spec_dump(data))),
        spec_undump(spec_dump(data)) == data,
{
    reveal_with_fuel(spec_pow16, 9);
    assert(spec_pow16(8) == 0x1_0000_0000);
    let n = spec_dump_line_count(data);
    if n > 0 {
        lemma_line_shows_bytes(data, n - 1);
    }
    let text = spec_dump(data);
    lemma_lines_of_dump(data, 0);
    lemma_bytes_of_dump(data, 0);
    let lines = Seq::new(n, |k: int| spec_line_text(data, 0 + k));
    assert(text[0] == '\n');
    assert(spec_lines(text) == seq![spec_strip_cr(Seq::<char>::empty())] + spec_lines_from(
        text,
        1,
        Seq::empty(),
    ));
    assert(spec_strip_cr(Seq::<char>::empty()) =~= Seq::<char>::empty());
    assert(Seq::new((n - 0) as nat, |k: int| spec_line_text(data, 0 + k)) =~= lines);
    lemma_lines_bytes_cons(Seq::<char>::empty(), lines);
    assert(!spec_is_dump_line(Seq::<char>::empty()));
    assert(Seq::<u8>::empty() + spec_lines_bytes(lines) =~= spec_lines_bytes(lines));
    assert(data.subrange(0, data.len() as int) =~= data);
    let all = seq![Seq::<char>::empty()] + lines;
    assert forall|k: int| 0 <= k < all.len() implies spec_line_readable(#[trigger] all[k]) by {
        if k > 0 {
            assert(all[k] == lines[k - 1]);
        }
    }
}

} // verus!
