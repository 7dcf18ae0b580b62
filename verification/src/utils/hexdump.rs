//! Hexdumps: reading bytes back from a dump, and dumping bytes.
//!
//! A dump line is an eight-digit offset, three spaces, the bytes as 48
//! characters of hex pairs and spaces, three spaces, and the bytes as text:
//!
//! ```text
//! 00000000   01 00 00 00 00 00 00 00  00 00 00 00 00 00 00 00   ................
//! ```
use vstd::prelude::*;

use crate::utils::text::{str_chars, string_push};

verus! {

// ----------------------------------------------------------------------------
// Hex digits

/// `c` is a hexadecimal digit, in either case.
pub open spec fn spec_is_hex_char(c: char) -> bool {
    ('0' <= c <= '9') || ('a' <= c <= 'f') || ('A' <= c <= 'F')
}

/// `b` is the ASCII code of a hexadecimal digit, in either case.
pub open spec fn spec_is_hex_byte(b: u8) -> bool {
    (0x30 <= b <= 0x39) || (0x61 <= b <= 0x66) || (0x41 <= b <= 0x46)
}

/// The value of the hexadecimal digit whose ASCII code is `b`.
pub open spec fn spec_hex_value(b: u8) -> int {
    if 0x30 <= b <= 0x39 {
        b - 0x30
    } else if 0x61 <= b <= 0x66 {
        b - 0x61 + 10
    } else {
        b - 0x41 + 10
    }
}

/// `text` is hexadecimal: an even number of hex digits.
pub open spec fn spec_is_hex(text: Seq<u8>) -> bool {
    &&& text.len() % 2 == 0
    &&& forall|i: int| 0 <= i < text.len() ==> spec_is_hex_byte(#[trigger] text[i])
}

/// The bytes that the hex digit pairs of `text` stand for, high digit first.
pub open spec fn spec_hex_decode(text: Seq<u8>) -> Seq<u8> {
    Seq::new(
        text.len() / 2,
        |i: int| (spec_hex_value(text[2 * i]) * 16 + spec_hex_value(text[2 * i + 1])) as u8,
    )
}

/// The uppercase hexadecimal digit of `v` (below 16).
pub open spec fn spec_upper_digit(v: int) -> char {
    if v < 10 {
        ((v + 0x30) as u8) as char
    } else {
        ((v - 10 + 0x41) as u8) as char
    }
}

/// The lowercase hexadecimal digit of `v` (below 16).
pub open spec fn spec_lower_digit(v: int) -> char {
    if v < 10 {
        ((v + 0x30) as u8) as char
    } else {
        ((v - 10 + 0x61) as u8) as char
    }
}

/// `data` in uppercase hexadecimal: two digits per byte, high digit first.
pub open spec fn spec_hex_upper(data: Seq<u8>) -> Seq<char> {
    Seq::new(
        2 * data.len(),
        |i: int|
            if i % 2 == 0 {
                spec_upper_digit((data[i / 2] / 16) as int)
            } else {
                spec_upper_digit((data[i / 2] % 16) as int)
            },
    )
}

/// `v` in lowercase hexadecimal, padded with zeros to at least `width` digits.
pub open spec fn spec_hex_lower_min(v: nat, width: nat) -> Seq<char>
    decreases v + width,
{
    if v == 0 && width == 0 {
        Seq::empty()
    } else {
        spec_hex_lower_min(v / 16, if width > 0 { (width - 1) as nat } else { 0 }).push(
            spec_lower_digit((v % 16) as int),
        )
    }
}

/// `hex::encode_upper`: `data` in uppercase hexadecimal.
#[verifier::external_body]
fn hex_encode_upper(data: &[u8]) -> (s: String)
    ensures
        s@ == spec_hex_upper(data@),
{
    hex::encode_upper(data)
}

/// `hex::decode`: the bytes of a hexadecimal text, or `None` when the text
/// has an odd length or a character that is no hex digit.
#[verifier::external_body]
fn hex_decode(text: &[u8]) -> (r: Option<Vec<u8>>)
    ensures
        r is Some <==> spec_is_hex(text@),
        r matches Some(v) ==> v@ == spec_hex_decode(text@),
{
    hex::decode(text).ok()
}

fn upper_digit(v: u8) -> (c: char)
    requires
        v < 16,
    ensures
        c == spec_upper_digit(v as int),
{
    if v < 10 {
        (v + 0x30) as char
    } else {
        (v - 10 + 0x41) as char
    }
}

fn lower_digit(v: u64) -> (c: char)
    requires
        v < 16,
    ensures
        c == spec_lower_digit(v as int),
{
    let b = v as u8;
    if b < 10 {
        (b + 0x30) as char
    } else {
        (b - 10 + 0x61) as char
    }
}

// ----------------------------------------------------------------------------
// Dumping

/// The number of hex characters on a dump line.
pub const LINE_HEX_CHARS: usize = 32;

/// The hex characters of a dump of `data`: its uppercase hex digits (one space
/// when there are none), padded with spaces to whole lines.
pub open spec fn spec_dump_chars(data: Seq<u8>) -> Seq<char> {
    let digits = if data.len() == 0 {
        seq![' ']
    } else {
        spec_hex_upper(data)
    };
    let total = ((digits.len() + 31) / 32) * 32;
    Seq::new(total as nat, |i: int| if i < digits.len() { digits[i] } else { ' ' })
}

/// The text form of byte `b` in a dump: the character itself when it is
/// printable ASCII other than `\` and `4`, else `.`.
pub open spec fn spec_dump_text_char(b: u8) -> char {
    if 0x20 <= b <= 0x7E && b != 0x5C && b != 0x34 {
        b as char
    } else {
        '.'
    }
}

/// The column of byte `k` (0 to 15) of a line whose hex characters start at
/// `start` in `chars`: a space, its two hex characters, and one more space
/// after the eighth and the sixteenth byte.
pub open spec fn spec_dump_cell(chars: Seq<char>, start: int, k: int) -> Seq<char> {
    let cell = seq![' ', chars[start + 2 * k], chars[start + 2 * k + 1]];
    if k == 7 || k == 15 {
        cell.push(' ')
    } else {
        cell
    }
}

/// The columns of the first `k` bytes of a line.
pub open spec fn spec_dump_cells(chars: Seq<char>, start: int, k: nat) -> Seq<char>
    decreases k,
{
    if k == 0 {
        Seq::empty()
    } else {
        spec_dump_cells(chars, start, (k - 1) as nat) + spec_dump_cell(chars, start, k - 1)
    }
}

/// The text column of line `line`: one character per byte, a space past the
/// end of the data.
pub open spec fn spec_dump_text(data: Seq<u8>, line: int) -> Seq<char> {
    Seq::new(
        16,
        |k: int|
            if 16 * line + k < data.len() {
                spec_dump_text_char(data[16 * line + k])
            } else {
                ' '
            },
    )
}

/// Line `line` of a dump: the offset of its first byte in lowercase hex (at
/// least eight digits), two spaces, the sixteen byte columns, two spaces,
/// the text column and a newline.
pub open spec fn spec_dump_line(data: Seq<u8>, line: int) -> Seq<char> {
    spec_hex_lower_min((16 * line) as nat, 8) + seq![' ', ' '] + spec_dump_cells(
        spec_dump_chars(data),
        32 * line,
        16,
    ) + seq![' ', ' '] + spec_dump_text(data, line) + seq!['\n']
}

/// The first `n` lines of a dump.
pub open spec fn spec_dump_lines(data: Seq<u8>, n: nat) -> Seq<char>
    decreases n,
{
    if n == 0 {
        Seq::empty()
    } else {
        spec_dump_lines(data, (n - 1) as nat) + spec_dump_line(data, n - 1)
    }
}

/// The dump of `data`: a newline, then one line per sixteen bytes (at least
/// one line).
pub open spec fn spec_dump(data: Seq<u8>) -> Seq<char> {
    seq!['\n'] + spec_dump_lines(data, spec_dump_chars(data).len() / 32)
}

/// Appends `v` in lowercase hexadecimal with at least eight digits.
fn push_offset(s: &mut String, v: u64)
    ensures
        final(s)@ == old(s)@ + spec_hex_lower_min(v as nat, 8),
{
    let mut digits: Vec<char> = Vec::new();
    let mut x: u64 = v;
    let mut width: u64 = 8;
    while x > 0 || width > 0
        invariant
            width <= 8,
            spec_hex_lower_min(v as nat, 8) == spec_hex_lower_min(x as nat, width as nat)
                + digits@.reverse(),
        decreases x + width,
    {
        let ghost before = digits@;
        let c = lower_digit(x % 16);
        digits.push(c);
        proof {
            let w2: nat = if width > 0 { (width - 1) as nat } else { 0 };
            assert(spec_hex_lower_min(x as nat, width as nat) == spec_hex_lower_min(
                (x / 16) as nat,
                w2,
            ).push(spec_lower_digit((x % 16) as int)));
            assert(digits@.reverse() =~= seq![c] + before.reverse());
            assert(spec_hex_lower_min((x / 16) as nat, w2).push(c) + before.reverse()
                =~= spec_hex_lower_min((x / 16) as nat, w2) + (seq![c] + before.reverse()));
        }
        x = x / 16;
        if width > 0 {
            width = width - 1;
        }
    }
    let ghost start = s@;
    let ghost all = digits@.reverse();
    let mut i: usize = digits.len();
    while i > 0
        invariant
            i <= digits@.len(),
            all == digits@.reverse(),
            s@ == start + all.take((digits@.len() - i) as int),
        decreases i,
    {
        i = i - 1;
        string_push(s, digits[i]);
        assert(all[(digits@.len() - i - 1) as int] == digits@[i as int]);
        assert(all.take((digits@.len() - i) as int) =~= all.take((digits@.len() - i - 1) as int).push(
            digits@[i as int],
        ));
    }
    assert(all.take(digits@.len() as int) =~= all);
    assert(spec_hex_lower_min(0, 0) =~= Seq::<char>::empty());
    assert(Seq::<char>::empty() + all =~= all);
}

/// The dump of `data`, sixteen bytes a line.
pub fn encode(data: Vec<u8>) -> (s: String)
    ensures
        s@ == spec_dump(data@),
{
    let hex = hex_encode_upper(data.as_slice());
    let mut chars = str_chars(hex.as_str());
    if chars.len() == 0 {
        chars.push(' ');
    }
    let ghost digits = chars@;
    let pad: usize = (LINE_HEX_CHARS - chars.len() % LINE_HEX_CHARS) % LINE_HEX_CHARS;
    let mut p: usize = 0;
    while p < pad
        invariant
            p <= pad,
            chars@.len() == digits.len() + p,
            chars@.take(digits.len() as int) == digits,
            forall|i: int| digits.len() <= i < chars@.len() ==> chars@[i] == ' ',
        decreases pad - p,
    {
        chars.push(' ');
        p = p + 1;
    }
    proof {
        assert(digits =~= (if data@.len() == 0 { seq![' '] } else { spec_hex_upper(data@) }));
        assert(chars@ =~= spec_dump_chars(data@));
    }
    let lines: usize = chars.len() / LINE_HEX_CHARS;
    let mut result = String::new();
    string_push(&mut result, '\n');
    let mut line: usize = 0;
    while line < lines
        invariant
            line <= lines,
            lines == chars@.len() / 32,
            chars@ == spec_dump_chars(data@),
            result@ == seq!['\n'] + spec_dump_lines(data@, line as nat),
        decreases lines - line,
    {
        let ghost before = result@;
        assert(32 * line + 32 <= chars@.len()) by (nonlinear_arith)
            requires
                line < lines,
                lines == chars@.len() / 32,
        ;
        push_offset(&mut result, (line * 16) as u64);
        string_push(&mut result, ' ');
        string_push(&mut result, ' ');
        let ghost cells_start = result@;
        let base: usize = line * LINE_HEX_CHARS;
        let mut k: usize = 0;
        while k < 16
            invariant
                k <= 16,
                base == 32 * line,
                line < lines,
                lines == chars@.len() / 32,
                32 * line + 32 <= chars@.len(),
                result@ == cells_start + spec_dump_cells(chars@, base as int, k as nat),
            decreases 16 - k,
        {
            string_push(&mut result, ' ');
            string_push(&mut result, chars[base + 2 * k]);
            string_push(&mut result, chars[base + 2 * k + 1]);
            if k == 7 || k == 15 {
                string_push(&mut result, ' ');
            }
            assert(result@ =~= cells_start + spec_dump_cells(chars@, base as int, (k + 1) as nat));
            k = k + 1;
        }
        string_push(&mut result, ' ');
        string_push(&mut result, ' ');
        let ghost text_start = result@;
        let mut k: usize = 0;
        while k < 16
            invariant
                k <= 16,
                line < lines,
                32 * line + 32 <= chars.len(),
                result@ == text_start + spec_dump_text(data@, line as int).take(k as int),
            decreases 16 - k,
        {
            let at = line * 16 + k;
            let c = if at < data.len() {
                let b = data[at];
                if b >= 0x20 && b <= 0x7E && b != 0x5C && b != 0x34 {
                    b as char
                } else {
                    '.'
                }
            } else {
                ' '
            };
            string_push(&mut result, c);
            assert(spec_dump_text(data@, line as int).take((k + 1) as int) =~= spec_dump_text(
                data@,
                line as int,
            ).take(k as int).push(c));
            k = k + 1;
        }
        string_push(&mut result, '\n');
        proof {
            assert(spec_dump_text(data@, line as int).take(16) =~= spec_dump_text(
                data@,
                line as int,
            ));
            assert(result@ =~= before + spec_dump_line(data@, line as int));
            assert(seq!['\n'] + spec_dump_lines(data@, (line + 1) as nat) =~= seq!['\n']
                + spec_dump_lines(data@, line as nat) + spec_dump_line(data@, line as int));
        }
        line = line + 1;
    }
    result
}

// ----------------------------------------------------------------------------
// Reading a dump back

/// `c` is white space as the `\s` of a regular expression reads it: a
/// character with the Unicode `White_Space` property.
pub open spec fn spec_is_white_space(c: char) -> bool {
    ||| '\u{9}' <= c <= '\u{d}'
    ||| c == ' '
    ||| c == '\u{85}'
    ||| c == '\u{a0}'
    ||| c == '\u{1680}'
    ||| '\u{2000}' <= c <= '\u{200a}'
    ||| c == '\u{2028}'
    ||| c == '\u{2029}'
    ||| c == '\u{202f}'
    ||| c == '\u{205f}'
    ||| c == '\u{3000}'
}

/// `line` without a final carriage return.
pub open spec fn spec_strip_cr(line: Seq<char>) -> Seq<char> {
    if line.len() > 0 && line.last() == '\r' {
        line.drop_last()
    } else {
        line
    }
}

/// The lines of `text` from position `i` on, the current line having begun
/// with `current`: lines end at a newline, which a carriage return may
/// precede; a last line without a newline counts when it is not empty.
pub open spec fn spec_lines_from(text: Seq<char>, i: int, current: Seq<char>) -> Seq<Seq<char>>
    decreases text.len() - i,
{
    if i >= text.len() {
        if current.len() == 0 {
            Seq::empty()
        } else {
            seq![current]
        }
    } else if text[i] == '\n' {
        seq![spec_strip_cr(current)] + spec_lines_from(text, i + 1, Seq::empty())
    } else {
        spec_lines_from(text, i + 1, current.push(text[i]))
    }
}

/// The lines of `text`, as `str::lines` splits them.
pub open spec fn spec_lines(text: Seq<char>) -> Seq<Seq<char>> {
    spec_lines_from(text, 0, Seq::empty())
}

/// `line` is a dump line: eight hex digits, three white-space characters,
/// 48 characters that are hex digits or white space, three white-space
/// characters, and then one to sixteen characters up to the end.
pub open spec fn spec_is_dump_line(line: Seq<char>) -> bool {
    &&& 63 <= line.len() <= 78
    &&& forall|k: int| 0 <= k < 8 ==> spec_is_hex_char(#[trigger] line[k])
    &&& forall|k: int| 8 <= k < 11 ==> spec_is_white_space(#[trigger] line[k])
    &&& forall|k: int|
        11 <= k < 59 ==> spec_is_hex_char(#[trigger] line[k]) || spec_is_white_space(line[k])
    &&& forall|k: int| 59 <= k < 62 ==> spec_is_white_space(#[trigger] line[k])
    &&& forall|k: int| 62 <= k < line.len() ==> #[trigger] line[k] != '\n'
}

/// `chars` without its spaces.
pub open spec fn spec_without_spaces(chars: Seq<char>) -> Seq<char>
    decreases chars.len(),
{
    if chars.len() == 0 {
        chars
    } else if chars.last() == ' ' {
        spec_without_spaces(chars.drop_last())
    } else {
        spec_without_spaces(chars.drop_last()).push(chars.last())
    }
}

/// The hex column of a dump line without its spaces.
pub open spec fn spec_line_digits(line: Seq<char>) -> Seq<char> {
    spec_without_spaces(line.subrange(11, 59))
}

/// The ASCII codes of `chars`.
pub open spec fn spec_ascii_codes(chars: Seq<char>) -> Seq<u8> {
    chars.map_values(|c: char| (c as u32) as u8)
}

/// A dump line can be read back: its hex column, without spaces, is an even
/// number of hex digits. Lines that are no dump lines are skipped.
pub open spec fn spec_line_readable(line: Seq<char>) -> bool {
    spec_is_dump_line(line) ==> {
        let digits = spec_line_digits(line);
        &&& digits.len() % 2 == 0
        &&& forall|i: int| 0 <= i < digits.len() ==> spec_is_hex_char(#[trigger] digits[i])
    }
}

/// Every line of a dump can be read back.
pub open spec fn spec_lines_readable(lines: Seq<Seq<char>>) -> bool {
    forall|k: int| 0 <= k < lines.len() ==> spec_line_readable(#[trigger] lines[k])
}

/// The bytes of one line: those of its hex column for a dump line, none for
/// any other line.
pub open spec fn spec_line_bytes(line: Seq<char>) -> Seq<u8> {
    if spec_is_dump_line(line) {
        spec_hex_decode(spec_ascii_codes(spec_line_digits(line)))
    } else {
        Seq::empty()
    }
}

/// The bytes of `lines`, one line after another.
pub open spec fn spec_lines_bytes(lines: Seq<Seq<char>>) -> Seq<u8>
    decreases lines.len(),
{
    if lines.len() == 0 {
        Seq::empty()
    } else {
        spec_line_bytes(lines[0]) + spec_lines_bytes(lines.drop_first())
    }
}

/// The bytes that the dump `text` holds.
pub open spec fn spec_undump(text: Seq<char>) -> Seq<u8> {
    spec_lines_bytes(spec_lines(text))
}

fn is_hex_char(c: char) -> (b: bool)
    ensures
        b == spec_is_hex_char(c),
{
    ('0' <= c && c <= '9') || ('a' <= c && c <= 'f') || ('A' <= c && c <= 'F')
}

fn is_white_space(c: char) -> (b: bool)
    ensures
        b == spec_is_white_space(c),
{
    ('\u{9}' <= c && c <= '\u{d}') || c == ' ' || c == '\u{85}' || c == '\u{a0}' || c
        == '\u{1680}' || ('\u{2000}' <= c && c <= '\u{200a}') || c == '\u{2028}' || c == '\u{2029}'
        || c == '\u{202f}' || c == '\u{205f}' || c == '\u{3000}'
}

fn is_dump_line(line: &Vec<char>) -> (b: bool)
    ensures
        b == spec_is_dump_line(line@),
{
    let n = line.len();
    if n < 63 || n > 78 {
        return false;
    }
    let mut k: usize = 0;
    while k < n
        invariant
            n == line@.len(),
            63 <= n <= 78,
            k <= n,
            forall|j: int| 0 <= j < 8 && j < k ==> spec_is_hex_char(#[trigger] line@[j]),
            forall|j: int| 8 <= j < 11 && j < k ==> spec_is_white_space(#[trigger] line@[j]),
            forall|j: int|
                11 <= j < 59 && j < k ==> spec_is_hex_char(#[trigger] line@[j])
                    || spec_is_white_space(line@[j]),
            forall|j: int| 59 <= j < 62 && j < k ==> spec_is_white_space(#[trigger] line@[j]),
            forall|j: int| 62 <= j < k ==> #[trigger] line@[j] != '\n',
        decreases n - k,
    {
        let c = line[k];
        let ok = if k < 8 {
            is_hex_char(c)
        } else if k < 11 {
            is_white_space(c)
        } else if k < 59 {
            is_hex_char(c) || is_white_space(c)
        } else if k < 62 {
            is_white_space(c)
        } else {
            c != '\n'
        };
        if !ok {
            return false;
        }
        k = k + 1;
    }
    true
}

/// The ASCII code of a hex digit.
fn hex_char_code(c: char) -> (b: u8)
    requires
        spec_is_hex_char(c),
    ensures
        b == (c as u32) as u8,
        spec_is_hex_byte(b),
{
    let u = c as u32;
    assert(u < 128);
    assert(u < 128 ==> (u as u8) as u32 == u) by (bit_vector);
    u as u8
}

/// The bytes of one line of a dump.
fn line_bytes(line: &Vec<char>) -> (r: Vec<u8>)
    requires
        spec_line_readable(line@),
    ensures
        r@ == spec_line_bytes(line@),
{
    if !is_dump_line(line) {
        return Vec::new();
    }
    let ghost digits = spec_line_digits(line@);
    let mut codes: Vec<u8> = Vec::new();
    let mut k: usize = 11;
    while k < 59
        invariant
            11 <= k <= 59,
            line@.len() >= 63,
            spec_is_dump_line(line@),
            spec_line_readable(line@),
            digits == spec_line_digits(line@),
            codes@ == spec_ascii_codes(spec_without_spaces(line@.subrange(11, k as int))),
        decreases 59 - k,
    {
        let c = line[k];
        let ghost before = line@.subrange(11, k as int);
        let ghost cur = line@.subrange(11, k + 1);
        assert(cur.drop_last() =~= before);
        assert(cur.last() == c);
        if c != ' ' {
            proof {
                lemma_without_spaces_prefix(line@.subrange(11, 59), (k - 11 + 1) as int);
                assert(line@.subrange(11, 59).take((k - 11 + 1) as int) =~= line@.subrange(11, k + 1));
                let kept = spec_without_spaces(line@.subrange(11, k + 1));
                assert(kept.last() == c);
                assert(spec_is_hex_char(digits[kept.len() - 1]));
            }
            let code = hex_char_code(c);
            let ghost kept_before = spec_without_spaces(before);
            codes.push(code);
            assert(spec_without_spaces(cur) == kept_before.push(c));
            assert(codes@ =~= spec_ascii_codes(kept_before.push(c)));
        }
        k = k + 1;
    }
    assert(line@.subrange(11, 59) =~= line@.subrange(11, k as int));
    proof {
        assert forall|i: int| 0 <= i < codes@.len() implies spec_is_hex_byte(#[trigger] codes@[i]) by {
            let c = digits[i];
            assert(spec_is_hex_char(c));
            let u = c as u32;
            assert(u < 128);
            assert(u < 128 ==> (u as u8) as u32 == u) by (bit_vector);
        }
    }
    match hex_decode(codes.as_slice()) {
        Some(bytes) => bytes,
        None => Vec::new(),
    }
}

/// A prefix of `chars` keeps, without its spaces, a prefix of `chars`
/// without its spaces.
proof fn lemma_without_spaces_prefix(chars: Seq<char>, n: int)
    requires
        0 <= n <= chars.len(),
    ensures
        spec_without_spaces(chars.take(n)).len() <= spec_without_spaces(chars).len(),
        spec_without_spaces(chars.take(n)) == spec_without_spaces(chars).take(
            spec_without_spaces(chars.take(n)).len() as int,
        ),
    decreases chars.len(),
{
    if n == chars.len() {
        assert(chars.take(n) =~= chars);
    } else {
        lemma_without_spaces_prefix(chars.drop_last(), n);
        assert(chars.drop_last().take(n) =~= chars.take(n));
    }
}

/// Appending the lines that `lines` splits off: what the first line gives,
/// then the rest.
pub proof fn lemma_lines_bytes_cons(line: Seq<char>, rest: Seq<Seq<char>>)
    ensures
        spec_lines_bytes(seq![line] + rest) == spec_line_bytes(line) + spec_lines_bytes(rest),
{
    assert((seq![line] + rest)[0] == line);
    assert((seq![line] + rest).drop_first() =~= rest);
}

/// The bytes of a dump, read back line by line. A line that is no dump line
/// is skipped.
pub fn decode(hexdump: &str) -> (r: Vec<u8>)
    requires
        spec_lines_readable(spec_lines(hexdump@)),
    ensures
        r@ == spec_undump(hexdump@),
{
    let chars = str_chars(hexdump);
    let ghost text = chars@;
    let mut result: Vec<u8> = Vec::new();
    let mut current: Vec<char> = Vec::new();
    let mut i: usize = 0;
    assert(Seq::<u8>::empty() + spec_undump(text) =~= spec_undump(text));
    while i < chars.len()
        invariant
            i <= chars@.len(),
            text == chars@,
            text == hexdump@,
            spec_undump(text) == result@ + spec_lines_bytes(spec_lines_from(text, i as int, current@)),
            spec_lines_readable(spec_lines_from(text, i as int, current@)),
        decreases chars.len() - i,
    {
        let c = chars[i];
        if c == '\n' {
            let ghost rest = spec_lines_from(text, i + 1, Seq::empty());
            let ghost line = spec_strip_cr(current@);
            proof {
                lemma_lines_bytes_cons(line, rest);
                assert((seq![line] + rest)[0] == line);
                assert forall|k: int| 0 <= k < rest.len() implies spec_line_readable(#[trigger] rest[k]) by {
                    assert((seq![line] + rest)[k + 1] == rest[k]);
                }
            }
            let n = current.len();
            if n > 0 && current[n - 1] == '\r' {
                current.pop();
            }
            assert(current@ == line);
            let bytes = line_bytes(&current);
            let ghost before = result@;
            let mut j: usize = 0;
            while j < bytes.len()
                invariant
                    j <= bytes@.len(),
                    result@ == before + bytes@.take(j as int),
                decreases bytes.len() - j,
            {
                result.push(bytes[j]);
                assert(bytes@.take(j + 1) =~= bytes@.take(j as int).push(bytes@[j as int]));
                j = j + 1;
            }
            assert(bytes@.take(bytes@.len() as int) =~= bytes@);
            current = Vec::new();
            assert(current@ =~= Seq::<char>::empty());
        } else {
            current.push(c);
        }
        i = i + 1;
    }
    if current.len() > 0 {
        proof {
            lemma_lines_bytes_cons(current@, Seq::empty());
            assert(seq![current@] =~= seq![current@] + Seq::<Seq<char>>::empty());
            assert(seq![current@][0] == current@);
        }
        let bytes = line_bytes(&current);
        let ghost before = result@;
        let mut j: usize = 0;
        while j < bytes.len()
            invariant
                j <= bytes@.len(),
                result@ == before + bytes@.take(j as int),
            decreases bytes.len() - j,
        {
            result.push(bytes[j]);
            assert(bytes@.take(j + 1) =~= bytes@.take(j as int).push(bytes@[j as int]));
            j = j + 1;
        }
        assert(bytes@.take(bytes@.len() as int) =~= bytes@);
        assert(result@ =~= before + bytes@ + Seq::<u8>::empty());
    } else {
        assert(result@ + Seq::<u8>::empty() =~= result@);
    }
    result
}

} // verus!
