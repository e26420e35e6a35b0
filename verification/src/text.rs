//! Positions in a text and the rendering of numbers, as the validators and the
//! reporter need them.
//!
//! A text is a sequence of characters. A line ends with a line feed; the line
//! feed itself is the last character of the line that it ends.

use vstd::prelude::*;

verus! {

/// `String::push` of the standard library appends the character to the end
/// of the string and leaves what was there as it is.
pub assume_specification[ String::push ](s: &mut String, ch: char)
    ensures
        final(s)@ == old(s)@.push(ch),
;

/// How many of the first `i` characters of `text` are line feeds.
pub open spec fn newlines_before(text: Seq<char>, i: int) -> nat
    decreases i,
{
    if i <= 0 {
        0
    } else {
        newlines_before(text, i - 1) + if text[i - 1] == '\n' {
            1nat
        } else {
            0nat
        }
    }
}

/// Index of the first character of the line that position `i` lies on.
pub open spec fn line_start(text: Seq<char>, i: int) -> int
    decreases i,
{
    if i <= 0 {
        0
    } else if text[i - 1] == '\n' {
        i
    } else {
        line_start(text, i - 1)
    }
}

/// The 1-based line number of position `i`.
pub open spec fn line_of(text: Seq<char>, i: int) -> nat {
    newlines_before(text, i) + 1
}

/// The 1-based column of position `i`, counted in characters.
pub open spec fn column_of(text: Seq<char>, i: int) -> nat {
    (i - line_start(text, i) + 1) as nat
}

/// What `line_start` picks: the position just behind the nearest line feed
/// to the left of `i`, or the start of the text where there is none.
pub proof fn lemma_line_start(text: Seq<char>, i: int)
    requires
        0 <= i <= text.len(),
    ensures
        0 <= line_start(text, i) <= i,
        line_start(text, i) == 0 || text[line_start(text, i) - 1] == '\n',
        forall|j: int| line_start(text, i) <= j < i ==> text[j] != '\n',
        newlines_before(text, i) <= line_start(text, i),
        newlines_before(text, line_start(text, i)) == newlines_before(text, i),
    decreases i,
{
    if i > 0 && text[i - 1] != '\n' {
        lemma_line_start(text, i - 1);
    } else if i > 0 {
        lemma_newlines_bounded(text, i);
    }
}

/// There are no more line feeds before a position than characters.
pub proof fn lemma_newlines_bounded(text: Seq<char>, i: int)
    requires
        0 <= i,
    ensures
        newlines_before(text, i) <= i,
    decreases i,
{
    if i > 0 {
        lemma_newlines_bounded(text, i - 1);
    }
}

/// A text has no more characters than its UTF-8 encoding has bytes.
pub proof fn lemma_chars_fit_bytes(text: Seq<char>)
    ensures
        text.len() <= vstd::utf8::encode_utf8(text).len(),
    decreases text.len(),
{
    if text.len() > 0 {
        lemma_chars_fit_bytes(text.drop_first());
    }
}

/// Whether `c` lies in the Unicode block of box-drawing characters,
/// U+2500 to U+257F.
pub open spec fn in_box_drawing_block(c: char) -> bool {
    0x2500 <= c as u32 <= 0x257F
}

/// Whether `c` is an ASCII character.
pub open spec fn is_ascii_char(c: char) -> bool {
    c as u32 <= 127
}

/// The digit character for a value below ten.
pub open spec fn decimal_digit(d: nat) -> char {
    if d == 0 {
        '0'
    } else if d == 1 {
        '1'
    } else if d == 2 {
        '2'
    } else if d == 3 {
        '3'
    } else if d == 4 {
        '4'
    } else if d == 5 {
        '5'
    } else if d == 6 {
        '6'
    } else if d == 7 {
        '7'
    } else if d == 8 {
        '8'
    } else {
        '9'
    }
}

/// The upper-case hexadecimal digit for a value below sixteen.
pub open spec fn hex_digit(d: nat) -> char {
    if d < 10 {
        decimal_digit(d)
    } else if d == 10 {
        'A'
    } else if d == 11 {
        'B'
    } else if d == 12 {
        'C'
    } else if d == 13 {
        'D'
    } else if d == 14 {
        'E'
    } else {
        'F'
    }
}

/// `n` in decimal, without leading zeros.
pub open spec fn decimal(n: nat) -> Seq<char>
    decreases n,
{
    if n < 10 {
        seq![decimal_digit(n)]
    } else {
        decimal(n / 10).push(decimal_digit(n % 10))
    }
}

/// `n` in upper-case hexadecimal, without leading zeros.
pub open spec fn upper_hex(n: nat) -> Seq<char>
    decreases n,
{
    if n < 16 {
        seq![hex_digit(n)]
    } else {
        upper_hex(n / 16).push(hex_digit(n % 16))
    }
}

/// `digits` with zeros in front until it is at least `width` long.
pub open spec fn zero_padded(digits: Seq<char>, width: nat) -> Seq<char> {
    if digits.len() >= width {
        digits
    } else {
        Seq::new((width - digits.len()) as nat, |i: int| '0') + digits
    }
}

/// The code point of `c` as it is written behind `U+`: upper-case
/// hexadecimal, at least four digits.
pub open spec fn code_point_hex(c: char) -> Seq<char> {
    zero_padded(upper_hex(c as u32 as nat), 4)
}

/// The character for the last decimal digit of `n`.
fn last_decimal_digit(n: usize) -> (c: char)
    ensures
        c == decimal_digit((n % 10) as nat),
{
    let d: usize = n % 10;
    if d == 0 {
        '0'
    } else if d == 1 {
        '1'
    } else if d == 2 {
        '2'
    } else if d == 3 {
        '3'
    } else if d == 4 {
        '4'
    } else if d == 5 {
        '5'
    } else if d == 6 {
        '6'
    } else if d == 7 {
        '7'
    } else if d == 8 {
        '8'
    } else {
        '9'
    }
}

/// The character for the last hexadecimal digit of `n`.
fn last_hex_digit(n: u32) -> (c: char)
    ensures
        c == hex_digit((n % 16) as nat),
{
    let d: u32 = n % 16;
    if d == 0 {
        '0'
    } else if d == 1 {
        '1'
    } else if d == 2 {
        '2'
    } else if d == 3 {
        '3'
    } else if d == 4 {
        '4'
    } else if d == 5 {
        '5'
    } else if d == 6 {
        '6'
    } else if d == 7 {
        '7'
    } else if d == 8 {
        '8'
    } else if d == 9 {
        '9'
    } else if d == 10 {
        'A'
    } else if d == 11 {
        'B'
    } else if d == 12 {
        'C'
    } else if d == 13 {
        'D'
    } else if d == 14 {
        'E'
    } else {
        'F'
    }
}

/// Appends `n` in decimal to `out`.
pub fn push_decimal(out: &mut String, n: usize)
    ensures
        final(out)@ == old(out)@ + decimal(n as nat),
    decreases n,
{
    if n >= 10 {
        push_decimal(out, n / 10);
    }
    out.push(last_decimal_digit(n));
}

/// Appends `n` in upper-case hexadecimal to `out`.
pub fn push_upper_hex(out: &mut String, n: u32)
    ensures
        final(out)@ == old(out)@ + upper_hex(n as nat),
    decreases n,
{
    if n >= 16 {
        push_upper_hex(out, n / 16);
    }
    out.push(last_hex_digit(n));
}

/// How many hexadecimal digits a number has: one below 0x10, two below
/// 0x100, three below 0x1000, and at least four from there on.
pub proof fn lemma_upper_hex_len(n: nat)
    ensures
        n < 0x10 ==> upper_hex(n).len() == 1,
        0x10 <= n < 0x100 ==> upper_hex(n).len() == 2,
        0x100 <= n < 0x1000 ==> upper_hex(n).len() == 3,
        0x1000 <= n ==> upper_hex(n).len() >= 4,
    decreases n,
{
    if n >= 16 {
        lemma_upper_hex_len(n / 16);
    }
}

/// A code point up to U+FFFF is written with exactly four digits, a higher
/// one with five or six and no zero in front.
pub proof fn lemma_code_point_hex_digits(c: char)
    ensures
        c as u32 <= 0xFFFF ==> code_point_hex(c) == seq![
            hex_digit(c as u32 as nat / 0x1000),
            hex_digit(c as u32 as nat / 0x100 % 16),
            hex_digit(c as u32 as nat / 0x10 % 16),
            hex_digit(c as u32 as nat % 16),
        ],
        c as u32 <= 0xFFFF ==> code_point_hex(c).len() == 4,
        0xFFFF < c as u32 <= 0xFFFFF ==> code_point_hex(c).len() == 5,
        0xFFFFF < c as u32 ==> code_point_hex(c).len() == 6,
        c as u32 > 0xFFFF ==> code_point_hex(c) == upper_hex(c as u32 as nat),
        c as u32 > 0xFFFF ==> code_point_hex(c)[0] != '0',
{
    reveal_with_fuel(upper_hex, 7);
    let n = c as u32 as nat;
    if n <= 0xFFFF {
        assert(code_point_hex(c) =~= seq![
            hex_digit(n / 0x1000),
            hex_digit(n / 0x100 % 16),
            hex_digit(n / 0x10 % 16),
            hex_digit(n % 16),
        ]);
    }
}

/// Appends the code point of `c` to `out`, as it is written behind `U+`.
pub fn push_code_point(out: &mut String, c: char)
    ensures
        final(out)@ == old(out)@ + code_point_hex(c),
{
    let code: u32 = c as u32;
    let ghost before = out@;
    let ghost digits = upper_hex(code as nat);
    proof {
        lemma_upper_hex_len(code as nat);
    }
    if code < 0x1000 {
        out.push('0');
    }
    if code < 0x100 {
        out.push('0');
    }
    if code < 0x10 {
        out.push('0');
    }
    assert(out@ + digits =~= before + zero_padded(digits, 4));
    push_upper_hex(out, code);
}

} // verus!
