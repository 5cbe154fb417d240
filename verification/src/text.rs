//! Character and string helpers shared by the lexer, the mnemonic table,
//! the disassembler and the hexdump: ASCII classification, case mapping,
//! and rendering of decimal and hexadecimal numerals.

use vstd::prelude::*;

verus! {

/// The uppercase image of an ASCII letter; every other character is kept.
pub open spec fn spec_upper_char(c: char) -> char {
    match c {
        'a' => 'A',
        'b' => 'B',
        'c' => 'C',
        'd' => 'D',
        'e' => 'E',
        'f' => 'F',
        'g' => 'G',
        'h' => 'H',
        'i' => 'I',
        'j' => 'J',
        'k' => 'K',
        'l' => 'L',
        'm' => 'M',
        'n' => 'N',
        'o' => 'O',
        'p' => 'P',
        'q' => 'Q',
        'r' => 'R',
        's' => 'S',
        't' => 'T',
        'u' => 'U',
        'v' => 'V',
        'w' => 'W',
        'x' => 'X',
        'y' => 'Y',
        'z' => 'Z',
        _ => c,
    }
}

/// A string mapped letter by letter to uppercase.
pub open spec fn spec_upper_seq(s: Seq<char>) -> Seq<char> {
    s.map_values(|c: char| spec_upper_char(c))
}

pub fn upper_char(c: char) -> (r: char)
    ensures
        r == spec_upper_char(c),
{
    match c {
        'a' => 'A',
        'b' => 'B',
        'c' => 'C',
        'd' => 'D',
        'e' => 'E',
        'f' => 'F',
        'g' => 'G',
        'h' => 'H',
        'i' => 'I',
        'j' => 'J',
        'k' => 'K',
        'l' => 'L',
        'm' => 'M',
        'n' => 'N',
        'o' => 'O',
        'p' => 'P',
        'q' => 'Q',
        'r' => 'R',
        's' => 'S',
        't' => 'T',
        'u' => 'U',
        'v' => 'V',
        'w' => 'W',
        'x' => 'X',
        'y' => 'Y',
        'z' => 'Z',
        _ => c,
    }
}

/// The characters of `s`, one vector element per character.
pub fn to_char_vec(s: &str) -> (r: Vec<char>)
    ensures
        r@ == s@,
{
    let n = s.unicode_len();
    let mut r: Vec<char> = Vec::new();
    let mut i: usize = 0;
    while i < n
        invariant
            n == s@.len(),
            i <= n,
            r@ =~= s@.subrange(0, i as int),
        decreases n - i,
    {
        r.push(s.get_char(i));
        i = i + 1;
    }
    assert(r@ =~= s@);
    r
}

/// Whether the character vector spells exactly the string `s`.
pub fn chars_eq_str(v: &Vec<char>, s: &str) -> (r: bool)
    ensures
        r == (v@ == s@),
{
    let n = s.unicode_len();
    if v.len() != n {
        assert(v@ != s@) by {
            assert(v@.len() != s@.len());
        }
        return false;
    }
    let mut i: usize = 0;
    while i < n
        invariant
            n == s@.len(),
            v@.len() == n,
            i <= n,
            forall|j: int| 0 <= j < i ==> v@[j] == s@[j],
        decreases n - i,
    {
        if v[i] != s.get_char(i) {
            return false;
        }
        i = i + 1;
    }
    assert(v@ =~= s@);
    true
}

/// ASCII decimal digit.
pub open spec fn spec_is_digit(c: char) -> bool {
    '0' <= c && c <= '9'
}

/// ASCII hexadecimal digit.
pub open spec fn spec_is_hex_digit(c: char) -> bool {
    ('0' <= c && c <= '9') || ('a' <= c && c <= 'f') || ('A' <= c && c <= 'F')
}

/// ASCII letter.
pub open spec fn spec_is_letter(c: char) -> bool {
    ('a' <= c && c <= 'z') || ('A' <= c && c <= 'Z')
}

/// ASCII whitespace: space, tab, newline, carriage return, vertical tab
/// and form feed.
pub open spec fn spec_is_space(c: char) -> bool {
    c == ' ' || c == '\t' || c == '\n' || c == '\r' || c == '\u{b}' || c == '\u{c}'
}

pub fn is_digit_char(c: char) -> (r: bool)
    ensures
        r == spec_is_digit(c),
{
    '0' <= c && c <= '9'
}

pub fn is_hex_digit_char(c: char) -> (r: bool)
    ensures
        r == spec_is_hex_digit(c),
{
    ('0' <= c && c <= '9') || ('a' <= c && c <= 'f') || ('A' <= c && c <= 'F')
}

pub fn is_letter_char(c: char) -> (r: bool)
    ensures
        r == spec_is_letter(c),
{
    ('a' <= c && c <= 'z') || ('A' <= c && c <= 'Z')
}

pub fn is_space_char(c: char) -> (r: bool)
    ensures
        r == spec_is_space(c),
{
    c == ' ' || c == '\t' || c == '\n' || c == '\r' || c == '\u{b}' || c == '\u{c}'
}

/// The numeric value of a decimal digit.
pub open spec fn spec_digit_value(c: char) -> int {
    c as int - '0' as int
}

/// The numeric value of a hexadecimal digit.
pub open spec fn spec_hex_digit_value(c: char) -> int {
    if '0' <= c && c <= '9' {
        c as int - '0' as int
    } else if 'a' <= c && c <= 'f' {
        c as int - 'a' as int + 10
    } else {
        c as int - 'A' as int + 10
    }
}

pub fn digit_value(c: char) -> (r: u8)
    requires
        spec_is_digit(c),
    ensures
        r == spec_digit_value(c),
        r < 10,
{
    (c as u8) - 48
}

pub fn hex_digit_value(c: char) -> (r: u8)
    requires
        spec_is_hex_digit(c),
    ensures
        r == spec_hex_digit_value(c),
        r < 16,
{
    if '0' <= c && c <= '9' {
        (c as u8) - 48
    } else if 'a' <= c && c <= 'f' {
        (c as u8) - 97 + 10
    } else {
        (c as u8) - 65 + 10
    }
}

/// Relies on `String::push`: appends exactly the one character.
#[verifier::external_body]
pub fn push_char(s: &mut String, c: char)
    ensures
        final(s)@ == old(s)@.push(c),
{
    s.push(c);
}

/// The uppercase hexadecimal digit for a value below 16.
pub open spec fn spec_hex_digit_char(v: int) -> char {
    if v == 0 {
        '0'
    } else if v == 1 {
        '1'
    } else if v == 2 {
        '2'
    } else if v == 3 {
        '3'
    } else if v == 4 {
        '4'
    } else if v == 5 {
        '5'
    } else if v == 6 {
        '6'
    } else if v == 7 {
        '7'
    } else if v == 8 {
        '8'
    } else if v == 9 {
        '9'
    } else if v == 10 {
        'A'
    } else if v == 11 {
        'B'
    } else if v == 12 {
        'C'
    } else if v == 13 {
        'D'
    } else if v == 14 {
        'E'
    } else {
        'F'
    }
}

pub fn hex_digit_char(v: u8) -> (r: char)
    requires
        v < 16,
    ensures
        r == spec_hex_digit_char(v as int),
{
    match v {
        0 => '0',
        1 => '1',
        2 => '2',
        3 => '3',
        4 => '4',
        5 => '5',
        6 => '6',
        7 => '7',
        8 => '8',
        9 => '9',
        10 => 'A',
        11 => 'B',
        12 => 'C',
        13 => 'D',
        14 => 'E',
        _ => 'F',
    }
}

/// The two uppercase hexadecimal digits of a byte.
pub open spec fn spec_hex8(v: u8) -> Seq<char> {
    seq![spec_hex_digit_char(v as int / 16), spec_hex_digit_char(v as int % 16)]
}

/// The four uppercase hexadecimal digits of a 16-bit value.
pub open spec fn spec_hex16(v: u16) -> Seq<char> {
    seq![
        spec_hex_digit_char(v as int / 0x1000),
        spec_hex_digit_char((v as int / 0x100) % 16),
        spec_hex_digit_char((v as int / 16) % 16),
        spec_hex_digit_char(v as int % 16),
    ]
}

/// Append the two hexadecimal digits of `v` to `out`.
pub fn push_hex8(out: &mut String, v: u8)
    ensures
        final(out)@ == old(out)@ + spec_hex8(v),
{
    let ghost start = out@;
    push_char(out, hex_digit_char(v / 16));
    push_char(out, hex_digit_char(v % 16));
    assert(out@ =~= start + spec_hex8(v));
}

/// Append the four hexadecimal digits of `v` to `out`.
pub fn push_hex16(out: &mut String, v: u16)
    ensures
        final(out)@ == old(out)@ + spec_hex16(v),
{
    let ghost start = out@;
    push_char(out, hex_digit_char((v / 0x1000) as u8));
    push_char(out, hex_digit_char(((v / 0x100) % 16) as u8));
    push_char(out, hex_digit_char(((v / 16) % 16) as u8));
    push_char(out, hex_digit_char((v % 16) as u8));
    assert(out@ =~= start + spec_hex16(v));
}

/// The decimal numeral of `n`, most significant digit first, without
/// leading zeros (`0` itself is the single digit `0`).
pub open spec fn spec_decimal(n: int) -> Seq<char>
    decreases n,
{
    if n <= 0 {
        Seq::<char>::empty()
    } else {
        spec_decimal(n / 10).push(spec_hex_digit_char(n % 10))
    }
}

/// The decimal numeral of `n` as written: `0` is `"0"`.
pub open spec fn spec_decimal_text(n: int) -> Seq<char> {
    if n == 0 {
        seq!['0']
    } else {
        spec_decimal(n)
    }
}

/// Append the decimal numeral of `v` to `out`.
pub fn push_decimal(out: &mut String, v: usize)
    ensures
        final(out)@ == old(out)@ + spec_decimal_text(v as int),
{
    if v == 0 {
        let ghost start = out@;
        push_char(out, '0');
        assert(out@ =~= start + spec_decimal_text(0));
    } else {
        push_decimal_positive(out, v);
    }
}

fn push_decimal_positive(out: &mut String, v: usize)
    requires
        v > 0,
    ensures
        final(out)@ == old(out)@ + spec_decimal(v as int),
    decreases v,
{
    let ghost start = out@;
    let q = v / 10;
    let r = v % 10;
    if q > 0 {
        push_decimal_positive(out, q);
    }
    assert(out@ =~= start + spec_decimal(q as int)) by {
        if q == 0 {
            assert(spec_decimal(0) =~= Seq::<char>::empty());
        }
    }
    push_char(out, hex_digit_char(r as u8));
    assert(spec_decimal(v as int) == spec_decimal(q as int).push(spec_hex_digit_char(r as int)));
    assert(out@ =~= start + spec_decimal(v as int));
}

/// Append every character of `s` to `out`.
pub fn push_str_chars(out: &mut String, s: &str)
    ensures
        final(out)@ == old(out)@ + s@,
{
    let ghost start = out@;
    let n = s.unicode_len();
    let mut i: usize = 0;
    while i < n
        invariant
            n == s@.len(),
            i <= n,
            out@ =~= start + s@.subrange(0, i as int),
        decreases n - i,
    {
        push_char(out, s.get_char(i));
        i = i + 1;
    }
    assert(out@ =~= start + s@);
}

} // verus!
