//! Hexadecimal digits and color strings: specification-level parsing and
//! rendering, shared by `Color::from_hex` and `Color::to_hex`.

use vstd::prelude::*;

verus! {

/// Value of one hexadecimal digit, or `None` for any other character.
pub open spec fn hex_digit_value(c: char) -> Option<int> {
    if c == '0' {
        Some(0)
    } else if c == '1' {
        Some(1)
    } else if c == '2' {
        Some(2)
    } else if c == '3' {
        Some(3)
    } else if c == '4' {
        Some(4)
    } else if c == '5' {
        Some(5)
    } else if c == '6' {
        Some(6)
    } else if c == '7' {
        Some(7)
    } else if c == '8' {
        Some(8)
    } else if c == '9' {
        Some(9)
    } else if c == 'a' || c == 'A' {
        Some(10)
    } else if c == 'b' || c == 'B' {
        Some(11)
    } else if c == 'c' || c == 'C' {
        Some(12)
    } else if c == 'd' || c == 'D' {
        Some(13)
    } else if c == 'e' || c == 'E' {
        Some(14)
    } else if c == 'f' || c == 'F' {
        Some(15)
    } else {
        None
    }
}

pub open spec fn is_hex_digit(c: char) -> bool {
    hex_digit_value(c) is Some
}

/// The lowercase digit character for a value in `0..16`.
pub open spec fn hex_digit_char(v: int) -> char {
    if v == 0 {
        '0'
    } else if v == 1 {
        '1'
    } else if v == 2 {
        '2'
    } else if v == 3 {
        '3'
    } else if v == 4 {
        '4'
    } else if v == 5 {
        '5'
    } else if v == 6 {
        '6'
    } else if v == 7 {
        '7'
    } else if v == 8 {
        '8'
    } else if v == 9 {
        '9'
    } else if v == 10 {
        'a'
    } else if v == 11 {
        'b'
    } else if v == 12 {
        'c'
    } else if v == 13 {
        'd'
    } else if v == 14 {
        'e'
    } else {
        'f'
    }
}

/// Two-digit lowercase rendering of a byte.
pub open spec fn byte_to_hex(b: u8) -> Seq<char> {
    seq![hex_digit_char(b as int / 16), hex_digit_char(b as int % 16)]
}

/// The byte written by two hexadecimal digits.
pub open spec fn hex_pair_value(hi: char, lo: char) -> int {
    16 * hex_digit_value(hi).unwrap() + hex_digit_value(lo).unwrap()
}

/// The lowercase form of a hexadecimal digit character.
pub open spec fn hex_digit_lower(c: char) -> char {
    if c == 'A' {
        'a'
    } else if c == 'B' {
        'b'
    } else if c == 'C' {
        'c'
    } else if c == 'D' {
        'd'
    } else if c == 'E' {
        'e'
    } else if c == 'F' {
        'f'
    } else {
        c
    }
}

/// Every character of `s` is a hexadecimal digit.
pub open spec fn all_hex(s: Seq<char>) -> bool {
    forall|i: int| 0 <= i < s.len() ==> is_hex_digit(#[trigger] s[i])
}

/// `s` with one leading `#` removed, if present.
pub open spec fn strip_hash(s: Seq<char>) -> Seq<char> {
    if s.len() >= 1 && s[0] == '#' {
        s.subrange(1, s.len() as int)
    } else {
        s
    }
}

/// The byte written by two hexadecimal digits, as a `u8`.
pub open spec fn hex_pair_byte(hi: char, lo: char) -> u8 {
    hex_pair_value(hi, lo) as u8
}

/// Channels denoted by a 6- or 8-digit hex color string, with an optional
/// leading `#`; 6-digit strings denote a fully opaque color.
pub open spec fn parse_hex_rgba(s: Seq<char>) -> Option<(u8, u8, u8, u8)> {
    let t = strip_hash(s);
    if t.len() == 6 && all_hex(t) {
        Some(
            (
                hex_pair_byte(t[0], t[1]),
                hex_pair_byte(t[2], t[3]),
                hex_pair_byte(t[4], t[5]),
                255u8,
            ),
        )
    } else if t.len() == 8 && all_hex(t) {
        Some(
            (
                hex_pair_byte(t[0], t[1]),
                hex_pair_byte(t[2], t[3]),
                hex_pair_byte(t[4], t[5]),
                hex_pair_byte(t[6], t[7]),
            ),
        )
    } else {
        None
    }
}

/// Eight-digit lowercase rendering of four channels.
pub open spec fn rgba_hex(r: u8, g: u8, b: u8, a: u8) -> Seq<char> {
    byte_to_hex(r) + byte_to_hex(g) + byte_to_hex(b) + byte_to_hex(a)
}

/// A valid hex color string brought to canonical form: the optional `#`
/// removed, digits lowercased, and `ff` appended when no alpha was written.
pub open spec fn normalize_hex(s: Seq<char>) -> Seq<char> {
    let t = strip_hash(s).map(|i: int, c: char| hex_digit_lower(c));
    if strip_hash(s).len() == 6 {
        t + seq!['f', 'f']
    } else {
        t
    }
}

/// Rendering the byte written by two hex digits lowercases those digits.
proof fn lemma_byte_to_hex_of_pair(hi: char, lo: char)
    requires
        is_hex_digit(hi),
        is_hex_digit(lo),
    ensures
        byte_to_hex(hex_pair_byte(hi, lo)) =~= seq![hex_digit_lower(hi), hex_digit_lower(lo)],
{
    let vh = hex_digit_value(hi).unwrap();
    let vl = hex_digit_value(lo).unwrap();
    let b = hex_pair_byte(hi, lo);
    assert(0 <= vh <= 15 && 0 <= vl <= 15);
    assert(b == 16 * vh + vl);
    assert(b as int / 16 == vh && b as int % 16 == vl) by (nonlinear_arith)
        requires
            0 <= vh <= 15,
            0 <= vl <= 15,
            b == 16 * vh + vl,
    ;
}

/// Round trip: parsing a valid 6- or 8-digit hex color string and rendering
/// the channels again yields the string in canonical form (lowercased, `#`
/// removed, full opacity made explicit).
pub proof fn lemma_hex_round_trip(s: Seq<char>)
    requires
        parse_hex_rgba(s) is Some,
    ensures
        parse_hex_rgba(s) matches Some(q) ==> rgba_hex(q.0, q.1, q.2, q.3) == normalize_hex(s),
{
    let t = strip_hash(s);
    let q = parse_hex_rgba(s).unwrap();
    lemma_byte_to_hex_of_pair(t[0], t[1]);
    lemma_byte_to_hex_of_pair(t[2], t[3]);
    lemma_byte_to_hex_of_pair(t[4], t[5]);
    if t.len() == 8 {
        lemma_byte_to_hex_of_pair(t[6], t[7]);
    } else {
        assert(byte_to_hex(255u8) =~= seq!['f', 'f']);
    }
    assert(rgba_hex(q.0, q.1, q.2, q.3) =~= normalize_hex(s));
}

/// Exec counterpart of `hex_digit_value`.
pub fn hex_digit_value_of(c: char) -> (r: Option<u8>)
    ensures
        match r {
            Some(v) => hex_digit_value(c) == Some(v as int),
            None => hex_digit_value(c) is None,
        },
{
    match c {
        '0' => Some(0),
        '1' => Some(1),
        '2' => Some(2),
        '3' => Some(3),
        '4' => Some(4),
        '5' => Some(5),
        '6' => Some(6),
        '7' => Some(7),
        '8' => Some(8),
        '9' => Some(9),
        'a' | 'A' => Some(10),
        'b' | 'B' => Some(11),
        'c' | 'C' => Some(12),
        'd' | 'D' => Some(13),
        'e' | 'E' => Some(14),
        'f' | 'F' => Some(15),
        _ => None,
    }
}

/// Lowercase digit character for a nibble, as a one-character string slice.
pub fn hex_digit_str(v: u8) -> (r: &'static str)
    requires
        v < 16,
    ensures
        r@ =~= seq![hex_digit_char(v as int)],
{
    let r = match v {
        0 => "0",
        1 => "1",
        2 => "2",
        3 => "3",
        4 => "4",
        5 => "5",
        6 => "6",
        7 => "7",
        8 => "8",
        9 => "9",
        10 => "a",
        11 => "b",
        12 => "c",
        13 => "d",
        14 => "e",
        _ => "f",
    };
    proof {
        reveal_strlit("0");
        reveal_strlit("1");
        reveal_strlit("2");
        reveal_strlit("3");
        reveal_strlit("4");
        reveal_strlit("5");
        reveal_strlit("6");
        reveal_strlit("7");
        reveal_strlit("8");
        reveal_strlit("9");
        reveal_strlit("a");
        reveal_strlit("b");
        reveal_strlit("c");
        reveal_strlit("d");
        reveal_strlit("e");
        reveal_strlit("f");
    }
    r
}

} // verus!
