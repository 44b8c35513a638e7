//! Custom palette import: a line-oriented `colorN = "#hex"` grammar with
//! explicit indices, validated to form a dense zero-based range of at least
//! 16 colors.  Non-matching lines are ignored; a later line for the same
//! index replaces an earlier one.

use vstd::prelude::*;

use crate::color::Color;
use crate::contrast::BasePalette;
use crate::errors::ThemeError;
use crate::hex::hex_pair_byte;
use crate::hex::is_hex_digit;
use crate::palette::channels_match;

verus! {

/// Largest color index the importer handles; palettes of such a size cannot
/// be built on this machine, so a declaration above the bound fails the
/// import as a range error instead of being ignored.
pub const MAX_COLOR_INDEX: u64 = 1_000_000;

/// Whitespace tolerated around the tokens of a palette line.
pub open spec fn is_space(c: char) -> bool {
    c == ' ' || c == '\t' || c == '\n' || c == '\r' || c == '\u{b}' || c == '\u{c}'
}

/// Value of one decimal digit, or `None`.
pub open spec fn dec_digit_value(c: char) -> Option<int> {
    if c == '0' {
        Some(0)
    } else if c == '1' {
        Some(1)
    } else if c == '2' {
        Some(2)
    } else if c == '3' {
        Some(3)
    } else if c == '4' {
        Some(4)
    } else if c == '5' {
        Some(5)
    } else if c == '6' {
        Some(6)
    } else if c == '7' {
        Some(7)
    } else if c == '8' {
        Some(8)
    } else if c == '9' {
        Some(9)
    } else {
        None
    }
}

pub open spec fn is_dec_digit(c: char) -> bool {
    dec_digit_value(c) is Some
}

/// First position at or after `i` that does not hold whitespace.
pub open spec fn ws_end(s: Seq<char>, i: int) -> int
    decreases s.len() - i,
{
    if 0 <= i < s.len() && is_space(s[i]) {
        ws_end(s, i + 1)
    } else {
        i
    }
}

/// First position at or after `i` that does not hold a decimal digit.
pub open spec fn digits_end(s: Seq<char>, i: int) -> int
    decreases s.len() - i,
{
    if 0 <= i < s.len() && is_dec_digit(s[i]) {
        digits_end(s, i + 1)
    } else {
        i
    }
}

/// First position at or after `i` that does not hold a hexadecimal digit.
pub open spec fn hex_end(s: Seq<char>, i: int) -> int
    decreases s.len() - i,
{
    if 0 <= i < s.len() && is_hex_digit(s[i]) {
        hex_end(s, i + 1)
    } else {
        i
    }
}

/// The number written by a run of decimal digits.
pub open spec fn decimal_value(s: Seq<char>) -> int
    decreases s.len(),
{
    if s.len() == 0 {
        0
    } else {
        decimal_value(s.drop_last()) * 10 + dec_digit_value(s.last()).unwrap()
    }
}

/// Parses one palette line of the shape
/// `\s* color <digits> \s* = \s* <quote> # <6 or 8 hex digits> <quote> \s*`
/// where each quote is `'` or `"` independently.  Yields the index and the
/// channels, or `None` for any line of another shape.
pub open spec fn parse_custom_line(s: Seq<char>) -> Option<(int, (u8, u8, u8, u8))> {
    let i0 = ws_end(s, 0);
    if i0 + 5 <= s.len() && s[i0] == 'c' && s[i0 + 1] == 'o' && s[i0 + 2] == 'l' && s[i0 + 3]
        == 'o' && s[i0 + 4] == 'r' {
        let i1 = i0 + 5;
        let i2 = digits_end(s, i1);
        if i2 > i1 {
            let idx = decimal_value(s.subrange(i1, i2));
            let i3 = ws_end(s, i2);
            if i3 < s.len() && s[i3] == '=' {
                let i4 = ws_end(s, i3 + 1);
                if i4 + 1 < s.len() && (s[i4] == '\'' || s[i4] == '"') && s[i4 + 1] == '#' {
                    let h0 = i4 + 2;
                    let h1 = hex_end(s, h0);
                    if (h1 - h0 == 6 || h1 - h0 == 8) && h1 < s.len() && (s[h1] == '\'' || s[h1]
                        == '"') && ws_end(s, h1 + 1) == s.len() {
                        Some(
                            (
                                idx,
                                (
                                    hex_pair_byte(s[h0], s[h0 + 1]),
                                    hex_pair_byte(s[h0 + 2], s[h0 + 3]),
                                    hex_pair_byte(s[h0 + 4], s[h0 + 5]),
                                    if h1 - h0 == 8 {
                                        hex_pair_byte(s[h0 + 6], s[h0 + 7])
                                    } else {
                                        255u8
                                    },
                                ),
                            ),
                        )
                    } else {
                        None
                    }
                } else {
                    None
                }
            } else {
                None
            }
        } else {
            None
        }
    } else {
        None
    }
}

/// The `(index, channels)` pairs of all matching lines, in line order.
pub open spec fn custom_pairs(lines: Seq<String>) -> Seq<(int, (u8, u8, u8, u8))>
    decreases lines.len(),
{
    if lines.len() == 0 {
        Seq::empty()
    } else {
        custom_pairs(lines.drop_last()) + match parse_custom_line(lines.last()@) {
            Some(p) => seq![p],
            None => Seq::empty(),
        }
    }
}

/// The channels of the last pair carrying index `i`, if any: a later line
/// for the same index replaces an earlier one.
pub open spec fn last_value(pairs: Seq<(int, (u8, u8, u8, u8))>, i: int) -> Option<(u8, u8, u8, u8)>
    decreases pairs.len(),
{
    if pairs.len() == 0 {
        None
    } else if pairs.last().0 == i {
        Some(pairs.last().1)
    } else {
        last_value(pairs.drop_last(), i)
    }
}

pub open spec fn has_index(pairs: Seq<(int, (u8, u8, u8, u8))>, i: int) -> bool {
    last_value(pairs, i) is Some
}

/// The largest index among the pairs (which must be non-empty).
pub open spec fn max_index(pairs: Seq<(int, (u8, u8, u8, u8))>) -> int
    decreases pairs.len(),
{
    if pairs.len() <= 1 {
        pairs[0].0
    } else {
        let m = max_index(pairs.drop_last());
        if pairs.last().0 > m {
            pairs.last().0
        } else {
            m
        }
    }
}

/// Every declared index is under the importer's bound.
pub open spec fn pairs_bounded(pairs: Seq<(int, (u8, u8, u8, u8))>) -> bool {
    forall|k: int| 0 <= k < pairs.len() ==> (#[trigger] pairs[k]).0 < MAX_COLOR_INDEX
}

/// The declared indices cover `0..=max_index` without a gap.
pub open spec fn indices_dense(pairs: Seq<(int, (u8, u8, u8, u8))>) -> bool {
    forall|i: int| 0 <= i <= max_index(pairs) ==> #[trigger] has_index(pairs, i)
}

fn is_space_of(c: char) -> (r: bool)
    ensures
        r == is_space(c),
{
    c == ' ' || c == '\t' || c == '\n' || c == '\r' || c == '\u{b}' || c == '\u{c}'
}

fn dec_digit_value_of(c: char) -> (r: Option<u8>)
    ensures
        match r {
            Some(v) => dec_digit_value(c) == Some(v as int),
            None => dec_digit_value(c) is None,
        },
{
    match c {
        '0' => Some(0),
        '1' => Some(1),
        '2' => Some(2),
        '3' => Some(3),
        '4' => Some(4),
        '5' => Some(5),
        '6' => Some(6),
        '7' => Some(7),
        '8' => Some(8),
        '9' => Some(9),
        _ => None,
    }
}

/// Exec scan to `ws_end`.
fn ws_end_of(s: &str, n: usize, i: usize) -> (r: usize)
    requires
        n == s@.len(),
        i <= n,
    ensures
        r == ws_end(s@, i as int),
        i <= r <= n,
{
    let mut j = i;
    while j < n && is_space_of(s.get_char(j))
        invariant
            i <= j <= n == s@.len(),
            ws_end(s@, i as int) == ws_end(s@, j as int),
        decreases n - j,
    {
        j = j + 1;
    }
    j
}

/// Exec scan to `digits_end`.
fn digits_end_of(s: &str, n: usize, i: usize) -> (r: usize)
    requires
        n == s@.len(),
        i <= n,
    ensures
        r == digits_end(s@, i as int),
        i <= r <= n,
{
    let mut j = i;
    while j < n && dec_digit_value_of(s.get_char(j)).is_some()
        invariant
            i <= j <= n == s@.len(),
            digits_end(s@, i as int) == digits_end(s@, j as int),
        decreases n - j,
    {
        j = j + 1;
    }
    j
}

/// Exec scan to `hex_end`.
fn hex_end_of(s: &str, n: usize, i: usize) -> (r: usize)
    requires
        n == s@.len(),
        i <= n,
    ensures
        r == hex_end(s@, i as int),
        i <= r <= n,
{
    let mut j = i;
    while j < n && crate::hex::hex_digit_value_of(s.get_char(j)).is_some()
        invariant
            i <= j <= n == s@.len(),
            hex_end(s@, i as int) == hex_end(s@, j as int),
        decreases n - j,
    {
        j = j + 1;
    }
    j
}

/// Appending digits never shrinks the written number.
proof fn lemma_decimal_value_bounds(s: Seq<char>)
    requires
        forall|k: int| 0 <= k < s.len() ==> #[trigger] is_dec_digit(s[k]),
    ensures
        decimal_value(s) >= 0,
    decreases s.len(),
{
    if s.len() > 0 {
        assert forall|k: int| 0 <= k < s.drop_last().len() implies #[trigger] is_dec_digit(
            s.drop_last()[k],
        ) by {
            assert(s.drop_last()[k] == s[k]);
        }
        lemma_decimal_value_bounds(s.drop_last());
        assert(is_dec_digit(s[s.len() - 1]));
    }
}

/// The digit run's value, saturated at `MAX_COLOR_INDEX`.
fn decimal_value_of(s: &str, n: usize, from: usize, to: usize) -> (r: u64)
    requires
        n == s@.len(),
        from <= to <= n,
        forall|k: int| from <= k < to ==> #[trigger] is_dec_digit(s@[k]),
    ensures
        decimal_value(s@.subrange(from as int, to as int)) < MAX_COLOR_INDEX ==> r
            == decimal_value(s@.subrange(from as int, to as int)),
        decimal_value(s@.subrange(from as int, to as int)) >= MAX_COLOR_INDEX ==> r
            == MAX_COLOR_INDEX,
{
    let mut acc: u64 = 0;
    let mut j = from;
    while j < to
        invariant
            from <= j <= to <= n == s@.len(),
            forall|k: int| from <= k < to ==> #[trigger] is_dec_digit(s@[k]),
            acc <= MAX_COLOR_INDEX,
            decimal_value(s@.subrange(from as int, j as int)) < MAX_COLOR_INDEX ==> acc
                == decimal_value(s@.subrange(from as int, j as int)),
            decimal_value(s@.subrange(from as int, j as int)) >= MAX_COLOR_INDEX ==> acc
                == MAX_COLOR_INDEX,
        decreases to - j,
    {
        let ghost prefix = s@.subrange(from as int, j as int);
        proof {
            assert forall|k: int| 0 <= k < prefix.len() implies #[trigger] is_dec_digit(
                prefix[k],
            ) by {
                assert(prefix[k] == s@[from + k]);
            }
            lemma_decimal_value_bounds(prefix);
            assert(s@.subrange(from as int, j + 1 as int).drop_last() =~= prefix);
        }
        let d = match dec_digit_value_of(s.get_char(j)) {
            Some(v) => v,
            None => 0,
        };
        proof {
            assert(is_dec_digit(s@[j as int]));
            assert(s@.subrange(from as int, j + 1 as int).last() == s@[j as int]);
            assert(decimal_value(s@.subrange(from as int, j + 1 as int)) == decimal_value(prefix)
                * 10 + d);
        }
        let grown: u64 = acc * 10 + (d as u64);
        acc = if grown > MAX_COLOR_INDEX {
            MAX_COLOR_INDEX
        } else {
            grown
        };
        j = j + 1;
    }
    acc
}

/// Exec parser for one palette line.  An index at or above
/// `MAX_COLOR_INDEX` is reported saturated at the bound.
pub fn parse_custom_line_of(s: &str) -> (r: Option<(usize, Color)>)
    ensures
        match parse_custom_line(s@) {
            Some(p) => (r matches Some(q) && channels_match(q.1@, p.1) && q.1@.contrasts.len()
                == 0 && (p.0 < MAX_COLOR_INDEX ==> q.0 == p.0) && (p.0 >= MAX_COLOR_INDEX ==> q.0
                == MAX_COLOR_INDEX)),
            None => r is None,
        },
{
    let n = s.unicode_len();
    let i0 = ws_end_of(s, n, 0);
    if !(n >= 5 && i0 <= n - 5 && s.get_char(i0) == 'c' && s.get_char(i0 + 1) == 'o' && s.get_char(i0 + 2)
        == 'l' && s.get_char(i0 + 3) == 'o' && s.get_char(i0 + 4) == 'r') {
        return None;
    }
    let i1 = i0 + 5;
    let i2 = digits_end_of(s, n, i1);
    if !(i2 > i1) {
        return None;
    }
    proof {
        lemma_digits_run(s@, i1 as int, i2 as int);
    }
    let idx = decimal_value_of(s, n, i1, i2);
    let i3 = ws_end_of(s, n, i2);
    if !(i3 < n && s.get_char(i3) == '=') {
        return None;
    }
    let i4 = ws_end_of(s, n, i3 + 1);
    if !(i4 < n && i4 + 1 < n) {
        return None;
    }
    let quote = s.get_char(i4);
    if !((quote == '\'' || quote == '"') && s.get_char(i4 + 1) == '#') {
        return None;
    }
    let h0 = i4 + 2;
    let h1 = hex_end_of(s, n, h0);
    if !((h1 - h0 == 6 || h1 - h0 == 8) && h1 < n) {
        return None;
    }
    let closing = s.get_char(h1);
    if !(closing == '\'' || closing == '"') {
        return None;
    }
    if !(ws_end_of(s, n, h1 + 1) == n) {
        return None;
    }
    proof {
        lemma_hex_run(s@, h0 as int, h1 as int);
    }
    let b0 = hex_pair_byte_of(s, n, h0);
    let b1 = hex_pair_byte_of(s, n, h0 + 2);
    let b2 = hex_pair_byte_of(s, n, h0 + 4);
    let b3 = if h1 - h0 == 8 {
        hex_pair_byte_of(s, n, h0 + 6)
    } else {
        255
    };
    Some(
        (
            idx as usize,
            Color { red: b0, green: b1, blue: b2, alpha: b3, contrasts: Vec::new() },
        ),
    )
}

/// Every character strictly before `digits_end` is a decimal digit.
proof fn lemma_digits_run(s: Seq<char>, i: int, e: int)
    requires
        0 <= i,
        e == digits_end(s, i),
    ensures
        forall|k: int| i <= k < e ==> #[trigger] is_dec_digit(s[k]),
    decreases s.len() - i,
{
    if 0 <= i < s.len() && is_dec_digit(s[i]) {
        lemma_digits_run(s, i + 1, e);
    }
}

/// Every character strictly before `hex_end` is a hexadecimal digit.
proof fn lemma_hex_run(s: Seq<char>, i: int, e: int)
    requires
        0 <= i,
        e == hex_end(s, i),
    ensures
        forall|k: int| i <= k < e ==> #[trigger] is_hex_digit(s[k]),
    decreases s.len() - i,
{
    if 0 <= i < s.len() && is_hex_digit(s[i]) {
        lemma_hex_run(s, i + 1, e);
    }
}

/// The byte written at positions `i`, `i + 1`.
fn hex_pair_byte_of(s: &str, n: usize, i: usize) -> (b: u8)
    requires
        n == s@.len(),
        i + 1 < n,
        is_hex_digit(s@[i as int]),
        is_hex_digit(s@[i as int + 1]),
    ensures
        b == hex_pair_byte(s@[i as int], s@[i as int + 1]),
{
    let hi = match crate::hex::hex_digit_value_of(s.get_char(i)) {
        Some(v) => v,
        None => 0,
    };
    let lo = match crate::hex::hex_digit_value_of(s.get_char(i + 1)) {
        Some(v) => v,
        None => 0,
    };
    16 * hi + lo
}

/// The pairs of a line prefix form a prefix of the pairs of all lines.
proof fn lemma_custom_pairs_prefix(lines: Seq<String>, i: int)
    requires
        0 <= i <= lines.len(),
    ensures
        custom_pairs(lines).len() >= custom_pairs(lines.subrange(0, i)).len(),
        forall|k: int|
            0 <= k < custom_pairs(lines.subrange(0, i)).len() ==> #[trigger] custom_pairs(lines)[k]
                == custom_pairs(lines.subrange(0, i))[k],
    decreases lines.len() - i,
{
    if i == lines.len() {
        assert(lines.subrange(0, i) =~= lines);
    } else {
        lemma_custom_pairs_prefix(lines, i + 1);
        assert(lines.subrange(0, i + 1).drop_last() =~= lines.subrange(0, i));
        assert(lines.subrange(0, i + 1).last() == lines[i]);
    }
}

/// The last pair with index `i` decides `last_value`.
proof fn lemma_last_value_at(pairs: Seq<(int, (u8, u8, u8, u8))>, i: int, k: int)
    requires
        0 <= k < pairs.len(),
        pairs[k].0 == i,
        forall|k2: int| k < k2 < pairs.len() ==> (#[trigger] pairs[k2]).0 != i,
    ensures
        last_value(pairs, i) == Some(pairs[k].1),
    decreases pairs.len(),
{
    if k == pairs.len() - 1 {
    } else {
        assert(pairs.last().0 != i);
        lemma_last_value_at(pairs.drop_last(), i, k);
    }
}

/// With no pair for index `i`, `last_value` yields nothing.
proof fn lemma_last_value_none(pairs: Seq<(int, (u8, u8, u8, u8))>, i: int)
    requires
        forall|k: int| 0 <= k < pairs.len() ==> (#[trigger] pairs[k]).0 != i,
    ensures
        last_value(pairs, i) is None,
    decreases pairs.len(),
{
    if pairs.len() > 0 {
        lemma_last_value_none(pairs.drop_last(), i);
    }
}

/// Imports a custom palette: every line matching the `colorN = "#hex"`
/// grammar declares a color, later declarations replacing earlier ones for
/// the same index.  The declared indices must densely cover `0..=max` and
/// yield at least 16 colors; an index at or above `MAX_COLOR_INDEX` fails
/// the import as a range error.  No contrast rankings are attached.
pub fn import_custom_palette(lines: &Vec<String>) -> (r: Result<BasePalette, ThemeError>)
    ensures
        !pairs_bounded(custom_pairs(lines@)) ==> r == Err::<BasePalette, ThemeError>(
            ThemeError::PaletteGapError,
        ),
        pairs_bounded(custom_pairs(lines@)) && custom_pairs(lines@).len() == 0 ==> r == Err::<
            BasePalette,
            ThemeError,
        >(ThemeError::PaletteSizeError),
        pairs_bounded(custom_pairs(lines@)) && custom_pairs(lines@).len() > 0 && !indices_dense(
            custom_pairs(lines@),
        ) ==> r == Err::<BasePalette, ThemeError>(ThemeError::PaletteGapError),
        pairs_bounded(custom_pairs(lines@)) && custom_pairs(lines@).len() > 0 && indices_dense(
            custom_pairs(lines@),
        ) && max_index(custom_pairs(lines@)) + 1 < 16 ==> r == Err::<BasePalette, ThemeError>(
            ThemeError::PaletteSizeError,
        ),
        pairs_bounded(custom_pairs(lines@)) && custom_pairs(lines@).len() > 0 && indices_dense(
            custom_pairs(lines@),
        ) && max_index(custom_pairs(lines@)) + 1 >= 16 ==> r is Ok,
        r matches Ok(p) ==> {
            &&& p.colors@.len() == max_index(custom_pairs(lines@)) + 1
            &&& forall|i: int|
                0 <= i < p.colors@.len() ==> channels_match(
                    (#[trigger] p.colors@[i])@,
                    last_value(custom_pairs(lines@), i).unwrap(),
                )
            &&& forall|i: int|
                0 <= i < p.colors@.len() ==> (#[trigger] p.colors@[i])@.contrasts.len() == 0
        },
{
    let ghost pairs = custom_pairs(lines@);
    let mut pv: Vec<(usize, Color)> = Vec::new();
    let mut i: usize = 0;
    while i < lines.len()
        invariant
            i <= lines@.len(),
            pv@.len() == custom_pairs(lines@.subrange(0, i as int)).len(),
            forall|k: int|
                0 <= k < pv@.len() ==> {
                    let sp = custom_pairs(lines@.subrange(0, i as int))[k];
                    &&& (#[trigger] pv@[k]).0 == sp.0
                    &&& channels_match(pv@[k].1@, sp.1)
                    &&& pv@[k].1@.contrasts.len() == 0
                    &&& sp.0 < MAX_COLOR_INDEX
                },
        decreases lines@.len() - i,
    {
        let ghost prefix = lines@.subrange(0, i as int);
        proof {
            assert(lines@.subrange(0, i + 1 as int).drop_last() =~= prefix);
            assert(lines@.subrange(0, i + 1 as int).last() == lines@[i as int]);
        }
        match parse_custom_line_of(lines[i].as_str()) {
            Some((idx, c)) => {
                if (idx as u64) >= MAX_COLOR_INDEX {
                    proof {
                        let later = custom_pairs(lines@.subrange(0, i + 1 as int));
                        let j = pv@.len() as int;
                        assert(later[j].0 >= MAX_COLOR_INDEX);
                        lemma_custom_pairs_prefix(lines@, i + 1);
                        assert(custom_pairs(lines@)[j].0 >= MAX_COLOR_INDEX);
                        assert(!pairs_bounded(custom_pairs(lines@)));
                    }
                    return Err(ThemeError::PaletteGapError);
                }
                pv.push((idx, c));
            },
            None => {},
        }
        i = i + 1;
    }
    proof {
        assert(lines@.subrange(0, lines@.len() as int) =~= lines@);
        assert forall|k: int| 0 <= k < pairs.len() implies (#[trigger] pairs[k]).0
            < MAX_COLOR_INDEX by {
            assert(pv@[k].0 == pairs[k].0);
        }
        assert(pairs_bounded(pairs));
    }
    if pv.len() == 0 {
        return Err(ThemeError::PaletteSizeError);
    }
    let mut mx: usize = pv[0].0;
    let mut k: usize = 1;
    while k < pv.len()
        invariant
            1 <= k <= pv@.len(),
            pv@.len() == pairs.len(),
            pairs == custom_pairs(lines@),
            forall|k2: int| 0 <= k2 < pv@.len() ==> (#[trigger] pv@[k2]).0 == pairs[k2].0,
            forall|k2: int| 0 <= k2 < pv@.len() ==> (#[trigger] pv@[k2]).0 < MAX_COLOR_INDEX,
            mx < MAX_COLOR_INDEX,
            mx == max_index(pairs.subrange(0, k as int)),
        decreases pv@.len() - k,
    {
        proof {
            assert(pairs.subrange(0, k + 1 as int).drop_last() =~= pairs.subrange(0, k as int));
        }
        if pv[k].0 > mx {
            mx = pv[k].0;
        }
        k = k + 1;
    }
    proof {
        assert(pairs.subrange(0, pairs.len() as int) =~= pairs);
    }
    let mut cols: Vec<Color> = Vec::new();
    let mut want: usize = 0;
    while want <= mx
        invariant
            want <= mx + 1,
            mx < MAX_COLOR_INDEX,
            mx == max_index(pairs),
            pairs == custom_pairs(lines@),
            pairs.len() == pv@.len() > 0,
            forall|k2: int|
                0 <= k2 < pv@.len() ==> {
                    let sp = pairs[k2];
                    &&& (#[trigger] pv@[k2]).0 == sp.0
                    &&& channels_match(pv@[k2].1@, sp.1)
                    &&& pv@[k2].1@.contrasts.len() == 0
                },
            cols@.len() == want,
            forall|i2: int| 0 <= i2 < want ==> #[trigger] has_index(pairs, i2),
            forall|i2: int|
                0 <= i2 < want ==> channels_match(
                    (#[trigger] cols@[i2])@,
                    last_value(pairs, i2).unwrap(),
                ) && cols@[i2]@.contrasts.len() == 0,
        decreases mx + 1 - want,
    {
        let mut found: Option<usize> = None;
        let mut k2: usize = 0;
        while k2 < pv.len()
            invariant
                k2 <= pv@.len(),
                match found {
                    Some(f) => {
                        &&& f < k2
                        &&& pv@[f as int].0 == want
                        &&& forall|k3: int| f < k3 < k2 ==> (#[trigger] pv@[k3]).0 != want
                    },
                    None => forall|k3: int| 0 <= k3 < k2 ==> (#[trigger] pv@[k3]).0 != want,
                },
            decreases pv@.len() - k2,
        {
            if pv[k2].0 == want {
                found = Some(k2);
            }
            k2 = k2 + 1;
        }
        match found {
            Some(f) => {
                proof {
                    assert forall|k3: int| f < k3 < pairs.len() implies (#[trigger] pairs[k3]).0
                        != want by {
                        assert(pv@[k3].0 != want);
                    }
                    assert(pairs[f as int].0 == pv@[f as int].0);
                    lemma_last_value_at(pairs, want as int, f as int);
                }
                let c = pv[f].1.duplicate();
                cols.push(c);
            },
            None => {
                proof {
                    assert forall|k3: int| 0 <= k3 < pairs.len() implies (#[trigger] pairs[k3]).0
                        != want by {
                        assert(pv@[k3].0 != want);
                    }
                    lemma_last_value_none(pairs, want as int);
                    assert(!has_index(pairs, want as int));
                }
                return Err(ThemeError::PaletteGapError);
            },
        }
        want = want + 1;
    }
    proof {
        assert(indices_dense(pairs));
    }
    if cols.len() < 16 {
        return Err(ThemeError::PaletteSizeError);
    }
    Ok(BasePalette { colors: cols })
}

} // verus!
