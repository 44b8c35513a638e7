//! Palette import: turns an ordered list of hex color strings into the named
//! base palette `color0..colorN`, padding short lists to 16 entries and
//! optionally reordering non-anchor entries by relative luminance.

use vstd::prelude::*;

use crate::color::Color;
use crate::color::ColorView;
use crate::color::luminance_num;
use crate::errors::ThemeError;
use crate::hex::parse_hex_rgba;

verus! {

/// Which import grammar and arrangement to use for a palette source.
#[derive(Clone, Copy, Debug, PartialEq, Eq, Structural)]
pub enum Palette {
    /// Plain wal-style list, one hex color per line, in file order.
    Wal,
    /// Wal-style list with non-anchor entries reordered by luminance.
    WalReordered,
    /// `colorN = "#hex"` declarations with explicit dense indices.
    Custom,
}

/// Relative luminance quantized for sorting: the numerator at denominator
/// `10^9` (that is, `luminance_num / 2550`), rounded down.
pub open spec fn lum_quant(c: ColorView) -> int {
    luminance_num(c) / 2550
}

/// The view of a color whose channels are `q` and which carries no ranking.
pub open spec fn channels_view(q: (u8, u8, u8, u8)) -> ColorView {
    ColorView { red: q.0, green: q.1, blue: q.2, alpha: q.3, contrasts: Seq::empty() }
}

/// `c` has exactly the channels `q`.
pub open spec fn channels_match(c: ColorView, q: (u8, u8, u8, u8)) -> bool {
    c.red == q.0 && c.green == q.1 && c.blue == q.2 && c.alpha == q.3
}

/// Line `i` of a wal-style list parses as a hex color.
pub open spec fn line_valid(lines: Seq<String>, i: int) -> bool {
    parse_hex_rgba(lines[i]@) is Some
}

pub open spec fn all_lines_valid(lines: Seq<String>) -> bool {
    forall|i: int| 0 <= i < lines.len() ==> #[trigger] line_valid(lines, i)
}

/// The channels written on line `i`.
pub open spec fn wal_channels(lines: Seq<String>, i: int) -> (u8, u8, u8, u8) {
    parse_hex_rgba(lines[i]@).unwrap()
}

/// The views of all colors of a wal-style list, in line order.
pub open spec fn wal_views(lines: Seq<String>) -> Seq<ColorView> {
    Seq::new(lines.len(), |i: int| channels_view(wal_channels(lines, i)))
}

/// Stable insertion of `c` into `s`: before the first entry of strictly
/// larger quantized luminance, after every entry of equal or smaller one.
pub open spec fn insert_by_lum(s: Seq<ColorView>, c: ColorView) -> Seq<ColorView>
    decreases s.len(),
{
    if s.len() == 0 {
        seq![c]
    } else if lum_quant(c) < lum_quant(s[0]) {
        seq![c] + s
    } else {
        seq![s[0]] + insert_by_lum(s.drop_first(), c)
    }
}

/// Stable sort by ascending quantized luminance: entries of equal luminance
/// keep their relative order.
pub open spec fn lum_sort(s: Seq<ColorView>) -> Seq<ColorView>
    decreases s.len(),
{
    if s.len() == 0 {
        Seq::empty()
    } else {
        insert_by_lum(lum_sort(s.drop_last()), s.last())
    }
}

/// Insertion into a sequence sorted by quantized luminance keeps it sorted.
proof fn lemma_insert_by_lum_sorted(s: Seq<ColorView>, c: ColorView)
    requires
        forall|k1: int, k2: int|
            0 <= k1 <= k2 < s.len() ==> lum_quant(#[trigger] s[k1]) <= lum_quant(#[trigger] s[k2]),
    ensures
        forall|k1: int, k2: int|
            0 <= k1 <= k2 < insert_by_lum(s, c).len() ==> lum_quant(
                #[trigger] insert_by_lum(s, c)[k1],
            ) <= lum_quant(#[trigger] insert_by_lum(s, c)[k2]),
    decreases s.len(),
{
    lemma_insert_by_lum_len(s, c);
    if s.len() == 0 {
    } else if lum_quant(c) < lum_quant(s[0]) {
    } else {
        let t = s.drop_first();
        assert forall|k1: int, k2: int|
            0 <= k1 <= k2 < t.len() implies lum_quant(#[trigger] t[k1]) <= lum_quant(
            #[trigger] t[k2],
        ) by {
            assert(t[k1] == s[k1 + 1] && t[k2] == s[k2 + 1]);
        }
        lemma_insert_by_lum_sorted(t, c);
        let r = insert_by_lum(s, c);
        assert forall|k1: int, k2: int|
            0 <= k1 <= k2 < r.len() implies lum_quant(#[trigger] r[k1]) <= lum_quant(
            #[trigger] r[k2],
        ) by {
            if k1 == 0 {
                if k2 > 0 {
                    assert(r[k2] == insert_by_lum(t, c)[k2 - 1]);
                    if t.len() == 0 {
                    } else if lum_quant(c) < lum_quant(t[0]) {
                        if k2 == 1 {
                        } else {
                            assert(insert_by_lum(t, c)[k2 - 1] == t[k2 - 2]);
                            assert(lum_quant(s[0]) <= lum_quant(s[k2 - 1]));
                        }
                    } else {
                        assert(lum_quant(insert_by_lum(t, c)[0]) <= lum_quant(
                            insert_by_lum(t, c)[k2 - 1],
                        ));
                        assert(insert_by_lum(t, c)[0] == t[0]);
                        assert(lum_quant(s[0]) <= lum_quant(t[0]));
                    }
                }
            } else {
                assert(r[k1] == insert_by_lum(t, c)[k1 - 1]);
                assert(r[k2] == insert_by_lum(t, c)[k2 - 1]);
            }
        }
    }
}

/// The stable luminance sort orders its result ascending: entry for entry,
/// the quantized relative luminance never decreases.
pub proof fn lemma_lum_sort_sorted(s: Seq<ColorView>)
    ensures
        forall|k1: int, k2: int|
            0 <= k1 <= k2 < lum_sort(s).len() ==> lum_quant(#[trigger] lum_sort(s)[k1])
                <= lum_quant(#[trigger] lum_sort(s)[k2]),
    decreases s.len(),
{
    if s.len() > 0 {
        lemma_lum_sort_sorted(s.drop_last());
        lemma_insert_by_lum_sorted(lum_sort(s.drop_last()), s.last());
    }
}

/// The number of entries an imported palette has: the line count, or 16 when
/// fewer lines were given.
pub open spec fn padded_len(line_count: int) -> int {
    if line_count >= 16 {
        line_count
    } else {
        16
    }
}

/// Every padding entry repeats the entry `line_count` positions earlier.
pub open spec fn padding_ok(cols: Seq<Color>, line_count: int) -> bool {
    forall|i: int|
        line_count <= i < cols.len() ==> (#[trigger] cols[i])@ == cols[i - line_count]@
}

/// Plain wal arrangement: entry `i` holds the channels of line `i`.
pub open spec fn wal_plain_arrangement(lines: Seq<String>, cols: Seq<Color>) -> bool {
    &&& cols.len() == padded_len(lines.len() as int)
    &&& forall|i: int|
        0 <= i < lines.len() ==> channels_match((#[trigger] cols[i])@, wal_channels(lines, i))
    &&& padding_ok(cols, lines.len() as int)
}

/// A position kept fixed by the luminance reordering: the first and last
/// position of each block of eight.
pub open spec fn is_anchor(i: int) -> bool {
    i % 8 == 0 || i % 8 == 7
}

/// The length of the reordered block starting at position `s`.
pub open spec fn block_len(line_count: int, s: int) -> int {
    if line_count - s >= 6 {
        6
    } else {
        line_count - s
    }
}

/// The block of `cnt` entries at `s` holds its lines' colors sorted stably by
/// ascending quantized luminance.
pub open spec fn block_sorted(lines: Seq<String>, cols: Seq<Color>, s: int, cnt: int) -> bool {
    forall|m: int|
        0 <= m < cnt ==> (#[trigger] cols[s + m])@.same_channels(
            lum_sort(wal_views(lines).subrange(s, s + cnt))[m],
        )
}

/// Luminance-reordered wal arrangement: anchor positions keep their line's
/// channels; each block of up to six positions between anchors holds its
/// lines' colors sorted by ascending quantized luminance.
pub open spec fn wal_sorted_arrangement(lines: Seq<String>, cols: Seq<Color>) -> bool {
    &&& cols.len() == padded_len(lines.len() as int)
    &&& forall|i: int|
        0 <= i < lines.len() && is_anchor(i) ==> channels_match(
            (#[trigger] cols[i])@,
            wal_channels(lines, i),
        )
    &&& forall|b: int|
        0 <= b && 8 * b + 1 < lines.len() ==> #[trigger] block_sorted(
            lines,
            cols,
            8 * b + 1,
            block_len(lines.len() as int, 8 * b + 1),
        )
    &&& padding_ok(cols, lines.len() as int)
}

/// Quantized luminance of a color, for sorting.
fn lum_quant_of(c: &Color) -> (q: u64)
    ensures
        q == lum_quant(c@),
{
    c.get_relative_luminance() / 2550
}

/// Recursive insertion at a scanned position agrees with `insert_by_lum`.
proof fn lemma_insert_by_lum_at(s: Seq<ColorView>, c: ColorView, p: int)
    requires
        0 <= p <= s.len(),
        forall|k: int| 0 <= k < p ==> lum_quant(#[trigger] s[k]) <= lum_quant(c),
        p < s.len() ==> lum_quant(c) < lum_quant(s[p]),
    ensures
        insert_by_lum(s, c) =~= s.insert(p, c),
    decreases p,
{
    if p == 0 {
        assert(insert_by_lum(s, c) =~= s.insert(0, c));
    } else {
        assert(lum_quant(s[0]) <= lum_quant(c));
        lemma_insert_by_lum_at(s.drop_first(), c, p - 1);
        assert(insert_by_lum(s, c) =~= seq![s[0]] + s.drop_first().insert(p - 1, c));
        assert(seq![s[0]] + s.drop_first().insert(p - 1, c) =~= s.insert(p, c));
    }
}

/// Insertion grows the sequence by one.
proof fn lemma_insert_by_lum_len(s: Seq<ColorView>, c: ColorView)
    ensures
        insert_by_lum(s, c).len() == s.len() + 1,
    decreases s.len(),
{
    if s.len() == 0 {
    } else if lum_quant(c) < lum_quant(s[0]) {
    } else {
        lemma_insert_by_lum_len(s.drop_first(), c);
    }
}

/// Sorting keeps the length.
proof fn lemma_lum_sort_len(s: Seq<ColorView>)
    ensures
        lum_sort(s).len() == s.len(),
    decreases s.len(),
{
    if s.len() > 0 {
        lemma_lum_sort_len(s.drop_last());
        lemma_insert_by_lum_len(lum_sort(s.drop_last()), s.last());
    }
}

/// Insertion keeps the length and the absence of contrast rankings.
proof fn lemma_insert_by_lum_shape(s: Seq<ColorView>, c: ColorView)
    requires
        forall|k: int| 0 <= k < s.len() ==> (#[trigger] s[k]).contrasts.len() == 0,
        c.contrasts.len() == 0,
    ensures
        insert_by_lum(s, c).len() == s.len() + 1,
        forall|k: int|
            0 <= k < s.len() + 1 ==> (#[trigger] insert_by_lum(s, c)[k]).contrasts.len() == 0,
    decreases s.len(),
{
    if s.len() == 0 {
    } else if lum_quant(c) < lum_quant(s[0]) {
    } else {
        lemma_insert_by_lum_shape(s.drop_first(), c);
    }
}

/// Sorting keeps the length and the absence of contrast rankings.
proof fn lemma_lum_sort_shape(s: Seq<ColorView>)
    requires
        forall|k: int| 0 <= k < s.len() ==> (#[trigger] s[k]).contrasts.len() == 0,
    ensures
        lum_sort(s).len() == s.len(),
        forall|k: int| 0 <= k < s.len() ==> (#[trigger] lum_sort(s)[k]).contrasts.len() == 0,
    decreases s.len(),
{
    if s.len() > 0 {
        lemma_lum_sort_shape(s.drop_last());
        lemma_insert_by_lum_shape(lum_sort(s.drop_last()), s.last());
    }
}

/// The views of a block of `cnt` colors starting at `s`.
pub open spec fn block_views(cols: Seq<Color>, s: int, cnt: int) -> Seq<ColorView> {
    Seq::new(cnt as nat, |m: int| cols[s + m]@)
}

/// The colors `cols[s..s+cnt]`, sorted stably by ascending quantized
/// luminance.
fn lum_sort_block(cols: &Vec<Color>, s: usize, cnt: usize) -> (r: Vec<Color>)
    requires
        cnt <= 6,
        s <= usize::MAX - 6,
        s + cnt <= cols@.len(),
    ensures
        r@.len() == cnt,
        forall|m: int|
            0 <= m < cnt ==> (#[trigger] r@[m])@ == lum_sort(
                block_views(cols@, s as int, cnt as int),
            )[m],
{
    let mut r: Vec<Color> = Vec::new();
    let mut m: usize = 0;
    while m < cnt
        invariant
            m <= cnt <= 6,
            s <= usize::MAX - 6,
            s + cnt <= cols@.len(),
            r@.len() == m,
            forall|k: int|
                0 <= k < m ==> (#[trigger] r@[k])@ == lum_sort(
                    block_views(cols@, s as int, m as int),
                )[k],
        decreases cnt - m,
    {
        let ghost prev_views = Seq::new(m as nat, |k: int| r@[k]@);
        proof {
            assert forall|k: int| 0 <= k < m implies prev_views[k] == lum_sort(
                block_views(cols@, s as int, m as int),
            )[k] by {
                assert(r@[k]@ == lum_sort(block_views(cols@, s as int, m as int))[k]);
            }
            assert(block_views(cols@, s as int, m as int).len() == m);
            lemma_lum_sort_len(block_views(cols@, s as int, m as int));
            assert(prev_views =~= lum_sort(block_views(cols@, s as int, m as int)));
        }
        let c = cols[s + m].duplicate();
        let key = lum_quant_of(&c);
        let mut p: usize = 0;
        while p < r.len() && lum_quant_of(&r[p]) <= key
            invariant
                p <= r@.len(),
                key == lum_quant(c@),
                forall|k: int| 0 <= k < p ==> lum_quant((#[trigger] r@[k])@) <= key,
            decreases r@.len() - p,
        {
            p = p + 1;
        }
        let ghost before = r@;
        r.insert(p, c);
        proof {
            assert forall|k: int| 0 <= k < p implies lum_quant(#[trigger] prev_views[k]) <= lum_quant(
                c@,
            ) by {
                assert(prev_views[k] == before[k]@);
            }
            if (p as int) < prev_views.len() {
                assert(prev_views[p as int] == before[p as int]@);
            }
            lemma_insert_by_lum_at(prev_views, c@, p as int);
            let bv_next = block_views(cols@, s as int, m + 1 as int);
            assert(bv_next.drop_last() =~= block_views(cols@, s as int, m as int));
            assert(bv_next.last() == c@);
            assert(lum_sort(bv_next) == insert_by_lum(
                lum_sort(block_views(cols@, s as int, m as int)),
                c@,
            ));
            assert forall|k: int| 0 <= k < m + 1 implies (#[trigger] r@[k])@ == lum_sort(
                bv_next,
            )[k] by {
                assert(r@ == before.insert(p as int, c));
                if k < p {
                    assert(r@[k] == before[k]);
                } else if k > p {
                    assert(r@[k] == before[k - 1]);
                }
                assert(lum_sort(bv_next) =~= prev_views.insert(p as int, c@));
            }
        }
        m = m + 1;
    }
    r
}

/// Rewrites the block of `cnt` entries at `s` with those entries sorted
/// stably by ascending quantized luminance.  Entries outside the block are
/// untouched.
fn reorder_block(
    cols: &mut Vec<Color>,
    s: usize,
    cnt: usize,
    Ghost(lines): Ghost<Seq<String>>,
    Ghost(parsed): Ghost<Seq<Color>>,
)
    requires
        old(cols)@.len() == lines.len(),
        lines.len() <= usize::MAX - 8,
        1 <= s,
        cnt <= 6,
        s + cnt <= lines.len(),
        forall|k: int| 0 <= k < lines.len() ==> (#[trigger] old(cols)@[k])@.contrasts.len() == 0,
        forall|k: int| s <= k < s + cnt ==> (#[trigger] old(cols)@[k])@ == parsed[k]@,
        forall|k: int|
            0 <= k < lines.len() ==> channels_match((#[trigger] parsed[k])@, wal_channels(lines, k))
                && parsed[k]@.contrasts.len() == 0,
    ensures
        final(cols)@.len() == old(cols)@.len(),
        forall|k: int|
            0 <= k < lines.len() && !(s <= k < s + cnt) ==> (#[trigger] final(cols)@[k])@ == old(
                cols,
            )@[k]@,
        block_sorted(lines, final(cols)@, s as int, cnt as int),
        forall|k: int|
            0 <= k < lines.len() ==> (#[trigger] final(cols)@[k])@.contrasts.len() == 0,
{
    let ghost cols_at_start = cols@;
    let sorted = lum_sort_block(&cols, s, cnt);
    let ghost wv = wal_views(lines).subrange(s as int, s + cnt as int);
    proof {
        let bv = block_views(cols@, s as int, cnt as int);
        assert forall|k: int| 0 <= k < cnt implies bv[k] =~~= wv[k] by {
            assert(cols@[s + k]@ == parsed[s + k]@);
            assert(channels_match(parsed[s + k]@, wal_channels(lines, s + k)));
            assert(parsed[s + k]@.contrasts.len() == 0);
        }
        assert(bv =~~= wv);
        assert forall|k: int| 0 <= k < cnt implies (#[trigger] wv[k]).contrasts.len() == 0 by {
            assert(wv[k] == channels_view(wal_channels(lines, s + k)));
        }
        lemma_lum_sort_shape(wv);
    }
    let mut m: usize = 0;
    while m < cnt
        invariant
            s + cnt <= lines.len(),
            lines.len() <= usize::MAX - 8,
            m <= cnt <= 6,
            1 <= s,
            cols@.len() == lines.len(),
            sorted@.len() == cnt,
            wv == wal_views(lines).subrange(s as int, s + cnt as int),
            lum_sort(wv).len() == cnt,
            forall|k: int| 0 <= k < cnt ==> (#[trigger] sorted@[k])@ == lum_sort(wv)[k],
            forall|k: int|
                0 <= k < lines.len() && !(s <= k < s + m) ==> (#[trigger] cols@[k])@
                    == cols_at_start[k]@,
            forall|k: int| s <= k < s + m ==> (#[trigger] cols@[k])@ == sorted@[k - s]@,
        decreases cnt - m,
    {
        let c = sorted[m].duplicate();
        cols[s + m] = c;
        m = m + 1;
    }
    proof {
        assert forall|k: int| 0 <= k < lines.len() implies (#[trigger] cols@[k])@.contrasts.len()
            == 0 by {
            if s <= k < s + cnt {
                assert(cols@[k]@ == lum_sort(wv)[k - s]);
                assert(lum_sort(wv)[k - s].contrasts.len() == 0);
            } else {
                assert(cols@[k]@ == cols_at_start[k]@);
            }
        }
        assert(block_sorted(lines, cols@, s as int, cnt as int)) by {
            assert forall|mm: int| 0 <= mm < cnt implies (#[trigger] cols@[s + mm])@.same_channels(
                lum_sort(wal_views(lines).subrange(s as int, s + cnt as int))[mm],
            ) by {
                assert(cols@[s + mm]@ == sorted@[mm]@);
                assert(sorted@[mm]@ == lum_sort(wv)[mm]);
            }
        }
    }
}

/// Imports a wal-style color list: one hex color per line, the line number
/// giving the palette index.  Lists shorter than 16 lines are padded by
/// repeating entries from the start; with `sort_by_luminance`, the non-anchor
/// entries of each block of eight are first reordered by ascending quantized
/// relative luminance.  No contrast rankings are attached.
#[verifier::rlimit(100)]
pub fn import_wal_palette(lines: &Vec<String>, sort_by_luminance: bool) -> (r: Result<
    crate::contrast::BasePalette,
    ThemeError,
>)
    requires
        lines@.len() <= usize::MAX - 8,
    ensures
        lines@.len() == 0 ==> r == Err::<crate::contrast::BasePalette, ThemeError>(
            ThemeError::PaletteSizeError,
        ),
        lines@.len() > 0 && !all_lines_valid(lines@) ==> r == Err::<
            crate::contrast::BasePalette,
            ThemeError,
        >(ThemeError::InvalidHexFormat),
        lines@.len() > 0 && all_lines_valid(lines@) ==> r is Ok,
        r matches Ok(p) ==> {
            &&& !sort_by_luminance ==> wal_plain_arrangement(lines@, p.colors@)
            &&& sort_by_luminance ==> wal_sorted_arrangement(lines@, p.colors@)
            &&& forall|i: int|
                0 <= i < p.colors@.len() ==> (#[trigger] p.colors@[i])@.contrasts.len() == 0
        },
{
    let line_count = lines.len();
    if line_count == 0 {
        return Err(ThemeError::PaletteSizeError);
    }
    let mut cols: Vec<Color> = Vec::new();
    let mut i: usize = 0;
    while i < line_count
        invariant
            i <= line_count == lines@.len(),
            cols@.len() == i,
            forall|k: int| 0 <= k < i ==> #[trigger] line_valid(lines@, k),
            forall|k: int|
                0 <= k < i ==> channels_match((#[trigger] cols@[k])@, wal_channels(lines@, k))
                    && cols@[k]@.contrasts.len() == 0,
        decreases line_count - i,
    {
        match Color::from_hex(lines[i].as_str()) {
            Some(c) => {
                cols.push(c);
            },
            None => {
                assert(!line_valid(lines@, i as int));
                return Err(ThemeError::InvalidHexFormat);
            },
        }
        i = i + 1;
    }
    if sort_by_luminance {
        let ghost parsed = cols@;
        let mut s: usize = 1;
        while s < line_count
            invariant
                line_count == lines@.len(),
                line_count <= usize::MAX - 8,
                1 <= s,
                (s - 1) % 8 == 0,
                cols@.len() == line_count,
                forall|k: int| 0 <= k < line_count ==> (#[trigger] cols@[k])@.contrasts.len() == 0,
                forall|k: int|
                    0 <= k < line_count && (is_anchor(k) || k >= s - 1) ==> (#[trigger] cols@[k])@
                        == parsed[k]@,
                forall|k: int|
                    0 <= k < line_count ==> channels_match(
                        (#[trigger] parsed[k])@,
                        wal_channels(lines@, k),
                    ) && parsed[k]@.contrasts.len() == 0,
                forall|b: int|
                    0 <= b && 8 * b + 1 < s - 1 && 8 * b + 1 < line_count
                        ==> #[trigger] block_sorted(
                        lines@,
                        cols@,
                        8 * b + 1,
                        block_len(line_count as int, 8 * b + 1),
                    ),
            decreases line_count + 8 - s,
        {
            let cnt: usize = if line_count - s >= 6 {
                6
            } else {
                line_count - s
            };
            assert(cnt == block_len(line_count as int, s as int));
            let ghost cols_at_start = cols@;
            proof {
                assert forall|k: int| s <= k < s + cnt implies (#[trigger] cols@[k])@
                    == parsed[k]@ by {
                    assert(k >= s - 1);
                }
            }
            reorder_block(&mut cols, s, cnt, Ghost(lines@), Ghost(parsed));
            let ghost s_old = s as int;
            s = s + 8;
            proof {
                vstd::arithmetic::div_mod::lemma_mod_add_multiples_vanish(s_old - 1, 8);
                assert(s as int - 1 == 8 + (s_old - 1));
                assert((s as int - 1) % 8 == 0);
                assert forall|k: int|
                    0 <= k < line_count && (is_anchor(k) || k >= s - 1) implies (#[trigger] cols@[k])@
                    == parsed[k]@ by {
                    if !(s_old <= k < s_old + cnt) {
                        assert(cols@[k]@ == cols_at_start[k]@);
                    } else {
                        assert(is_anchor(k));
                        assert(k % 8 == 0 || k % 8 == 7);
                        assert((s_old - 1) % 8 == 0);
                        assert(false) by (nonlinear_arith)
                            requires
                                s_old >= 1,
                                (s_old - 1) % 8 == 0,
                                s_old <= k < s_old + 6,
                                k % 8 == 0 || k % 8 == 7,
                        ;
                    }
                }
                assert forall|b: int|
                    0 <= b && 8 * b + 1 < s - 1 && 8 * b + 1 < line_count
                        implies #[trigger] block_sorted(
                    lines@,
                    cols@,
                    8 * b + 1,
                    block_len(line_count as int, 8 * b + 1),
                ) by {
                    let bs = 8 * b + 1;
                    let bl = block_len(line_count as int, bs);
                    if bs == s_old {
                        assert(bl == cnt);
                        assert(block_sorted(lines@, cols@, s_old, cnt as int));
                    } else {
                        assert(bs < s_old - 1);
                        assert(block_sorted(lines@, cols_at_start, bs, bl));
                        assert(bs + bl <= s_old);
                        assert forall|mm: int|
                            0 <= mm < bl implies (#[trigger] cols@[bs + mm])@.same_channels(
                            lum_sort(wal_views(lines@).subrange(bs, bs + bl))[mm],
                        ) by {
                            assert(cols@[bs + mm]@ == cols_at_start[bs + mm]@);
                        }
                    }
                }
            }
        }
        proof {
            assert forall|b: int|
                0 <= b && 8 * b + 1 < line_count implies #[trigger] block_sorted(
                lines@,
                cols@,
                8 * b + 1,
                block_len(line_count as int, 8 * b + 1),
            ) by {
                assert((8 * b + 1) % 8 == 1) by (nonlinear_arith)
                    requires
                        b >= 0,
                ;
                if 8 * b + 1 == s - 1 {
                    assert(false);
                } else if 8 * b + 1 == s {
                    assert(8 * b + 1 < line_count <= s);
                    assert(false);
                } else if 8 * b + 1 > s {
                    assert(8 * b + 1 < line_count <= s);
                    assert(false);
                }
            }
        }
    }
    let ghost arranged = cols@;
    while cols.len() < 16
        invariant
            line_count == lines@.len(),
            1 <= line_count,
            line_count <= cols@.len(),
            cols@.len() <= padded_len(line_count as int),
            arranged.len() == line_count,
            padding_ok(cols@, line_count as int),
            forall|k: int| 0 <= k < line_count ==> (#[trigger] cols@[k])@ == arranged[k]@,
            forall|k: int|
                0 <= k < cols@.len() ==> (#[trigger] cols@[k])@.contrasts.len() == 0,
            forall|k: int|
                0 <= k < line_count ==> (#[trigger] arranged[k])@.contrasts.len() == 0,
        decreases 16 - cols.len(),
    {
        let idx = cols.len() - line_count;
        let c = cols[idx].duplicate();
        cols.push(c);
        proof {
            let n = cols@.len() as int;
            assert(cols@[n - 1]@ == cols@[n - 1 - line_count as int]@);
        }
    }
    proof {
        assert forall|i: int| 0 <= i < lines@.len() implies channels_match(
            (#[trigger] arranged[i])@,
            wal_channels(lines@, i),
        ) || sort_by_luminance by {}
        if sort_by_luminance {
            assert forall|b: int|
                0 <= b && 8 * b + 1 < lines@.len() implies #[trigger] block_sorted(
                lines@,
                cols@,
                8 * b + 1,
                block_len(lines@.len() as int, 8 * b + 1),
            ) by {
                let bs = 8 * b + 1;
                let bl = block_len(lines@.len() as int, bs);
                assert(block_sorted(lines@, arranged, bs, bl));
                assert forall|mm: int|
                    0 <= mm < bl implies (#[trigger] cols@[bs + mm])@.same_channels(
                    lum_sort(wal_views(lines@).subrange(bs, bs + bl))[mm],
                ) by {
                    assert(cols@[bs + mm]@ == arranged[bs + mm]@);
                    assert(arranged[bs + mm]@.same_channels(
                        lum_sort(wal_views(lines@).subrange(bs, bs + bl))[mm],
                    ));
                }
            }
        }
    }
    Ok(crate::contrast::BasePalette { colors: cols })
}

/// Channel-level form of `padding_ok`, indifferent to contrast rankings.
pub open spec fn padding_channels_ok(cols: Seq<Color>, line_count: int) -> bool {
    forall|i: int|
        line_count <= i < cols.len() ==> (#[trigger] cols[i])@.same_channels(
            cols[i - line_count]@,
        )
}

/// Channel-level form of `wal_plain_arrangement`.
pub open spec fn wal_plain_channels(lines: Seq<String>, cols: Seq<Color>) -> bool {
    &&& cols.len() == padded_len(lines.len() as int)
    &&& forall|i: int|
        0 <= i < lines.len() ==> channels_match((#[trigger] cols[i])@, wal_channels(lines, i))
    &&& padding_channels_ok(cols, lines.len() as int)
}

/// Channel-level form of `wal_sorted_arrangement`.
pub open spec fn wal_sorted_channels(lines: Seq<String>, cols: Seq<Color>) -> bool {
    &&& cols.len() == padded_len(lines.len() as int)
    &&& forall|i: int|
        0 <= i < lines.len() && is_anchor(i) ==> channels_match(
            (#[trigger] cols[i])@,
            wal_channels(lines, i),
        )
    &&& forall|b: int|
        0 <= b && 8 * b + 1 < lines.len() ==> #[trigger] block_sorted(
            lines,
            cols,
            8 * b + 1,
            block_len(lines.len() as int, 8 * b + 1),
        )
    &&& padding_channels_ok(cols, lines.len() as int)
}

/// Channel-level description of a custom import result.
pub open spec fn custom_channels(lines: Seq<String>, cols: Seq<Color>) -> bool {
    &&& cols.len() == crate::custom::max_index(crate::custom::custom_pairs(lines)) + 1
    &&& forall|i: int|
        0 <= i < cols.len() ==> channels_match(
            (#[trigger] cols[i])@,
            crate::custom::last_value(crate::custom::custom_pairs(lines), i).unwrap(),
        )
}

/// Whether a source in the given format imports successfully.
pub open spec fn import_succeeds(palette_type: Palette, lines: Seq<String>) -> bool {
    match palette_type {
        Palette::Wal => lines.len() > 0 && all_lines_valid(lines),
        Palette::WalReordered => lines.len() > 0 && all_lines_valid(lines),
        Palette::Custom => {
            let pairs = crate::custom::custom_pairs(lines);
            crate::custom::pairs_bounded(pairs) && pairs.len() > 0 && crate::custom::indices_dense(
                pairs,
            ) && crate::custom::max_index(pairs) + 1 >= 16
        },
    }
}

/// The channel arrangement a successful import of the given format yields.
pub open spec fn import_channels(palette_type: Palette, lines: Seq<String>, cols: Seq<Color>) -> bool {
    match palette_type {
        Palette::Wal => wal_plain_channels(lines, cols),
        Palette::WalReordered => wal_sorted_channels(lines, cols),
        Palette::Custom => custom_channels(lines, cols),
    }
}

/// Imports a base palette from the lines of a palette source in the given
/// format and attaches the contrast rankings of every base color but the
/// last.  The resulting palette always has at least 16 colors.
pub fn generate_palette(palette_type: Palette, lines: &Vec<String>) -> (r: Result<
    crate::contrast::BasePalette,
    ThemeError,
>)
    requires
        lines@.len() <= usize::MAX - 8,
    ensures
        r is Ok <==> import_succeeds(palette_type, lines@),
        r matches Ok(p) ==> {
            &&& import_channels(palette_type, lines@, p.colors@)
            &&& p.colors@.len() >= 16
            &&& forall|k: int|
                0 <= k < p.colors@.len() - 1 ==> crate::contrast::is_contrast_ranking(
                    (#[trigger] p.colors@[k])@.contrasts,
                    p.colors@,
                    k,
                )
        },
{
    let imported = match palette_type {
        Palette::Wal => import_wal_palette(lines, false),
        Palette::WalReordered => import_wal_palette(lines, true),
        Palette::Custom => crate::custom::import_custom_palette(lines),
    };
    match imported {
        Ok(mut p) => {
            let ghost before = p.colors@;
            crate::contrast::compute_contrasts(&mut p);
            proof {
                assert forall|i: int|
                    0 <= i < p.colors@.len() implies (#[trigger] p.colors@[i])@.same_channels(
                    before[i]@,
                ) by {}
                assert(import_channels(palette_type, lines@, p.colors@)) by {
                    match palette_type {
                        Palette::Wal => {
                            assert forall|i: int|
                                0 <= i < lines@.len() implies channels_match(
                                (#[trigger] p.colors@[i])@,
                                wal_channels(lines@, i),
                            ) by {
                                assert(channels_match(before[i]@, wal_channels(lines@, i)));
                            }
                            assert forall|i: int|
                                lines@.len() <= i < p.colors@.len() implies (#[trigger] p.colors@[i])@.same_channels(
                                p.colors@[i - lines@.len()]@,
                            ) by {
                                assert(before[i]@ == before[i - lines@.len()]@);
                            }
                        },
                        Palette::WalReordered => {
                            assert forall|i: int|
                                0 <= i < lines@.len() && is_anchor(i) implies channels_match(
                                (#[trigger] p.colors@[i])@,
                                wal_channels(lines@, i),
                            ) by {
                                assert(channels_match(before[i]@, wal_channels(lines@, i)));
                            }
                            assert forall|b: int|
                                0 <= b && 8 * b + 1 < lines@.len() implies #[trigger] block_sorted(
                                lines@,
                                p.colors@,
                                8 * b + 1,
                                block_len(lines@.len() as int, 8 * b + 1),
                            ) by {
                                let bs = 8 * b + 1;
                                let bl = block_len(lines@.len() as int, bs);
                                assert(block_sorted(lines@, before, bs, bl));
                                assert forall|m: int|
                                    0 <= m < bl implies (#[trigger] p.colors@[bs + m])@.same_channels(
                                    lum_sort(wal_views(lines@).subrange(bs, bs + bl))[m],
                                ) by {
                                    assert(before[bs + m]@.same_channels(
                                        lum_sort(wal_views(lines@).subrange(bs, bs + bl))[m],
                                    ));
                                }
                            }
                            assert forall|i: int|
                                lines@.len() <= i < p.colors@.len() implies (#[trigger] p.colors@[i])@.same_channels(
                                p.colors@[i - lines@.len()]@,
                            ) by {
                                assert(before[i]@ == before[i - lines@.len()]@);
                            }
                        },
                        Palette::Custom => {
                            assert forall|i: int|
                                0 <= i < p.colors@.len() implies channels_match(
                                (#[trigger] p.colors@[i])@,
                                crate::custom::last_value(
                                    crate::custom::custom_pairs(lines@),
                                    i,
                                ).unwrap(),
                            ) by {
                                assert(channels_match(
                                    before[i]@,
                                    crate::custom::last_value(
                                        crate::custom::custom_pairs(lines@),
                                        i,
                                    ).unwrap(),
                                ));
                            }
                        },
                    }
                }
            }
            Ok(p)
        },
        Err(e) => Err(e),
    }
}

} // verus!
