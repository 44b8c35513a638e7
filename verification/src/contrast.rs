//! The contrast index: for a base palette, the pairwise contrast ranking of
//! every base color, exposing "i-th most contrasting neighbor" lookups.
//!
//! Rankings order the quantized contrast ratios ascending; ties are broken by
//! the position of the neighbor in the palette, so the ranking is unique.

use vstd::prelude::*;

use crate::color::Color;
use crate::color::quantized_contrast;

verus! {

/// A base palette: the colors `color0..colorN` imported from an external
/// source, in index order.
#[derive(Debug)]
pub struct BasePalette {
    pub colors: Vec<Color>,
}

impl BasePalette {
    pub fn len(&self) -> (n: usize)
        ensures
            n == self.colors@.len(),
    {
        self.colors.len()
    }

    /// A copy of the color at `index`.
    pub fn color_at(&self, index: usize) -> (c: Color)
        requires
            index < self.colors@.len(),
        ensures
            c@ == self.colors@[index as int]@,
    {
        self.colors[index].duplicate()
    }
}

/// The sorting key of neighbor `j` in the ranking of base color `i`: the
/// quantized contrast ratio, with the palette position as tie-breaker.
pub open spec fn contrast_key(colors: Seq<Color>, i: int, j: int) -> (int, int) {
    (quantized_contrast(colors[i]@, colors[j]@), j)
}

pub open spec fn key_lt(a: (int, int), b: (int, int)) -> bool {
    a.0 < b.0 || (a.0 == b.0 && a.1 < b.1)
}

/// Some position of the pair list holds a pair whose index component is `j`.
pub open spec fn pairs_contain(s: Seq<(u64, usize)>, j: int) -> bool {
    exists|k: int| 0 <= k < s.len() && (#[trigger] s[k]).1 == j
}

/// Some position of `l` holds the index `j`.
pub open spec fn ranking_contains(l: Seq<usize>, j: int) -> bool {
    exists|k: int| 0 <= k < l.len() && #[trigger] l[k] == j
}

/// `l` is the contrast ranking of base color `i`: the indices of all other
/// palette colors, ordered strictly ascending by `contrast_key`.
pub open spec fn is_contrast_ranking(l: Seq<usize>, colors: Seq<Color>, i: int) -> bool {
    &&& l.len() == colors.len() - 1
    &&& forall|k: int| 0 <= k < l.len() ==> 0 <= #[trigger] l[k] < colors.len() && l[k] != i
    &&& forall|k1: int, k2: int|
        0 <= k1 < k2 < l.len() ==> key_lt(
            contrast_key(colors, i, #[trigger] l[k1] as int),
            contrast_key(colors, i, #[trigger] l[k2] as int),
        )
    &&& forall|j: int| 0 <= j < colors.len() && j != i ==> #[trigger] ranking_contains(l, j)
}

/// Attaches to every base color but the last its contrast ranking: all other
/// palette colors, sorted ascending by quantized contrast ratio against it,
/// ties broken by palette position.  Channel values are never changed, and
/// the last color keeps whatever ranking it had.
pub fn compute_contrasts(palette: &mut BasePalette)
    ensures
        final(palette).colors@.len() == old(palette).colors@.len(),
        forall|k: int|
            0 <= k < old(palette).colors@.len() ==> (#[trigger] final(
                palette
            ).colors@[k])@.same_channels(old(palette).colors@[k]@),
        forall|k: int|
            0 <= k < old(palette).colors@.len() - 1 ==> is_contrast_ranking(
                (#[trigger] final(palette).colors@[k])@.contrasts,
                final(palette).colors@,
                k,
            ),
        old(palette).colors@.len() >= 1 ==> final(palette).colors@.last()@ == old(
            palette,
        ).colors@.last()@,
{
    let n = palette.colors.len();
    if n == 0 {
        return ;
    }
    let mut i: usize = 0;
    while i < n - 1
        invariant
            n == palette.colors@.len(),
            i <= n - 1,
            forall|k: int|
                0 <= k < n ==> (#[trigger] palette.colors@[k])@.same_channels(
                    old(palette).colors@[k]@,
                ),
            forall|k: int|
                i <= k < n ==> (#[trigger] palette.colors@[k])@ == old(palette).colors@[k]@,
            forall|k: int|
                0 <= k < i ==> is_contrast_ranking(
                    (#[trigger] palette.colors@[k])@.contrasts,
                    palette.colors@,
                    k,
                ),
        decreases n - 1 - i,
    {
        let ghost colors_before = palette.colors@;
        let ranking = ranking_of(&palette.colors, i);
        let base = &palette.colors[i];
        let replacement = Color {
            red: base.red,
            green: base.green,
            blue: base.blue,
            alpha: base.alpha,
            contrasts: ranking,
        };
        palette.colors[i] = replacement;
        proof {
            assert forall|k: int|
                0 <= k < i + 1 implies is_contrast_ranking(
                (#[trigger] palette.colors@[k])@.contrasts,
                palette.colors@,
                k,
            ) by {
                assert(is_contrast_ranking(colors_before[k]@.contrasts, colors_before, k)
                    || k == i);
                lemma_ranking_depends_on_channels(
                    palette.colors@[k]@.contrasts,
                    colors_before,
                    palette.colors@,
                    k,
                );
            }
        }
        i = i + 1;
    }
}

/// Rankings only read channel values, so rewriting contrast lists in a
/// palette does not disturb rankings already established.
proof fn lemma_ranking_depends_on_channels(
    l: Seq<usize>,
    before: Seq<Color>,
    after: Seq<Color>,
    i: int,
)
    requires
        before.len() == after.len(),
        0 <= i < after.len(),
        forall|k: int| 0 <= k < after.len() ==> (#[trigger] after[k])@.same_channels(before[k]@),
        is_contrast_ranking(l, before, i),
    ensures
        is_contrast_ranking(l, after, i),
{
    assert forall|k1: int, k2: int|
        0 <= k1 < k2 < l.len() implies key_lt(
        contrast_key(after, i, #[trigger] l[k1] as int),
        contrast_key(after, i, #[trigger] l[k2] as int),
    ) by {
        lemma_contrast_from_channels(after[i]@, before[i]@, after[l[k1] as int]@, before[l[k1] as int]@);
        lemma_contrast_from_channels(after[i]@, before[i]@, after[l[k2] as int]@, before[l[k2] as int]@);
    }
}

/// The quantized contrast ratio depends on channel values alone.
proof fn lemma_contrast_from_channels(
    a1: crate::color::ColorView,
    a2: crate::color::ColorView,
    b1: crate::color::ColorView,
    b2: crate::color::ColorView,
)
    requires
        a1.same_channels(a2),
        b1.same_channels(b2),
    ensures
        quantized_contrast(a1, b1) == quantized_contrast(a2, b2),
{
}

/// The contrast ranking of base color `i`: indices of all other colors,
/// sorted ascending by quantized contrast ratio, ties by palette position.
fn ranking_of(colors: &Vec<Color>, i: usize) -> (l: Vec<usize>)
    requires
        i < colors@.len(),
    ensures
        is_contrast_ranking(l@, colors@, i as int),
{
    let n = colors.len();
    let mut pairs: Vec<(u64, usize)> = Vec::new();
    let mut j: usize = 0;
    while j < n
        invariant
            i < n == colors@.len(),
            j <= n,
            pairs@.len() == j - (if j > i {
                1int
            } else {
                0int
            }),
            forall|k: int|
                0 <= k < pairs@.len() ==> (#[trigger] pairs@[k]).1 < j && pairs@[k].1 != i,
            forall|k: int|
                0 <= k < pairs@.len() ==> (#[trigger] pairs@[k]).0 == quantized_contrast(
                    colors@[i as int]@,
                    colors@[pairs@[k].1 as int]@,
                ),
            forall|k1: int, k2: int|
                0 <= k1 < k2 < pairs@.len() ==> key_lt(
                    ((#[trigger] pairs@[k1]).0 as int, pairs@[k1].1 as int),
                    ((#[trigger] pairs@[k2]).0 as int, pairs@[k2].1 as int),
                ),
            forall|jj: int| 0 <= jj < j && jj != i ==> #[trigger] pairs_contain(pairs@, jj),
        decreases n - j,
    {
        if j != i {
            let r = colors[i].get_contrast(&colors[j]);
            let q = r.quantized();
            let ghost before = pairs@;
            let mut p: usize = 0;
            while p < pairs.len() && (pairs[p].0 < q || (pairs[p].0 == q && pairs[p].1 < j))
                invariant
                    p <= pairs@.len(),
                    pairs@ == before,
                    forall|k: int|
                        0 <= k < p ==> key_lt(
                            ((#[trigger] pairs@[k]).0 as int, pairs@[k].1 as int),
                            (q as int, j as int),
                        ),
                decreases pairs@.len() - p,
            {
                p = p + 1;
            }
            pairs.insert(p, (q, j));
            proof {
                let ghost now = pairs@;
                assert(now == before.insert(p as int, (q, j)));
                assert forall|k: int| 0 <= k < now.len() implies (#[trigger] now[k]).1 < j + 1
                    && now[k].1 != i by {
                    if k < p {
                        assert(now[k] == before[k]);
                    } else if k > p {
                        assert(now[k] == before[k - 1]);
                    }
                }
                assert forall|k1: int, k2: int| 0 <= k1 < k2 < now.len() implies key_lt(
                    ((#[trigger] now[k1]).0 as int, now[k1].1 as int),
                    ((#[trigger] now[k2]).0 as int, now[k2].1 as int),
                ) by {
                    if k1 < p {
                        assert(now[k1] == before[k1]);
                    } else if k1 > p {
                        assert(now[k1] == before[k1 - 1]);
                    }
                    if k2 < p {
                        assert(now[k2] == before[k2]);
                    } else if k2 > p {
                        assert(now[k2] == before[k2 - 1]);
                    }
                }
                assert forall|jj: int| 0 <= jj < j + 1 && jj != i implies #[trigger] pairs_contain(
                    now,
                    jj,
                ) by {
                    if jj == j {
                        assert(now[p as int].1 == jj);
                    } else {
                        assert(pairs_contain(before, jj));
                        let k0 = choose|k: int|
                            0 <= k < before.len() && (#[trigger] before[k]).1 == jj;
                        if k0 < p {
                            assert(now[k0].1 == jj);
                        } else {
                            assert(now[k0 + 1].1 == jj);
                        }
                    }
                }
            }
        }
        j = j + 1;
    }
    let mut l: Vec<usize> = Vec::new();
    let mut k: usize = 0;
    while k < pairs.len()
        invariant
            k <= pairs@.len(),
            l@.len() == k,
            forall|m: int| 0 <= m < k ==> #[trigger] l@[m] == pairs@[m].1,
        decreases pairs@.len() - k,
    {
        l.push(pairs[k].1);
        k = k + 1;
    }
    proof {
        assert forall|jj: int| 0 <= jj < colors@.len() && jj != i implies #[trigger] ranking_contains(
            l@,
            jj,
        ) by {
            assert(pairs_contain(pairs@, jj));
            let k0 = choose|k2: int| 0 <= k2 < pairs@.len() && (#[trigger] pairs@[k2]).1 == jj;
            assert(l@[k0] == jj);
        }
    }
    l
}

/// Resolution of a contrast-ranking entry: the palette color the ranking
/// points to, or the color itself when the index (or the index it points to)
/// is out of range.
pub open spec fn contrast_view(c: crate::color::ColorView, index: int, colors: Seq<Color>) -> crate::color::ColorView {
    if 0 <= index < c.contrasts.len() && c.contrasts[index] < colors.len() {
        colors[c.contrasts[index] as int]@
    } else {
        c
    }
}

impl Color {
    /// The `index`-th entry (0-based) of this color's contrast ranking,
    /// resolved against the base palette the ranking points into.  An index
    /// beyond the ranking (in particular, on a color that carries none) is a
    /// recoverable condition: the color itself is returned unchanged.  A
    /// caller that must notice the fallback can compare `index` against the
    /// length of `contrasts` first.
    pub fn contrast(&self, index: usize, palette: &BasePalette) -> (c: Color)
        ensures
            c@ == contrast_view(self@, index as int, palette.colors@),
    {
        if index < self.contrasts.len() {
            let j = self.contrasts[index];
            if j < palette.colors.len() {
                return palette.colors[j].duplicate();
            }
        }
        self.duplicate()
    }
}

} // verus!
