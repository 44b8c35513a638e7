//! The color value type: exact 8-bit RGBA channels, hex conversion, pure
//! transforms, and the perceptual luminance and contrast metrics.
//!
//! Channels are kept on the 8-bit grid; transforms round to the nearest step
//! of that grid.  Luminance and contrast are computed in exact fixed-point
//! integer arithmetic (see the gamma module), so every comparison the library
//! makes is deterministic.

use vstd::prelude::*;

use crate::gamma::gamma_channel;
use crate::gamma::gamma_of;
use crate::hex::hex_digit_str;
use crate::hex::hex_digit_value_of;
use crate::hex::parse_hex_rgba;
use crate::hex::rgba_hex;

verus! {

/// Denominator of the fixed-point luminance numerator: a luminance numerator
/// `n` denotes the real value `n / LUMINANCE_DEN`, which lies in `[0, 1]`.
pub const LUMINANCE_DEN: u64 = 2_550_000_000_000;

/// `0.05 * LUMINANCE_DEN`, the offset of the contrast-ratio formula
/// `(l_max + 0.05) / (l_min + 0.05)`.
pub const RATIO_OFFSET: u64 = 127_500_000_000;

/// Contrast ratios are quantized to this many steps per unit before they are
/// compared or sorted.
pub const RATIO_SCALE: u64 = 1_000_000;

/// Mathematical image of a [`Color`].
#[verifier::ext_equal]
pub struct ColorView {
    pub red: u8,
    pub green: u8,
    pub blue: u8,
    pub alpha: u8,
    /// Base-palette indices of the contrast-ranked neighbors.
    pub contrasts: Seq<usize>,
}

impl ColorView {
    /// Same channel values, ignoring the attached contrast ranking.
    pub open spec fn same_channels(self, other: ColorView) -> bool {
        self.red == other.red && self.green == other.green && self.blue == other.blue
            && self.alpha == other.alpha
    }
}

/// An RGBA color with 8-bit channels.
///
/// A color built by the palette importer additionally carries its contrast
/// ranking: the indices of the other base-palette colors, ordered by the
/// quantized contrast ratio against this color.  The ranking is attached once
/// by `compute_contrasts` and read through `contrast`.
#[derive(Debug)]
pub struct Color {
    pub red: u8,
    pub green: u8,
    pub blue: u8,
    pub alpha: u8,
    pub contrasts: Vec<usize>,
}

impl View for Color {
    type V = ColorView;

    open spec fn view(&self) -> ColorView {
        ColorView {
            red: self.red,
            green: self.green,
            blue: self.blue,
            alpha: self.alpha,
            contrasts: self.contrasts@,
        }
    }
}

/// Copy of an index vector, element for element.
fn copy_indices(v: &Vec<usize>) -> (r: Vec<usize>)
    ensures
        r@ == v@,
{
    let mut r: Vec<usize> = Vec::new();
    let mut i: usize = 0;
    while i < v.len()
        invariant
            i <= v.len(),
            r@ == v@.subrange(0, i as int),
        decreases v.len() - i,
    {
        r.push(v[i]);
        assert(r@ == v@.subrange(0, i + 1 as int));
        i = i + 1;
    }
    assert(r@ == v@);
    r
}

impl Color {
    /// Opaque black, with no contrast ranking attached.
    pub fn new() -> (c: Color)
        ensures
            c.red == 0 && c.green == 0 && c.blue == 0 && c.alpha == 255,
            c.contrasts@.len() == 0,
    {
        Color { red: 0, green: 0, blue: 0, alpha: 255, contrasts: Vec::new() }
    }

    /// A color equal to this one, channel for channel and ranking for ranking.
    pub fn duplicate(&self) -> (c: Color)
        ensures
            c@ == self@,
    {
        Color {
            red: self.red,
            green: self.green,
            blue: self.blue,
            alpha: self.alpha,
            contrasts: copy_indices(&self.contrasts),
        }
    }

    /// Fully opaque color from three 8-bit channels.
    pub fn from_rgb_int(r: u8, g: u8, b: u8) -> (c: Option<Color>)
        ensures
            c matches Some(col) && col.red == r && col.green == g && col.blue == b && col.alpha
                == 255 && col.contrasts@.len() == 0,
    {
        Some(Color { red: r, green: g, blue: b, alpha: 255, contrasts: Vec::new() })
    }

    /// Color from four 8-bit channels.
    pub fn from_rgba_int(r: u8, g: u8, b: u8, a: u8) -> (c: Option<Color>)
        ensures
            c matches Some(col) && col.red == r && col.green == g && col.blue == b && col.alpha == a
                && col.contrasts@.len() == 0,
    {
        Some(Color { red: r, green: g, blue: b, alpha: a, contrasts: Vec::new() })
    }

    /// Parses a 6-digit (`RRGGBB`) or 8-digit (`RRGGBBAA`) hex color string,
    /// optionally prefixed with `#`; any other shape yields `None`.
    pub fn from_hex(hex: &str) -> (c: Option<Color>)
        ensures
            match parse_hex_rgba(hex@) {
                Some(q) => c matches Some(col) && col.red == q.0 && col.green == q.1 && col.blue
                    == q.2 && col.alpha == q.3 && col.contrasts@.len() == 0,
                None => c is None,
            },
    {
        let n = hex.unicode_len();
        let off: usize = if n >= 1 && hex.get_char(0) == '#' {
            1
        } else {
            0
        };
        let ghost t = crate::hex::strip_hash(hex@);
        proof {
            assert(t =~= hex@.subrange(off as int, n as int));
        }
        if n - off != 6 && n - off != 8 {
            return None;
        }
        let m = n - off;
        let mut bytes: [u8; 4] = [0, 0, 0, 255];
        let mut i: usize = 0;
        while i < m / 2
            invariant
                m == 6 || m == 8,
                i <= m / 2,
                off + m == n,
                n == hex@.len(),
                t =~= hex@.subrange(off as int, n as int),
                forall|j: int|
                    0 <= j < 2 * i ==> crate::hex::is_hex_digit(#[trigger] t[j]),
                forall|j: int|
                    0 <= j < i ==> bytes@[j] == crate::hex::hex_pair_byte(t[2 * j], t[2 * j + 1]),
                m == 6 ==> bytes@[3] == 255,
            decreases m / 2 - i,
        {
            let hi = hex.get_char(off + 2 * i);
            let lo = hex.get_char(off + 2 * i + 1);
            assert(hi == t[2 * i as int] && lo == t[2 * i as int + 1]);
            let vh = match hex_digit_value_of(hi) {
                Some(v) => v,
                None => {
                    return None;
                },
            };
            let vl = match hex_digit_value_of(lo) {
                Some(v) => v,
                None => {
                    return None;
                },
            };
            bytes[i] = 16 * vh + vl;
            i = i + 1;
        }
        proof {
            assert(crate::hex::all_hex(t));
        }
        Some(
            Color {
                red: bytes[0],
                green: bytes[1],
                blue: bytes[2],
                alpha: bytes[3],
                contrasts: Vec::new(),
            },
        )
    }

    // Channel getters on the 8-bit grid.
    pub fn u8_red(&self) -> (v: u8)
        ensures
            v == self.red,
    {
        self.red
    }

    pub fn u8_green(&self) -> (v: u8)
        ensures
            v == self.green,
    {
        self.green
    }

    pub fn u8_blue(&self) -> (v: u8)
        ensures
            v == self.blue,
    {
        self.blue
    }

    pub fn u8_alpha(&self) -> (v: u8)
        ensures
            v == self.alpha,
    {
        self.alpha
    }

    /// The 8-digit lowercase `rrggbbaa` form of this color.
    pub fn to_hex(&self) -> (s: String)
        ensures
            s@ == rgba_hex(self.red, self.green, self.blue, self.alpha),
            s@.len() == 8,
    {
        let mut s = String::new();
        s.append(hex_digit_str(self.red / 16));
        s.append(hex_digit_str(self.red % 16));
        s.append(hex_digit_str(self.green / 16));
        s.append(hex_digit_str(self.green % 16));
        s.append(hex_digit_str(self.blue / 16));
        s.append(hex_digit_str(self.blue % 16));
        s.append(hex_digit_str(self.alpha / 16));
        s.append(hex_digit_str(self.alpha % 16));
        proof {
            assert(s@ =~= rgba_hex(self.red, self.green, self.blue, self.alpha));
        }
        s
    }
}

/// One RGB channel darkened by `p` percent and clamped to the channel range,
/// rounded to the nearest 8-bit step.
pub open spec fn darker_channel(c: u8, p: u8) -> u8 {
    if p >= 100 {
        0u8
    } else {
        ((c * (100 - p) + 50) / 100) as u8
    }
}

/// One RGB channel lightened by `p` percent and clamped to the channel range,
/// rounded to the nearest 8-bit step.
pub open spec fn lighter_channel(c: u8, p: u8) -> u8 {
    if (c * (100 + p) + 50) / 100 > 255 {
        255u8
    } else {
        ((c * (100 + p) + 50) / 100) as u8
    }
}

/// The alpha channel written by a percentage in `0..=100` (larger values are
/// clamped), rounded to the nearest 8-bit step.
pub open spec fn alpha_channel(p: u8) -> u8 {
    if p >= 100 {
        255u8
    } else {
        ((p * 255 + 50) / 100) as u8
    }
}

/// A whole color darkened by `p` percent: `darker_channel` on each RGB
/// channel, alpha and ranking unchanged.
pub open spec fn darker_view(c: ColorView, p: u8) -> ColorView {
    ColorView {
        red: darker_channel(c.red, p),
        green: darker_channel(c.green, p),
        blue: darker_channel(c.blue, p),
        alpha: c.alpha,
        contrasts: c.contrasts,
    }
}

/// A whole color lightened by `p` percent: `lighter_channel` on each RGB
/// channel, alpha and ranking unchanged.
pub open spec fn lighter_view(c: ColorView, p: u8) -> ColorView {
    ColorView {
        red: lighter_channel(c.red, p),
        green: lighter_channel(c.green, p),
        blue: lighter_channel(c.blue, p),
        alpha: c.alpha,
        contrasts: c.contrasts,
    }
}

/// A whole color with its alpha replaced by `p` percent opacity, RGB and
/// ranking unchanged.
pub open spec fn alpha_view(c: ColorView, p: u8) -> ColorView {
    ColorView {
        red: c.red,
        green: c.green,
        blue: c.blue,
        alpha: alpha_channel(p),
        contrasts: c.contrasts,
    }
}

/// Fixed-point relative luminance numerator of a color, denoting the value
/// `luminance_num(c) / LUMINANCE_DEN`: the WCAG relative luminance
/// `0.2126 R + 0.7152 G + 0.0722 B` of the gamma-linearized channels, scaled
/// by the alpha channel.
pub open spec fn luminance_num(c: ColorView) -> int {
    (2126 * gamma_of(c.red) + 7152 * gamma_of(c.green) + 722 * gamma_of(c.blue)) * c.alpha
}

pub proof fn lemma_luminance_num_bounds(c: ColorView)
    ensures
        0 <= luminance_num(c) <= LUMINANCE_DEN,
{
    crate::gamma::lemma_gamma_of_bounds(c.red);
    crate::gamma::lemma_gamma_of_bounds(c.green);
    crate::gamma::lemma_gamma_of_bounds(c.blue);
    let s = 2126 * gamma_of(c.red) + 7152 * gamma_of(c.green) + 722 * gamma_of(c.blue);
    assert(s * c.alpha <= 10_000_000_000 * 255) by (nonlinear_arith)
        requires
            0 <= s <= 10_000_000_000,
            c.alpha <= 255,
    ;
    assert(s * c.alpha >= 0) by (nonlinear_arith)
        requires
            0 <= s,
            0 <= c.alpha,
    ;
}

/// Numerator of the exact contrast ratio `(l_max + 0.05) / (l_min + 0.05)`,
/// at scale `LUMINANCE_DEN`.
pub open spec fn ratio_num_of(a: ColorView, b: ColorView) -> int {
    if luminance_num(a) >= luminance_num(b) {
        luminance_num(a) + RATIO_OFFSET
    } else {
        luminance_num(b) + RATIO_OFFSET
    }
}

/// Denominator of the exact contrast ratio, at scale `LUMINANCE_DEN`.
pub open spec fn ratio_den_of(a: ColorView, b: ColorView) -> int {
    if luminance_num(a) >= luminance_num(b) {
        luminance_num(b) + RATIO_OFFSET
    } else {
        luminance_num(a) + RATIO_OFFSET
    }
}

/// The contrast ratio quantized to `RATIO_SCALE` steps per unit, rounded
/// down.  Always at least `RATIO_SCALE` (a ratio of `1.0`).
pub open spec fn quantized_contrast(a: ColorView, b: ColorView) -> int {
    (ratio_num_of(a, b) * RATIO_SCALE) / ratio_den_of(a, b)
}

/// An exact contrast ratio: the real value `num / den`.
#[derive(Clone, Copy, Debug, PartialEq, Eq, Structural)]
pub struct Ratio {
    pub num: u64,
    pub den: u64,
}

impl Ratio {
    /// Ranges that every ratio built by `get_contrast` satisfies.
    pub open spec fn wf(self) -> bool {
        RATIO_OFFSET <= self.den <= self.num <= LUMINANCE_DEN + RATIO_OFFSET
    }

    /// The ratio quantized to `RATIO_SCALE` steps per unit, rounded down.
    pub fn quantized(&self) -> (q: u64)
        requires
            self.wf(),
        ensures
            q == (self.num * RATIO_SCALE) / self.den as int,
            q >= RATIO_SCALE,
    {
        let q = (self.num * RATIO_SCALE) / self.den;
        proof {
            assert(self.num * RATIO_SCALE >= self.den * RATIO_SCALE) by (nonlinear_arith)
                requires
                    self.num >= self.den,
            ;
            vstd::arithmetic::div_mod::lemma_div_multiples_vanish(
                RATIO_SCALE as int,
                self.den as int,
            );
            vstd::arithmetic::div_mod::lemma_div_is_ordered(
                self.den * RATIO_SCALE,
                self.num * RATIO_SCALE,
                self.den as int,
            );
        }
        q
    }
}

/// Contrast ratio is symmetric in its two colors.
pub proof fn lemma_contrast_symmetric(a: ColorView, b: ColorView)
    ensures
        ratio_num_of(a, b) == ratio_num_of(b, a),
        ratio_den_of(a, b) == ratio_den_of(b, a),
        quantized_contrast(a, b) == quantized_contrast(b, a),
{
}

/// The contrast ratio of a color with itself is exactly `1.0`: numerator and
/// denominator coincide, and the quantized ratio is exactly `RATIO_SCALE`.
pub proof fn lemma_contrast_identity(a: ColorView)
    ensures
        ratio_num_of(a, a) == ratio_den_of(a, a),
        quantized_contrast(a, a) == RATIO_SCALE,
{
    lemma_luminance_num_bounds(a);
    let d = ratio_den_of(a, a);
    vstd::arithmetic::div_mod::lemma_div_multiples_vanish(RATIO_SCALE as int, d);
}

impl Color {
    /// Fixed-point relative luminance numerator; the denominator is
    /// `LUMINANCE_DEN`.
    pub fn get_relative_luminance(&self) -> (l: u64)
        ensures
            l == luminance_num(self@),
            l <= LUMINANCE_DEN,
    {
        proof {
            lemma_luminance_num_bounds(self@);
        }
        let s: u64 = 2126 * gamma_channel(self.red) + 7152 * gamma_channel(self.green) + 722
            * gamma_channel(self.blue);
        proof {
            assert(s * self.alpha <= 10_000_000_000u64 * 255) by (nonlinear_arith)
                requires
                    s <= 10_000_000_000u64,
                    self.alpha <= 255,
            ;
        }
        s * (self.alpha as u64)
    }

    /// The exact contrast ratio between this color and `other`:
    /// `(l_max + 0.05) / (l_min + 0.05)` over the two relative luminances.
    /// The result is symmetric in the two colors and always at least `1.0`.
    pub fn get_contrast(&self, other: &Color) -> (r: Ratio)
        ensures
            r.num == ratio_num_of(self@, other@),
            r.den == ratio_den_of(self@, other@),
            r.wf(),
    {
        let ours = self.get_relative_luminance();
        let theirs = other.get_relative_luminance();
        if ours >= theirs {
            Ratio { num: ours + RATIO_OFFSET, den: theirs + RATIO_OFFSET }
        } else {
            Ratio { num: theirs + RATIO_OFFSET, den: ours + RATIO_OFFSET }
        }
    }

    /// This color darkened by `percentage` percent: each RGB channel scaled
    /// by `(1 - percentage/100)` and clamped to the channel range.  Alpha and
    /// the contrast ranking are unchanged.
    pub fn darker(&self, percentage: u8) -> (c: Color)
        ensures
            c@ == darker_view(self@, percentage),
            c.alpha == self.alpha,
            c.contrasts@ == self.contrasts@,
    {
        Color {
            red: darker_channel_of(self.red, percentage),
            green: darker_channel_of(self.green, percentage),
            blue: darker_channel_of(self.blue, percentage),
            alpha: self.alpha,
            contrasts: copy_indices(&self.contrasts),
        }
    }

    /// This color lightened by `percentage` percent: each RGB channel scaled
    /// by `(1 + percentage/100)` and clamped to the channel range.  Alpha and
    /// the contrast ranking are unchanged.
    pub fn lighter(&self, percentage: u8) -> (c: Color)
        ensures
            c@ == lighter_view(self@, percentage),
            c.alpha == self.alpha,
            c.contrasts@ == self.contrasts@,
    {
        Color {
            red: lighter_channel_of(self.red, percentage),
            green: lighter_channel_of(self.green, percentage),
            blue: lighter_channel_of(self.blue, percentage),
            alpha: self.alpha,
            contrasts: copy_indices(&self.contrasts),
        }
    }

    /// This color with its alpha replaced by `percentage` percent opacity
    /// (values above 100 are clamped to 100).  RGB channels and the contrast
    /// ranking are unchanged.
    pub fn alpha(&self, percentage: u8) -> (c: Color)
        ensures
            c@ == alpha_view(self@, percentage),
            c.alpha == alpha_channel(percentage),
            c.contrasts@ == self.contrasts@,
    {
        let a: u8 = if percentage >= 100 {
            255
        } else {
            (((percentage as u32) * 255 + 50) / 100) as u8
        };
        Color {
            red: self.red,
            green: self.green,
            blue: self.blue,
            alpha: a,
            contrasts: copy_indices(&self.contrasts),
        }
    }
}

/// Sum of the red channels of a sequence of colors.
pub open spec fn red_sum(s: Seq<Color>) -> int
    decreases s.len(),
{
    if s.len() == 0 {
        0
    } else {
        red_sum(s.drop_last()) + s.last().red
    }
}

/// Sum of the green channels of a sequence of colors.
pub open spec fn green_sum(s: Seq<Color>) -> int
    decreases s.len(),
{
    if s.len() == 0 {
        0
    } else {
        green_sum(s.drop_last()) + s.last().green
    }
}

/// Sum of the blue channels of a sequence of colors.
pub open spec fn blue_sum(s: Seq<Color>) -> int
    decreases s.len(),
{
    if s.len() == 0 {
        0
    } else {
        blue_sum(s.drop_last()) + s.last().blue
    }
}

/// Sum of the alpha channels of a sequence of colors.
pub open spec fn alpha_sum(s: Seq<Color>) -> int
    decreases s.len(),
{
    if s.len() == 0 {
        0
    } else {
        alpha_sum(s.drop_last()) + s.last().alpha
    }
}

/// A channel sum divided by the count, rounded to the nearest step.
pub open spec fn channel_mean(sum: int, n: int) -> int {
    (sum + n / 2) / n
}

/// The channel-wise arithmetic mean of a non-empty list of colors, each
/// channel rounded to the nearest 8-bit step.  The result carries no
/// contrast ranking.
pub fn average_color(colors: &Vec<Color>) -> (c: Color)
    requires
        colors@.len() >= 1,
    ensures
        c.red == channel_mean(red_sum(colors@), colors@.len() as int),
        c.green == channel_mean(green_sum(colors@), colors@.len() as int),
        c.blue == channel_mean(blue_sum(colors@), colors@.len() as int),
        c.alpha == channel_mean(alpha_sum(colors@), colors@.len() as int),
        c.contrasts@.len() == 0,
{
    let n = colors.len();
    let mut r: u128 = 0;
    let mut g: u128 = 0;
    let mut b: u128 = 0;
    let mut a: u128 = 0;
    let mut i: usize = 0;
    while i < n
        invariant
            i <= n == colors@.len(),
            r == red_sum(colors@.subrange(0, i as int)),
            g == green_sum(colors@.subrange(0, i as int)),
            b == blue_sum(colors@.subrange(0, i as int)),
            a == alpha_sum(colors@.subrange(0, i as int)),
            r <= 255 * i && g <= 255 * i && b <= 255 * i && a <= 255 * i,
        decreases n - i,
    {
        proof {
            assert(colors@.subrange(0, i + 1 as int).drop_last() =~= colors@.subrange(0, i as int));
        }
        r = r + colors[i].red as u128;
        g = g + colors[i].green as u128;
        b = b + colors[i].blue as u128;
        a = a + colors[i].alpha as u128;
        i = i + 1;
    }
    proof {
        assert(colors@.subrange(0, n as int) =~= colors@);
    }
    let half: u128 = (n as u128) / 2;
    proof {
        lemma_mean_in_range(r as int, n as int);
        lemma_mean_in_range(g as int, n as int);
        lemma_mean_in_range(b as int, n as int);
        lemma_mean_in_range(a as int, n as int);
    }
    Color {
        red: ((r + half) / (n as u128)) as u8,
        green: ((g + half) / (n as u128)) as u8,
        blue: ((b + half) / (n as u128)) as u8,
        alpha: ((a + half) / (n as u128)) as u8,
        contrasts: Vec::new(),
    }
}

/// A rounded mean of channel values stays on the 8-bit grid.
proof fn lemma_mean_in_range(sum: int, n: int)
    by (nonlinear_arith)
    requires
        1 <= n,
        0 <= sum <= 255 * n,
    ensures
        0 <= (sum + n / 2) / n <= 255,
{
}

/// Exec computation of `darker_channel`.
fn darker_channel_of(c: u8, p: u8) -> (r: u8)
    ensures
        r == darker_channel(c, p),
{
    if p >= 100 {
        0
    } else {
        let f: u32 = (100 - p) as u32;
        proof {
            assert((c as u32) * f <= 255u32 * 100) by (nonlinear_arith)
                requires
                    c <= 255,
                    f <= 100,
            ;
        }
        (((c as u32) * f + 50) / 100) as u8
    }
}

/// Exec computation of `lighter_channel`.
fn lighter_channel_of(c: u8, p: u8) -> (r: u8)
    ensures
        r == lighter_channel(c, p),
{
    let f: u32 = 100 + p as u32;
    proof {
        assert((c as u32) * f <= 255u32 * 355) by (nonlinear_arith)
            requires
                c <= 255,
                f <= 355,
        ;
    }
    let v: u32 = ((c as u32) * f + 50) / 100;
    if v > 255 {
        255
    } else {
        v as u8
    }
}

} // verus!
