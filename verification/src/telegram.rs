//! The theme data: the fixed, ordered sequence of named color derivations
//! that turns a base palette into the full application theme.
//!
//! This module is a client of the derivation engine.  Each statement either
//! emits a comment marker, emits a color taken from the base palette, from a
//! literal, or derived from a previously emitted name, in the exact order
//! the output document requires.  Every section carries, as its contract,
//! the exact entries it appends to the registry, and the guarantee that all
//! of its references resolve, so the whole derivation is a proved function
//! of the base palette.

use vstd::prelude::*;

use crate::color::Color;
use crate::color::alpha_view;
use crate::color::darker_view;
use crate::color::lighter_view;
use crate::contrast::BasePalette;
use crate::contrast::contrast_view;
use crate::errors::ThemeError;
use crate::theme::EntryView;
use crate::theme::ThemeBuilder;
use crate::theme::color_name;
use crate::theme::defined;
use crate::theme::hex_color;
use crate::theme::hex_color_view;
use crate::theme::index_name;
use crate::theme::lemma_lookup_push;
use crate::theme::lookup_spec;
use crate::theme::render_registry;

verus! {

/// The registry after the base palette section: a comment marker, then every
/// palette color defined under its `colorN` name, in index order.
pub open spec fn base_entries(es0: Seq<EntryView>, pal: Seq<Color>) -> Seq<EntryView> {
    es0.push(EntryView::Comment("Color palette"@)) + Seq::new(
        pal.len(),
        |i: int| EntryView::Definition(color_name(i), pal[i]@),
    )
}

/// Emits every base palette color under its `colorN` name, in palette order.
fn section_base_palette(b: &mut ThemeBuilder, palette: &BasePalette)
    requires
        old(b).wf(),
    ensures
        final(b).wf(),
        final(b)@ == base_entries(old(b)@, palette.colors@),
        forall|i: int|
            0 <= i < palette.colors@.len() ==> defined(final(b)@, #[trigger] color_name(i)),
        forall|n: Seq<char>| #[trigger] defined(old(b)@, n) ==> defined(final(b)@, n),
{
    broadcast use lemma_lookup_push;

    b.emit_comment("Color palette");
    let n = palette.len();
    let mut i: usize = 0;
    while i < n
        invariant
            b.wf(),
            n == palette.colors@.len(),
            i <= n,
            b@ =~= old(b)@.push(EntryView::Comment("Color palette"@)) + Seq::new(
                i as nat,
                |k: int| EntryView::Definition(color_name(k), palette.colors@[k]@),
            ),
            forall|k: int| 0 <= k < i ==> defined(b@, #[trigger] color_name(k)),
            forall|m: Seq<char>| #[trigger] defined(old(b)@, m) ==> defined(b@, m),
        decreases n - i,
    {
        broadcast use lemma_lookup_push;

        let ghost prev = b@;
        let name = index_name(i);
        let c = palette.color_at(i);
        b.emit_color(name.as_str(), c);
        proof {
            assert(b@ =~= old(b)@.push(EntryView::Comment("Color palette"@)) + Seq::new(
                (i + 1) as nat,
                |k: int| EntryView::Definition(color_name(k), palette.colors@[k]@),
            ));
        }
        i = i + 1;
    }
    proof {
        assert(b@ =~= base_entries(old(b)@, palette.colors@));
    }
}

/// The entries this section appends to the registry.
#[verifier::opaque]
pub open spec fn section_colors_for_testing_purposes_entries(es0: Seq<EntryView>, pal: Seq<Color>) -> Seq<EntryView> {
    let es1 = es0.push(EntryView::Comment("Colors for testing purposes"@));
    let es2 = es1.push(EntryView::Definition("colorPink"@, hex_color_view("ff7fc6"@)));
    let es3 = es2.push(EntryView::Definition("colorGreen"@, hex_color_view("0bd500"@)));
    let es4 = es3.push(EntryView::Comment("Special common colors"@));
    let es5 = es4.push(EntryView::Definition("colorError"@, hex_color_view("#d55070"@)));
    let es6 = es5.push(EntryView::Definition("colorSuccess"@, hex_color_view("#6bf576"@)));
    let es7 = es6.push(EntryView::Comment("Basic window options"@));
    let es8 = es7.push(EntryView::Definition("windowBg"@, lookup_spec(es7, "color0"@).unwrap()));
    let es9 = es8.push(EntryView::Definition("windowFg"@, contrast_view(lookup_spec(es8, "windowBg"@).unwrap(), 0, pal)));
    let es10 = es9.push(EntryView::Definition("windowBgOver"@, contrast_view(lookup_spec(es9, "windowBg"@).unwrap(), 13, pal)));
    let es11 = es10.push(EntryView::Definition("windowBgRipple"@, darker_view(lookup_spec(es10, "windowBgOver"@).unwrap(), 10)));
    let es12 = es11.push(EntryView::Definition("windowFgOver"@, contrast_view(lookup_spec(es11, "windowBgOver"@).unwrap(), 0, pal)));
    let es13 = es12.push(EntryView::Definition("windowSubTextFg"@, alpha_view(contrast_view(lookup_spec(es12, "windowBg"@).unwrap(), 4, pal), 50)));
    let es14 = es13.push(EntryView::Definition("windowSubTextFgOver"@, darker_view(lookup_spec(es13, "windowSubTextFg"@).unwrap(), 10)));
    let es15 = es14.push(EntryView::Definition("windowBoldFg"@, darker_view(lookup_spec(es14, "windowFg"@).unwrap(), 20)));
    let es16 = es15.push(EntryView::Definition("windowBoldFgOver"@, darker_view(lookup_spec(es15, "windowFgOver"@).unwrap(), 10)));
    let es17 = es16.push(EntryView::Definition("windowBgActive"@, contrast_view(lookup_spec(es16, "windowBg"@).unwrap(), 7, pal)));
    let es18 = es17.push(EntryView::Definition("windowFgActive"@, contrast_view(lookup_spec(es17, "windowBgActive"@).unwrap(), 0, pal)));
    let es19 = es18.push(EntryView::Definition("windowActiveTextFg"@, lighter_view(lookup_spec(es18, "color15"@).unwrap(), 20)));
    let es20 = es19.push(EntryView::Definition("windowShadowFg"@, lookup_spec(es19, "windowFg"@).unwrap()));
    let es21 = es20.push(EntryView::Definition("windowShadowFgFallback"@, lookup_spec(es20, "windowFg"@).unwrap()));
    let es22 = es21.push(EntryView::Comment("Shadow"@));
    let es23 = es22.push(EntryView::Definition("shadowFg"@, alpha_view(contrast_view(lookup_spec(es22, "windowBg"@).unwrap(), 3, pal), 30)));
    let es24 = es23.push(EntryView::Comment("Slide"@));
    let es25 = es24.push(EntryView::Definition("slideFadeOutBg"@, alpha_view(lookup_spec(es24, "color0"@).unwrap(), 10)));
    let es26 = es25.push(EntryView::Definition("slideFadeOutShadowFg"@, lookup_spec(es25, "windowShadowFg"@).unwrap()));
    es26
}

fn section_colors_for_testing_purposes(b: &mut ThemeBuilder, palette: &BasePalette) -> (r: Result<(), ThemeError>)
    requires
        old(b).wf(),
        defined(old(b)@, "color0"@),
        defined(old(b)@, "color15"@),
    ensures
        r is Ok,
        final(b).wf(),
        final(b)@ == section_colors_for_testing_purposes_entries(old(b)@, palette.colors@),
        defined(final(b)@, "colorError"@),
        defined(final(b)@, "shadowFg"@),
        defined(final(b)@, "windowActiveTextFg"@),
        defined(final(b)@, "windowBg"@),
        defined(final(b)@, "windowBgActive"@),
        defined(final(b)@, "windowBoldFgOver"@),
        defined(final(b)@, "windowFg"@),
        defined(final(b)@, "windowFgActive"@),
        defined(final(b)@, "windowSubTextFg"@),
        forall|n: Seq<char>| #[trigger] defined(old(b)@, n) ==> defined(final(b)@, n),
{
    broadcast use lemma_lookup_push;

    proof {
        reveal(section_colors_for_testing_purposes_entries);
    }

    proof {
        reveal_strlit("ff7fc6");
        assert(crate::hex::all_hex(crate::hex::strip_hash("ff7fc6"@))) by {
            assert(crate::hex::strip_hash("ff7fc6"@) =~= "ff7fc6"@);
            assert(crate::hex::is_hex_digit("ff7fc6"@[0]));
            assert(crate::hex::is_hex_digit("ff7fc6"@[1]));
            assert(crate::hex::is_hex_digit("ff7fc6"@[2]));
            assert(crate::hex::is_hex_digit("ff7fc6"@[3]));
            assert(crate::hex::is_hex_digit("ff7fc6"@[4]));
            assert(crate::hex::is_hex_digit("ff7fc6"@[5]));
        }
        assert(crate::hex::parse_hex_rgba("ff7fc6"@) is Some);
    }
    proof {
        reveal_strlit("0bd500");
        assert(crate::hex::all_hex(crate::hex::strip_hash("0bd500"@))) by {
            assert(crate::hex::strip_hash("0bd500"@) =~= "0bd500"@);
            assert(crate::hex::is_hex_digit("0bd500"@[0]));
            assert(crate::hex::is_hex_digit("0bd500"@[1]));
            assert(crate::hex::is_hex_digit("0bd500"@[2]));
            assert(crate::hex::is_hex_digit("0bd500"@[3]));
            assert(crate::hex::is_hex_digit("0bd500"@[4]));
            assert(crate::hex::is_hex_digit("0bd500"@[5]));
        }
        assert(crate::hex::parse_hex_rgba("0bd500"@) is Some);
    }
    proof {
        reveal_strlit("#d55070");
        assert(crate::hex::all_hex(crate::hex::strip_hash("#d55070"@))) by {
            assert(crate::hex::strip_hash("#d55070"@) =~= "#d55070"@.subrange(1, 7));
            assert(crate::hex::is_hex_digit("#d55070"@[6]));
            assert(crate::hex::is_hex_digit("#d55070"@[6]));
            assert(crate::hex::is_hex_digit("#d55070"@[6]));
            assert(crate::hex::is_hex_digit("#d55070"@[6]));
            assert(crate::hex::is_hex_digit("#d55070"@[6]));
            assert(crate::hex::is_hex_digit("#d55070"@[6]));
        }
        assert(crate::hex::parse_hex_rgba("#d55070"@) is Some);
    }
    proof {
        reveal_strlit("#6bf576");
        assert(crate::hex::all_hex(crate::hex::strip_hash("#6bf576"@))) by {
            assert(crate::hex::strip_hash("#6bf576"@) =~= "#6bf576"@.subrange(1, 7));
            assert(crate::hex::is_hex_digit("#6bf576"@[6]));
            assert(crate::hex::is_hex_digit("#6bf576"@[6]));
            assert(crate::hex::is_hex_digit("#6bf576"@[6]));
            assert(crate::hex::is_hex_digit("#6bf576"@[6]));
            assert(crate::hex::is_hex_digit("#6bf576"@[6]));
            assert(crate::hex::is_hex_digit("#6bf576"@[6]));
        }
        assert(crate::hex::parse_hex_rgba("#6bf576"@) is Some);
    }
    b.emit_comment("Colors for testing purposes");
    b.emit_color("colorPink", hex_color("ff7fc6")?);
    b.emit_color("colorGreen", hex_color("0bd500")?);
    b.emit_comment("Special common colors");
    b.emit_color("colorError", hex_color("#d55070")?);
    b.emit_color("colorSuccess", hex_color("#6bf576")?);
    b.emit_comment("Basic window options");
    {
        let c = b.lookup("color0")?;
        b.emit_color("windowBg", c);
    }
    {
        let c = b.lookup("windowBg")?;
        b.emit_color("windowFg", c.contrast(0, palette));
    }
    {
        let c = b.lookup("windowBg")?;
        b.emit_color("windowBgOver", c.contrast(13, palette));
    }
    {
        let c = b.lookup("windowBgOver")?;
        b.emit_color("windowBgRipple", c.darker(10));
    }
    {
        let c = b.lookup("windowBgOver")?;
        b.emit_color("windowFgOver", c.contrast(0, palette));
    }
    {
        let c = b.lookup("windowBg")?;
        b.emit_color("windowSubTextFg", c.contrast(4, palette).alpha(50));
    }
    {
        let c = b.lookup("windowSubTextFg")?;
        b.emit_color("windowSubTextFgOver", c.darker(10));
    }
    {
        let c = b.lookup("windowFg")?;
        b.emit_color("windowBoldFg", c.darker(20));
    }
    {
        let c = b.lookup("windowFgOver")?;
        b.emit_color("windowBoldFgOver", c.darker(10));
    }
    {
        let c = b.lookup("windowBg")?;
        b.emit_color("windowBgActive", c.contrast(7, palette));
    }
    {
        let c = b.lookup("windowBgActive")?;
        b.emit_color("windowFgActive", c.contrast(0, palette));
    }
    {
        let c = b.lookup("color15")?;
        b.emit_color("windowActiveTextFg", c.lighter(20));
    }
    {
        let c = b.lookup("windowFg")?;
        b.emit_color("windowShadowFg", c);
    }
    {
        let c = b.lookup("windowFg")?;
        b.emit_color("windowShadowFgFallback", c);
    }
    b.emit_comment("Shadow");
    {
        let c = b.lookup("windowBg")?;
        b.emit_color("shadowFg", c.contrast(3, palette).alpha(30));
    }
    b.emit_comment("Slide");
    {
        let c = b.lookup("color0")?;
        b.emit_color("slideFadeOutBg", c.alpha(10));
    }
    {
        let c = b.lookup("windowShadowFg")?;
        b.emit_color("slideFadeOutShadowFg", c);
    }
    Ok(())
}

/// The entries this section appends to the registry.
#[verifier::opaque]
pub open spec fn section_image_entries(es0: Seq<EntryView>, pal: Seq<Color>) -> Seq<EntryView> {
    let es1 = es0.push(EntryView::Comment("Image"@));
    let es2 = es1.push(EntryView::Definition("imageBg"@, lookup_spec(es1, "color2"@).unwrap()));
    let es3 = es2.push(EntryView::Definition("imageBgTransparent"@, lookup_spec(es2, "color7"@).unwrap()));
    let es4 = es3.push(EntryView::Comment("Active"@));
    let es5 = es4.push(EntryView::Definition("activeButtonBg"@, lookup_spec(es4, "color2"@).unwrap()));
    let es6 = es5.push(EntryView::Definition("activeButtonBgOver"@, lighter_view(lookup_spec(es5, "activeButtonBg"@).unwrap(), 20)));
    let es7 = es6.push(EntryView::Definition("activeButtonBgRipple"@, lighter_view(lookup_spec(es6, "activeButtonBg"@).unwrap(), 50)));
    let es8 = es7.push(EntryView::Definition("activeButtonFg"@, contrast_view(lookup_spec(es7, "activeButtonBg"@).unwrap(), 0, pal)));
    let es9 = es8.push(EntryView::Definition("activeButtonFgOver"@, lighter_view(lookup_spec(es8, "activeButtonFg"@).unwrap(), 20)));
    let es10 = es9.push(EntryView::Definition("activeButtonSecondaryFg"@, contrast_view(lookup_spec(es9, "activeButtonBg"@).unwrap(), 2, pal)));
    let es11 = es10.push(EntryView::Definition("activeButtonSecondaryFgOver"@, lighter_view(lookup_spec(es10, "activeButtonSecondaryFg"@).unwrap(), 20)));
    let es12 = es11.push(EntryView::Definition("activeLineFg"@, lookup_spec(es11, "color2"@).unwrap()));
    let es13 = es12.push(EntryView::Definition("activeLineFgError"@, lookup_spec(es12, "colorError"@).unwrap()));
    let es14 = es13.push(EntryView::Comment("Light"@));
    let es15 = es14.push(EntryView::Definition("lightButtonBg"@, lookup_spec(es14, "color0"@).unwrap()));
    let es16 = es15.push(EntryView::Definition("lightButtonBgOver"@, lighter_view(lookup_spec(es15, "color0"@).unwrap(), 40)));
    let es17 = es16.push(EntryView::Definition("lightButtonBgRipple"@, lighter_view(lookup_spec(es16, "color0"@).unwrap(), 60)));
    let es18 = es17.push(EntryView::Definition("lightButtonFg"@, lookup_spec(es17, "color2"@).unwrap()));
    let es19 = es18.push(EntryView::Definition("lightButtonFgOver"@, lookup_spec(es18, "lightButtonFg"@).unwrap()));
    let es20 = es19.push(EntryView::Comment("Attention"@));
    let es21 = es20.push(EntryView::Definition("attentionButtonFg"@, lookup_spec(es20, "color1"@).unwrap()));
    let es22 = es21.push(EntryView::Definition("attentionButtonFgOver"@, lighter_view(lookup_spec(es21, "color1"@).unwrap(), 30)));
    let es23 = es22.push(EntryView::Definition("attentionButtonBgOver"@, lighter_view(lookup_spec(es22, "color0"@).unwrap(), 40)));
    let es24 = es23.push(EntryView::Definition("attentionButtonBgRipple"@, lighter_view(lookup_spec(es23, "color0"@).unwrap(), 60)));
    es24
}

fn section_image(b: &mut ThemeBuilder, palette: &BasePalette) -> (r: Result<(), ThemeError>)
    requires
        old(b).wf(),
        defined(old(b)@, "color2"@),
        defined(old(b)@, "color7"@),
        defined(old(b)@, "colorError"@),
        defined(old(b)@, "color0"@),
        defined(old(b)@, "color1"@),
    ensures
        r is Ok,
        final(b).wf(),
        final(b)@ == section_image_entries(old(b)@, palette.colors@),
        defined(final(b)@, "activeButtonFg"@),
        defined(final(b)@, "imageBg"@),
        defined(final(b)@, "lightButtonFg"@),
        defined(final(b)@, "lightButtonFgOver"@),
        forall|n: Seq<char>| #[trigger] defined(old(b)@, n) ==> defined(final(b)@, n),
{
    broadcast use lemma_lookup_push;

    proof {
        reveal(section_image_entries);
    }

    b.emit_comment("Image");
    {
        let c = b.lookup("color2")?;
        b.emit_color("imageBg", c);
    }
    {
        let c = b.lookup("color7")?;
        b.emit_color("imageBgTransparent", c);
    }
    b.emit_comment("Active");
    {
        let c = b.lookup("color2")?;
        b.emit_color("activeButtonBg", c);
    }
    {
        let c = b.lookup("activeButtonBg")?;
        b.emit_color("activeButtonBgOver", c.lighter(20));
    }
    {
        let c = b.lookup("activeButtonBg")?;
        b.emit_color("activeButtonBgRipple", c.lighter(50));
    }
    {
        let c = b.lookup("activeButtonBg")?;
        b.emit_color("activeButtonFg", c.contrast(0, palette));
    }
    {
        let c = b.lookup("activeButtonFg")?;
        b.emit_color("activeButtonFgOver", c.lighter(20));
    }
    {
        let c = b.lookup("activeButtonBg")?;
        b.emit_color("activeButtonSecondaryFg", c.contrast(2, palette));
    }
    {
        let c = b.lookup("activeButtonSecondaryFg")?;
        b.emit_color("activeButtonSecondaryFgOver", c.lighter(20));
    }
    {
        let c = b.lookup("color2")?;
        b.emit_color("activeLineFg", c);
    }
    {
        let c = b.lookup("colorError")?;
        b.emit_color("activeLineFgError", c);
    }
    b.emit_comment("Light");
    {
        let c = b.lookup("color0")?;
        b.emit_color("lightButtonBg", c);
    }
    {
        let c = b.lookup("color0")?;
        b.emit_color("lightButtonBgOver", c.lighter(40));
    }
    {
        let c = b.lookup("color0")?;
        b.emit_color("lightButtonBgRipple", c.lighter(60));
    }
    {
        let c = b.lookup("color2")?;
        b.emit_color("lightButtonFg", c);
    }
    {
        let c = b.lookup("lightButtonFg")?;
        b.emit_color("lightButtonFgOver", c);
    }
    b.emit_comment("Attention");
    {
        let c = b.lookup("color1")?;
        b.emit_color("attentionButtonFg", c);
    }
    {
        let c = b.lookup("color1")?;
        b.emit_color("attentionButtonFgOver", c.lighter(30));
    }
    {
        let c = b.lookup("color0")?;
        b.emit_color("attentionButtonBgOver", c.lighter(40));
    }
    {
        let c = b.lookup("color0")?;
        b.emit_color("attentionButtonBgRipple", c.lighter(60));
    }
    Ok(())
}

/// The entries this section appends to the registry.
#[verifier::opaque]
pub open spec fn section_outline_entries(es0: Seq<EntryView>, pal: Seq<Color>) -> Seq<EntryView> {
    let es1 = es0.push(EntryView::Comment("Outline"@));
    let es2 = es1.push(EntryView::Definition("outlineButtonBg"@, lookup_spec(es1, "windowBg"@).unwrap()));
    let es3 = es2.push(EntryView::Definition("outlineButtonBgOver"@, lighter_view(lookup_spec(es2, "color0"@).unwrap(), 40)));
    let es4 = es3.push(EntryView::Definition("outlineButtonOutlineFg"@, lookup_spec(es3, "color2"@).unwrap()));
    let es5 = es4.push(EntryView::Definition("outlineButtonBgRipple"@, lighter_view(lookup_spec(es4, "color0"@).unwrap(), 60)));
    let es6 = es5.push(EntryView::Comment("Menu"@));
    let es7 = es6.push(EntryView::Definition("menuBg"@, lookup_spec(es6, "color0"@).unwrap()));
    let es8 = es7.push(EntryView::Definition("menuBgOver"@, lighter_view(lookup_spec(es7, "color0"@).unwrap(), 40)));
    let es9 = es8.push(EntryView::Definition("menuBgRipple"@, lighter_view(lookup_spec(es8, "color0"@).unwrap(), 60)));
    let es10 = es9.push(EntryView::Definition("menuIconFg"@, lookup_spec(es9, "color7"@).unwrap()));
    let es11 = es10.push(EntryView::Definition("menuIconFgOver"@, lighter_view(lookup_spec(es10, "color7"@).unwrap(), 40)));
    let es12 = es11.push(EntryView::Definition("menuSubmenuArrowFg"@, lookup_spec(es11, "color7"@).unwrap()));
    let es13 = es12.push(EntryView::Definition("menuFgDisabled"@, darker_view(lookup_spec(es12, "color7"@).unwrap(), 40)));
    let es14 = es13.push(EntryView::Definition("menuSeparatorFg"@, darker_view(lookup_spec(es13, "color7"@).unwrap(), 40)));
    let es15 = es14.push(EntryView::Comment("Scroll"@));
    let es16 = es15.push(EntryView::Definition("scrollBarBg"@, alpha_view(lookup_spec(es15, "color7"@).unwrap(), 30)));
    let es17 = es16.push(EntryView::Definition("scrollBarBgOver"@, alpha_view(lookup_spec(es16, "color7"@).unwrap(), 45)));
    let es18 = es17.push(EntryView::Definition("scrollBg"@, alpha_view(lookup_spec(es17, "color7"@).unwrap(), 05)));
    let es19 = es18.push(EntryView::Definition("scrollBgOver"@, alpha_view(lookup_spec(es18, "color7"@).unwrap(), 15)));
    let es20 = es19.push(EntryView::Comment("Small"@));
    let es21 = es20.push(EntryView::Definition("smallCloseIconFg"@, darker_view(lookup_spec(es20, "color7"@).unwrap(), 40)));
    let es22 = es21.push(EntryView::Definition("smallCloseIconFgOver"@, lookup_spec(es21, "color7"@).unwrap()));
    let es23 = es22.push(EntryView::Comment("Radial"@));
    let es24 = es23.push(EntryView::Definition("radialFg"@, lookup_spec(es23, "windowFgActive"@).unwrap()));
    let es25 = es24.push(EntryView::Definition("radialBg"@, alpha_view(lookup_spec(es24, "color0"@).unwrap(), 30)));
    es25
}

fn section_outline(b: &mut ThemeBuilder, palette: &BasePalette) -> (r: Result<(), ThemeError>)
    requires
        old(b).wf(),
        defined(old(b)@, "windowBg"@),
        defined(old(b)@, "color0"@),
        defined(old(b)@, "color2"@),
        defined(old(b)@, "color7"@),
        defined(old(b)@, "windowFgActive"@),
    ensures
        r is Ok,
        final(b).wf(),
        final(b)@ == section_outline_entries(old(b)@, palette.colors@),
        defined(final(b)@, "menuIconFg"@),
        defined(final(b)@, "menuIconFgOver"@),
        forall|n: Seq<char>| #[trigger] defined(old(b)@, n) ==> defined(final(b)@, n),
{
    broadcast use lemma_lookup_push;

    proof {
        reveal(section_outline_entries);
    }

    b.emit_comment("Outline");
    {
        let c = b.lookup("windowBg")?;
        b.emit_color("outlineButtonBg", c);
    }
    {
        let c = b.lookup("color0")?;
        b.emit_color("outlineButtonBgOver", c.lighter(40));
    }
    {
        let c = b.lookup("color2")?;
        b.emit_color("outlineButtonOutlineFg", c);
    }
    {
        let c = b.lookup("color0")?;
        b.emit_color("outlineButtonBgRipple", c.lighter(60));
    }
    b.emit_comment("Menu");
    {
        let c = b.lookup("color0")?;
        b.emit_color("menuBg", c);
    }
    {
        let c = b.lookup("color0")?;
        b.emit_color("menuBgOver", c.lighter(40));
    }
    {
        let c = b.lookup("color0")?;
        b.emit_color("menuBgRipple", c.lighter(60));
    }
    {
        let c = b.lookup("color7")?;
        b.emit_color("menuIconFg", c);
    }
    {
        let c = b.lookup("color7")?;
        b.emit_color("menuIconFgOver", c.lighter(40));
    }
    {
        let c = b.lookup("color7")?;
        b.emit_color("menuSubmenuArrowFg", c);
    }
    {
        let c = b.lookup("color7")?;
        b.emit_color("menuFgDisabled", c.darker(40));
    }
    {
        let c = b.lookup("color7")?;
        b.emit_color("menuSeparatorFg", c.darker(40));
    }
    b.emit_comment("Scroll");
    {
        let c = b.lookup("color7")?;
        b.emit_color("scrollBarBg", c.alpha(30));
    }
    {
        let c = b.lookup("color7")?;
        b.emit_color("scrollBarBgOver", c.alpha(45));
    }
    {
        let c = b.lookup("color7")?;
        b.emit_color("scrollBg", c.alpha(05));
    }
    {
        let c = b.lookup("color7")?;
        b.emit_color("scrollBgOver", c.alpha(15));
    }
    b.emit_comment("Small");
    {
        let c = b.lookup("color7")?;
        b.emit_color("smallCloseIconFg", c.darker(40));
    }
    {
        let c = b.lookup("color7")?;
        b.emit_color("smallCloseIconFgOver", c);
    }
    b.emit_comment("Radial");
    {
        let c = b.lookup("windowFgActive")?;
        b.emit_color("radialFg", c);
    }
    {
        let c = b.lookup("color0")?;
        b.emit_color("radialBg", c.alpha(30));
    }
    Ok(())
}

/// The entries this section appends to the registry.
#[verifier::opaque]
pub open spec fn section_placeholder_entries(es0: Seq<EntryView>, pal: Seq<Color>) -> Seq<EntryView> {
    let es1 = es0.push(EntryView::Comment("Placeholder"@));
    let es2 = es1.push(EntryView::Definition("placeholderFg"@, lookup_spec(es1, "color7"@).unwrap()));
    let es3 = es2.push(EntryView::Definition("placeholderFgActive"@, darker_view(lookup_spec(es2, "color7"@).unwrap(), 40)));
    let es4 = es3.push(EntryView::Comment("Input"@));
    let es5 = es4.push(EntryView::Definition("inputBorderFg"@, lookup_spec(es4, "color7"@).unwrap()));
    let es6 = es5.push(EntryView::Comment("Filter"@));
    let es7 = es6.push(EntryView::Definition("filterInputBorderFg"@, lighter_view(lookup_spec(es6, "color0"@).unwrap(), 40)));
    let es8 = es7.push(EntryView::Definition("filterInputInactiveBg"@, darker_view(lookup_spec(es7, "color8"@).unwrap(), 30)));
    let es9 = es8.push(EntryView::Definition("filterInputActiveBg"@, darker_view(lookup_spec(es8, "color8"@).unwrap(), 20)));
    let es10 = es9.push(EntryView::Comment("Checkbox"@));
    let es11 = es10.push(EntryView::Definition("checkboxFg"@, darker_view(lookup_spec(es10, "color7"@).unwrap(), 40)));
    let es12 = es11.push(EntryView::Comment("Slider"@));
    let es13 = es12.push(EntryView::Definition("sliderBgInactive"@, darker_view(lookup_spec(es12, "color7"@).unwrap(), 40)));
    let es14 = es13.push(EntryView::Definition("sliderBgActive"@, lookup_spec(es13, "windowBgActive"@).unwrap()));
    let es15 = es14.push(EntryView::Comment("Tooltip"@));
    let es16 = es15.push(EntryView::Definition("tooltipBg"@, lookup_spec(es15, "color7"@).unwrap()));
    let es17 = es16.push(EntryView::Definition("tooltipFg"@, lookup_spec(es16, "color0"@).unwrap()));
    let es18 = es17.push(EntryView::Definition("tooltipBorderFg"@, lookup_spec(es17, "color7"@).unwrap()));
    let es19 = es18.push(EntryView::Comment("Title"@));
    let es20 = es19.push(EntryView::Definition("titleShadow"@, alpha_view(lookup_spec(es19, "color0"@).unwrap(), 05)));
    let es21 = es20.push(EntryView::Definition("titleBg"@, lookup_spec(es20, "color0"@).unwrap()));
    let es22 = es21.push(EntryView::Definition("titleBgActive"@, lookup_spec(es21, "titleBg"@).unwrap()));
    let es23 = es22.push(EntryView::Definition("titleButtonBg"@, lookup_spec(es22, "titleBg"@).unwrap()));
    let es24 = es23.push(EntryView::Definition("titleButtonFg"@, lookup_spec(es23, "color7"@).unwrap()));
    let es25 = es24.push(EntryView::Definition("titleButtonBgOver"@, lighter_view(lookup_spec(es24, "color0"@).unwrap(), 40)));
    let es26 = es25.push(EntryView::Definition("titleButtonFgOver"@, lighter_view(lookup_spec(es25, "color7"@).unwrap(), 40)));
    let es27 = es26.push(EntryView::Definition("titleButtonBgActive"@, lookup_spec(es26, "titleButtonBg"@).unwrap()));
    let es28 = es27.push(EntryView::Definition("titleButtonFgActive"@, lookup_spec(es27, "titleButtonFg"@).unwrap()));
    let es29 = es28.push(EntryView::Definition("titleButtonBgActiveOver"@, lookup_spec(es28, "titleButtonBgOver"@).unwrap()));
    let es30 = es29.push(EntryView::Definition("titleButtonFgActiveOver"@, lookup_spec(es29, "titleButtonFgOver"@).unwrap()));
    let es31 = es30.push(EntryView::Definition("titleButtonCloseBg"@, lookup_spec(es30, "titleButtonBg"@).unwrap()));
    let es32 = es31.push(EntryView::Definition("titleButtonCloseFg"@, lookup_spec(es31, "titleButtonFg"@).unwrap()));
    let es33 = es32.push(EntryView::Definition("titleButtonCloseBgOver"@, lighter_view(lookup_spec(es32, "color0"@).unwrap(), 40)));
    let es34 = es33.push(EntryView::Definition("titleButtonCloseFgOver"@, lookup_spec(es33, "windowFgActive"@).unwrap()));
    let es35 = es34.push(EntryView::Definition("titleButtonCloseBgActive"@, lookup_spec(es34, "titleButtonCloseBg"@).unwrap()));
    es35
}

fn section_placeholder(b: &mut ThemeBuilder, palette: &BasePalette) -> (r: Result<(), ThemeError>)
    requires
        old(b).wf(),
        defined(old(b)@, "color7"@),
        defined(old(b)@, "color0"@),
        defined(old(b)@, "color8"@),
        defined(old(b)@, "windowBgActive"@),
        defined(old(b)@, "windowFgActive"@),
    ensures
        r is Ok,
        final(b).wf(),
        final(b)@ == section_placeholder_entries(old(b)@, palette.colors@),
        defined(final(b)@, "sliderBgInactive"@),
        defined(final(b)@, "titleButtonCloseBgOver"@),
        defined(final(b)@, "titleButtonCloseFg"@),
        defined(final(b)@, "titleButtonCloseFgOver"@),
        forall|n: Seq<char>| #[trigger] defined(old(b)@, n) ==> defined(final(b)@, n),
{
    broadcast use lemma_lookup_push;

    proof {
        reveal(section_placeholder_entries);
    }

    b.emit_comment("Placeholder");
    {
        let c = b.lookup("color7")?;
        b.emit_color("placeholderFg", c);
    }
    {
        let c = b.lookup("color7")?;
        b.emit_color("placeholderFgActive", c.darker(40));
    }
    b.emit_comment("Input");
    {
        let c = b.lookup("color7")?;
        b.emit_color("inputBorderFg", c);
    }
    b.emit_comment("Filter");
    {
        let c = b.lookup("color0")?;
        b.emit_color("filterInputBorderFg", c.lighter(40));
    }
    {
        let c = b.lookup("color8")?;
        b.emit_color("filterInputInactiveBg", c.darker(30));
    }
    {
        let c = b.lookup("color8")?;
        b.emit_color("filterInputActiveBg", c.darker(20));
    }
    b.emit_comment("Checkbox");
    {
        let c = b.lookup("color7")?;
        b.emit_color("checkboxFg", c.darker(40));
    }
    b.emit_comment("Slider");
    {
        let c = b.lookup("color7")?;
        b.emit_color("sliderBgInactive", c.darker(40));
    }
    {
        let c = b.lookup("windowBgActive")?;
        b.emit_color("sliderBgActive", c);
    }
    b.emit_comment("Tooltip");
    {
        let c = b.lookup("color7")?;
        b.emit_color("tooltipBg", c);
    }
    {
        let c = b.lookup("color0")?;
        b.emit_color("tooltipFg", c);
    }
    {
        let c = b.lookup("color7")?;
        b.emit_color("tooltipBorderFg", c);
    }
    b.emit_comment("Title");
    {
        let c = b.lookup("color0")?;
        b.emit_color("titleShadow", c.alpha(05));
    }
    {
        let c = b.lookup("color0")?;
        b.emit_color("titleBg", c);
    }
    {
        let c = b.lookup("titleBg")?;
        b.emit_color("titleBgActive", c);
    }
    {
        let c = b.lookup("titleBg")?;
        b.emit_color("titleButtonBg", c);
    }
    {
        let c = b.lookup("color7")?;
        b.emit_color("titleButtonFg", c);
    }
    {
        let c = b.lookup("color0")?;
        b.emit_color("titleButtonBgOver", c.lighter(40));
    }
    {
        let c = b.lookup("color7")?;
        b.emit_color("titleButtonFgOver", c.lighter(40));
    }
    {
        let c = b.lookup("titleButtonBg")?;
        b.emit_color("titleButtonBgActive", c);
    }
    {
        let c = b.lookup("titleButtonFg")?;
        b.emit_color("titleButtonFgActive", c);
    }
    {
        let c = b.lookup("titleButtonBgOver")?;
        b.emit_color("titleButtonBgActiveOver", c);
    }
    {
        let c = b.lookup("titleButtonFgOver")?;
        b.emit_color("titleButtonFgActiveOver", c);
    }
    {
        let c = b.lookup("titleButtonBg")?;
        b.emit_color("titleButtonCloseBg", c);
    }
    {
        let c = b.lookup("titleButtonFg")?;
        b.emit_color("titleButtonCloseFg", c);
    }
    {
        let c = b.lookup("color0")?;
        b.emit_color("titleButtonCloseBgOver", c.lighter(40));
    }
    {
        let c = b.lookup("windowFgActive")?;
        b.emit_color("titleButtonCloseFgOver", c);
    }
    {
        let c = b.lookup("titleButtonCloseBg")?;
        b.emit_color("titleButtonCloseBgActive", c);
    }
    Ok(())
}

/// The entries this section appends to the registry.
#[verifier::opaque]
pub open spec fn section_tray_entries(es0: Seq<EntryView>, pal: Seq<Color>) -> Seq<EntryView> {
    let es1 = es0.push(EntryView::Definition("titleButtonCloseFgActive"@, lookup_spec(es0, "titleButtonCloseFg"@).unwrap()));
    let es2 = es1.push(EntryView::Definition("titleButtonCloseBgActiveOver"@, lookup_spec(es1, "titleButtonCloseBgOver"@).unwrap()));
    let es3 = es2.push(EntryView::Definition("titleButtonCloseFgActiveOver"@, lookup_spec(es2, "titleButtonCloseFgOver"@).unwrap()));
    let es4 = es3.push(EntryView::Definition("titleFg"@, lookup_spec(es3, "color7"@).unwrap()));
    let es5 = es4.push(EntryView::Definition("titleFgActive"@, lighter_view(lookup_spec(es4, "color7"@).unwrap(), 40)));
    let es6 = es5.push(EntryView::Comment("Tray"@));
    let es7 = es6.push(EntryView::Definition("trayCounterBg"@, lookup_spec(es6, "color2"@).unwrap()));
    let es8 = es7.push(EntryView::Definition("trayCounterBgMute"@, lookup_spec(es7, "color0"@).unwrap()));
    let es9 = es8.push(EntryView::Definition("trayCounterFg"@, lookup_spec(es8, "color7"@).unwrap()));
    let es10 = es9.push(EntryView::Definition("trayCounterBgMacInvert"@, lookup_spec(es9, "color7"@).unwrap()));
    let es11 = es10.push(EntryView::Definition("trayCounterFgMacInvert"@, lookup_spec(es10, "color2"@).unwrap()));
    let es12 = es11.push(EntryView::Comment("Layer"@));
    let es13 = es12.push(EntryView::Definition("layerBg"@, alpha_view(lookup_spec(es12, "color0"@).unwrap(), 45)));
    let es14 = es13.push(EntryView::Comment("Cancel"@));
    let es15 = es14.push(EntryView::Definition("cancelIconFg"@, darker_view(lookup_spec(es14, "color7"@).unwrap(), 40)));
    let es16 = es15.push(EntryView::Definition("cancelIconFgOver"@, lookup_spec(es15, "color7"@).unwrap()));
    let es17 = es16.push(EntryView::Comment("Box"@));
    let es18 = es17.push(EntryView::Definition("boxBg"@, lookup_spec(es17, "windowBg"@).unwrap()));
    let es19 = es18.push(EntryView::Definition("boxTextFg"@, lookup_spec(es18, "windowFg"@).unwrap()));
    let es20 = es19.push(EntryView::Definition("boxTextFgGood"@, lookup_spec(es19, "color2"@).unwrap()));
    let es21 = es20.push(EntryView::Definition("boxTextFgError"@, lookup_spec(es20, "color1"@).unwrap()));
    let es22 = es21.push(EntryView::Definition("boxTitleFg"@, lighter_view(lookup_spec(es21, "color7"@).unwrap(), 40)));
    let es23 = es22.push(EntryView::Definition("boxSearchBg"@, lookup_spec(es22, "color0"@).unwrap()));
    let es24 = es23.push(EntryView::Definition("boxTitleAdditionalFg"@, darker_view(lookup_spec(es23, "color7"@).unwrap(), 40)));
    let es25 = es24.push(EntryView::Definition("boxTitleCloseFg"@, lookup_spec(es24, "cancelIconFg"@).unwrap()));
    let es26 = es25.push(EntryView::Definition("boxTitleCloseFgOver"@, lookup_spec(es25, "cancelIconFgOver"@).unwrap()));
    es26
}

fn section_tray(b: &mut ThemeBuilder, palette: &BasePalette) -> (r: Result<(), ThemeError>)
    requires
        old(b).wf(),
        defined(old(b)@, "titleButtonCloseFg"@),
        defined(old(b)@, "titleButtonCloseBgOver"@),
        defined(old(b)@, "titleButtonCloseFgOver"@),
        defined(old(b)@, "color7"@),
        defined(old(b)@, "color2"@),
        defined(old(b)@, "color0"@),
        defined(old(b)@, "windowBg"@),
        defined(old(b)@, "windowFg"@),
        defined(old(b)@, "color1"@),
    ensures
        r is Ok,
        final(b).wf(),
        final(b)@ == section_tray_entries(old(b)@, palette.colors@),
        defined(final(b)@, "boxTextFg"@),
        defined(final(b)@, "cancelIconFg"@),
        defined(final(b)@, "cancelIconFgOver"@),
        defined(final(b)@, "layerBg"@),
        forall|n: Seq<char>| #[trigger] defined(old(b)@, n) ==> defined(final(b)@, n),
{
    broadcast use lemma_lookup_push;

    proof {
        reveal(section_tray_entries);
    }

    {
        let c = b.lookup("titleButtonCloseFg")?;
        b.emit_color("titleButtonCloseFgActive", c);
    }
    {
        let c = b.lookup("titleButtonCloseBgOver")?;
        b.emit_color("titleButtonCloseBgActiveOver", c);
    }
    {
        let c = b.lookup("titleButtonCloseFgOver")?;
        b.emit_color("titleButtonCloseFgActiveOver", c);
    }
    {
        let c = b.lookup("color7")?;
        b.emit_color("titleFg", c);
    }
    {
        let c = b.lookup("color7")?;
        b.emit_color("titleFgActive", c.lighter(40));
    }
    b.emit_comment("Tray");
    {
        let c = b.lookup("color2")?;
        b.emit_color("trayCounterBg", c);
    }
    {
        let c = b.lookup("color0")?;
        b.emit_color("trayCounterBgMute", c);
    }
    {
        let c = b.lookup("color7")?;
        b.emit_color("trayCounterFg", c);
    }
    {
        let c = b.lookup("color7")?;
        b.emit_color("trayCounterBgMacInvert", c);
    }
    {
        let c = b.lookup("color2")?;
        b.emit_color("trayCounterFgMacInvert", c);
    }
    b.emit_comment("Layer");
    {
        let c = b.lookup("color0")?;
        b.emit_color("layerBg", c.alpha(45));
    }
    b.emit_comment("Cancel");
    {
        let c = b.lookup("color7")?;
        b.emit_color("cancelIconFg", c.darker(40));
    }
    {
        let c = b.lookup("color7")?;
        b.emit_color("cancelIconFgOver", c);
    }
    b.emit_comment("Box");
    {
        let c = b.lookup("windowBg")?;
        b.emit_color("boxBg", c);
    }
    {
        let c = b.lookup("windowFg")?;
        b.emit_color("boxTextFg", c);
    }
    {
        let c = b.lookup("color2")?;
        b.emit_color("boxTextFgGood", c);
    }
    {
        let c = b.lookup("color1")?;
        b.emit_color("boxTextFgError", c);
    }
    {
        let c = b.lookup("color7")?;
        b.emit_color("boxTitleFg", c.lighter(40));
    }
    {
        let c = b.lookup("color0")?;
        b.emit_color("boxSearchBg", c);
    }
    {
        let c = b.lookup("color7")?;
        b.emit_color("boxTitleAdditionalFg", c.darker(40));
    }
    {
        let c = b.lookup("cancelIconFg")?;
        b.emit_color("boxTitleCloseFg", c);
    }
    {
        let c = b.lookup("cancelIconFgOver")?;
        b.emit_color("boxTitleCloseFgOver", c);
    }
    Ok(())
}

/// The entries this section appends to the registry.
#[verifier::opaque]
pub open spec fn section_members_entries(es0: Seq<EntryView>, pal: Seq<Color>) -> Seq<EntryView> {
    let es1 = es0.push(EntryView::Comment("Members"@));
    let es2 = es1.push(EntryView::Definition("membersAboutLimitFg"@, lookup_spec(es1, "color1"@).unwrap()));
    let es3 = es2.push(EntryView::Comment("Contacts"@));
    let es4 = es3.push(EntryView::Definition("contactsBg"@, lighter_view(lookup_spec(es3, "color0"@).unwrap(), 40)));
    let es5 = es4.push(EntryView::Definition("contactsBgOver"@, lookup_spec(es4, "color0"@).unwrap()));
    let es6 = es5.push(EntryView::Definition("contactsNameFg"@, lookup_spec(es5, "boxTextFg"@).unwrap()));
    let es7 = es6.push(EntryView::Definition("contactsStatusFg"@, darker_view(lookup_spec(es6, "color7"@).unwrap(), 40)));
    let es8 = es7.push(EntryView::Definition("contactsStatusFgOver"@, darker_view(lookup_spec(es7, "color7"@).unwrap(), 40)));
    let es9 = es8.push(EntryView::Definition("contactsStatusFgOnline"@, lookup_spec(es8, "color10"@).unwrap()));
    let es10 = es9.push(EntryView::Comment("Photo"@));
    let es11 = es10.push(EntryView::Definition("photoCropFadeBg"@, lookup_spec(es10, "layerBg"@).unwrap()));
    let es12 = es11.push(EntryView::Definition("photoCropPointFg"@, alpha_view(lookup_spec(es11, "color7"@).unwrap(), 45)));
    let es13 = es12.push(EntryView::Comment("Call"@));
    let es14 = es13.push(EntryView::Definition("callArrowFg"@, lookup_spec(es13, "color2"@).unwrap()));
    let es15 = es14.push(EntryView::Definition("callArrowMissedFg"@, lookup_spec(es14, "color1"@).unwrap()));
    let es16 = es15.push(EntryView::Comment("Intro"@));
    let es17 = es16.push(EntryView::Definition("introBg"@, lookup_spec(es16, "windowBg"@).unwrap()));
    let es18 = es17.push(EntryView::Definition("introTitleFg"@, lighter_view(lookup_spec(es17, "color7"@).unwrap(), 40)));
    let es19 = es18.push(EntryView::Definition("introDescriptionFg"@, lookup_spec(es18, "color7"@).unwrap()));
    let es20 = es19.push(EntryView::Definition("introErrorFg"@, lookup_spec(es19, "color1"@).unwrap()));
    let es21 = es20.push(EntryView::Definition("introCoverTopBg"@, lookup_spec(es20, "color2"@).unwrap()));
    let es22 = es21.push(EntryView::Definition("introCoverBottomBg"@, lookup_spec(es21, "color2"@).unwrap()));
    let es23 = es22.push(EntryView::Definition("introCoverIconsFg"@, lighter_view(lookup_spec(es22, "color2"@).unwrap(), 40)));
    let es24 = es23.push(EntryView::Definition("introCoverPlaneTrace"@, lighter_view(lookup_spec(es23, "color2"@).unwrap(), 40)));
    let es25 = es24.push(EntryView::Definition("introCoverPlaneInner"@, lighter_view(lookup_spec(es24, "color1"@).unwrap(), 40)));
    let es26 = es25.push(EntryView::Definition("introCoverPlaneOuter"@, lookup_spec(es25, "color1"@).unwrap()));
    let es27 = es26.push(EntryView::Definition("introCoverPlaneTop"@, lighter_view(lookup_spec(es26, "color7"@).unwrap(), 40)));
    es27
}

fn section_members(b: &mut ThemeBuilder, palette: &BasePalette) -> (r: Result<(), ThemeError>)
    requires
        old(b).wf(),
        defined(old(b)@, "color1"@),
        defined(old(b)@, "color0"@),
        defined(old(b)@, "boxTextFg"@),
        defined(old(b)@, "color7"@),
        defined(old(b)@, "color10"@),
        defined(old(b)@, "layerBg"@),
        defined(old(b)@, "color2"@),
        defined(old(b)@, "windowBg"@),
    ensures
        r is Ok,
        final(b).wf(),
        final(b)@ == section_members_entries(old(b)@, palette.colors@),
        defined(final(b)@, "callArrowMissedFg"@),
        forall|n: Seq<char>| #[trigger] defined(old(b)@, n) ==> defined(final(b)@, n),
{
    broadcast use lemma_lookup_push;

    proof {
        reveal(section_members_entries);
    }

    b.emit_comment("Members");
    {
        let c = b.lookup("color1")?;
        b.emit_color("membersAboutLimitFg", c);
    }
    b.emit_comment("Contacts");
    {
        let c = b.lookup("color0")?;
        b.emit_color("contactsBg", c.lighter(40));
    }
    {
        let c = b.lookup("color0")?;
        b.emit_color("contactsBgOver", c);
    }
    {
        let c = b.lookup("boxTextFg")?;
        b.emit_color("contactsNameFg", c);
    }
    {
        let c = b.lookup("color7")?;
        b.emit_color("contactsStatusFg", c.darker(40));
    }
    {
        let c = b.lookup("color7")?;
        b.emit_color("contactsStatusFgOver", c.darker(40));
    }
    {
        let c = b.lookup("color10")?;
        b.emit_color("contactsStatusFgOnline", c);
    }
    b.emit_comment("Photo");
    {
        let c = b.lookup("layerBg")?;
        b.emit_color("photoCropFadeBg", c);
    }
    {
        let c = b.lookup("color7")?;
        b.emit_color("photoCropPointFg", c.alpha(45));
    }
    b.emit_comment("Call");
    {
        let c = b.lookup("color2")?;
        b.emit_color("callArrowFg", c);
    }
    {
        let c = b.lookup("color1")?;
        b.emit_color("callArrowMissedFg", c);
    }
    b.emit_comment("Intro");
    {
        let c = b.lookup("windowBg")?;
        b.emit_color("introBg", c);
    }
    {
        let c = b.lookup("color7")?;
        b.emit_color("introTitleFg", c.lighter(40));
    }
    {
        let c = b.lookup("color7")?;
        b.emit_color("introDescriptionFg", c);
    }
    {
        let c = b.lookup("color1")?;
        b.emit_color("introErrorFg", c);
    }
    {
        let c = b.lookup("color2")?;
        b.emit_color("introCoverTopBg", c);
    }
    {
        let c = b.lookup("color2")?;
        b.emit_color("introCoverBottomBg", c);
    }
    {
        let c = b.lookup("color2")?;
        b.emit_color("introCoverIconsFg", c.lighter(40));
    }
    {
        let c = b.lookup("color2")?;
        b.emit_color("introCoverPlaneTrace", c.lighter(40));
    }
    {
        let c = b.lookup("color1")?;
        b.emit_color("introCoverPlaneInner", c.lighter(40));
    }
    {
        let c = b.lookup("color1")?;
        b.emit_color("introCoverPlaneOuter", c);
    }
    {
        let c = b.lookup("color7")?;
        b.emit_color("introCoverPlaneTop", c.lighter(40));
    }
    Ok(())
}

/// The entries this section appends to the registry.
#[verifier::opaque]
pub open spec fn section_dialogs_default_entries(es0: Seq<EntryView>, pal: Seq<Color>) -> Seq<EntryView> {
    let es1 = es0.push(EntryView::Comment("Dialogs default"@));
    let es2 = es1.push(EntryView::Definition("dialogsMenuIconFg"@, lookup_spec(es1, "menuIconFg"@).unwrap()));
    let es3 = es2.push(EntryView::Definition("dialogsMenuIconFgOver"@, lookup_spec(es2, "menuIconFgOver"@).unwrap()));
    let es4 = es3.push(EntryView::Definition("dialogsBg"@, lookup_spec(es3, "windowBg"@).unwrap()));
    let es5 = es4.push(EntryView::Definition("dialogsNameFg"@, lighter_view(lookup_spec(es4, "color7"@).unwrap(), 40)));
    let es6 = es5.push(EntryView::Definition("dialogsChatIconFg"@, lookup_spec(es5, "dialogsNameFg"@).unwrap()));
    let es7 = es6.push(EntryView::Definition("dialogsDateFg"@, darker_view(lookup_spec(es6, "color7"@).unwrap(), 40)));
    let es8 = es7.push(EntryView::Definition("dialogsTextFg"@, lookup_spec(es7, "color7"@).unwrap()));
    let es9 = es8.push(EntryView::Definition("dialogsTextFgService"@, lookup_spec(es8, "color7"@).unwrap()));
    let es10 = es9.push(EntryView::Definition("dialogsDraftFg"@, lookup_spec(es9, "color1"@).unwrap()));
    let es11 = es10.push(EntryView::Definition("dialogsVerifiedIconBg"@, lookup_spec(es10, "color10"@).unwrap()));
    let es12 = es11.push(EntryView::Definition("dialogsVerifiedIconFg"@, lookup_spec(es11, "color0"@).unwrap()));
    let es13 = es12.push(EntryView::Definition("dialogsSendingIconFg"@, lookup_spec(es12, "color10"@).unwrap()));
    let es14 = es13.push(EntryView::Definition("dialogsSentIconFg"@, lookup_spec(es13, "color10"@).unwrap()));
    let es15 = es14.push(EntryView::Definition("dialogsUnreadBg"@, lookup_spec(es14, "color1"@).unwrap()));
    let es16 = es15.push(EntryView::Definition("dialogsUnreadBgMuted"@, darker_view(lookup_spec(es15, "color7"@).unwrap(), 40)));
    let es17 = es16.push(EntryView::Definition("dialogsUnreadFg"@, lighter_view(lookup_spec(es16, "color7"@).unwrap(), 40)));
    let es18 = es17.push(EntryView::Comment("Dialogs over"@));
    let es19 = es18.push(EntryView::Definition("dialogsBgOver"@, darker_view(lookup_spec(es18, "color2"@).unwrap(), 50)));
    let es20 = es19.push(EntryView::Definition("dialogsNameFgOver"@, lookup_spec(es19, "windowBoldFgOver"@).unwrap()));
    let es21 = es20.push(EntryView::Definition("dialogsChatIconFgOver"@, lookup_spec(es20, "dialogsNameFgOver"@).unwrap()));
    let es22 = es21.push(EntryView::Definition("dialogsDateFgOver"@, darker_view(lookup_spec(es21, "color7"@).unwrap(), 40)));
    let es23 = es22.push(EntryView::Definition("dialogsTextFgOver"@, lookup_spec(es22, "color7"@).unwrap()));
    let es24 = es23.push(EntryView::Definition("dialogsTextFgServiceOver"@, lookup_spec(es23, "color7"@).unwrap()));
    let es25 = es24.push(EntryView::Definition("dialogsDraftFgOver"@, lookup_spec(es24, "dialogsDraftFg"@).unwrap()));
    let es26 = es25.push(EntryView::Definition("dialogsVerifiedIconBgOver"@, lookup_spec(es25, "color2"@).unwrap()));
    let es27 = es26.push(EntryView::Definition("dialogsVerifiedIconFgOver"@, lookup_spec(es26, "color0"@).unwrap()));
    let es28 = es27.push(EntryView::Definition("dialogsSendingIconFgOver"@, lookup_spec(es27, "dialogsSendingIconFg"@).unwrap()));
    let es29 = es28.push(EntryView::Definition("dialogsSentIconFgOver"@, lookup_spec(es28, "color10"@).unwrap()));
    let es30 = es29.push(EntryView::Definition("dialogsUnreadBgOver"@, darker_view(lookup_spec(es29, "color1"@).unwrap(), 40)));
    es30
}

fn section_dialogs_default(b: &mut ThemeBuilder, palette: &BasePalette) -> (r: Result<(), ThemeError>)
    requires
        old(b).wf(),
        defined(old(b)@, "menuIconFg"@),
        defined(old(b)@, "menuIconFgOver"@),
        defined(old(b)@, "windowBg"@),
        defined(old(b)@, "color7"@),
        defined(old(b)@, "color1"@),
        defined(old(b)@, "color10"@),
        defined(old(b)@, "color0"@),
        defined(old(b)@, "color2"@),
        defined(old(b)@, "windowBoldFgOver"@),
    ensures
        r is Ok,
        final(b).wf(),
        final(b)@ == section_dialogs_default_entries(old(b)@, palette.colors@),
        defined(final(b)@, "dialogsUnreadFg"@),
        forall|n: Seq<char>| #[trigger] defined(old(b)@, n) ==> defined(final(b)@, n),
{
    broadcast use lemma_lookup_push;

    proof {
        reveal(section_dialogs_default_entries);
    }

    b.emit_comment("Dialogs default");
    {
        let c = b.lookup("menuIconFg")?;
        b.emit_color("dialogsMenuIconFg", c);
    }
    {
        let c = b.lookup("menuIconFgOver")?;
        b.emit_color("dialogsMenuIconFgOver", c);
    }
    {
        let c = b.lookup("windowBg")?;
        b.emit_color("dialogsBg", c);
    }
    {
        let c = b.lookup("color7")?;
        b.emit_color("dialogsNameFg", c.lighter(40));
    }
    {
        let c = b.lookup("dialogsNameFg")?;
        b.emit_color("dialogsChatIconFg", c);
    }
    {
        let c = b.lookup("color7")?;
        b.emit_color("dialogsDateFg", c.darker(40));
    }
    {
        let c = b.lookup("color7")?;
        b.emit_color("dialogsTextFg", c);
    }
    {
        let c = b.lookup("color7")?;
        b.emit_color("dialogsTextFgService", c);
    }
    {
        let c = b.lookup("color1")?;
        b.emit_color("dialogsDraftFg", c);
    }
    {
        let c = b.lookup("color10")?;
        b.emit_color("dialogsVerifiedIconBg", c);
    }
    {
        let c = b.lookup("color0")?;
        b.emit_color("dialogsVerifiedIconFg", c);
    }
    {
        let c = b.lookup("color10")?;
        b.emit_color("dialogsSendingIconFg", c);
    }
    {
        let c = b.lookup("color10")?;
        b.emit_color("dialogsSentIconFg", c);
    }
    {
        let c = b.lookup("color1")?;
        b.emit_color("dialogsUnreadBg", c);
    }
    {
        let c = b.lookup("color7")?;
        b.emit_color("dialogsUnreadBgMuted", c.darker(40));
    }
    {
        let c = b.lookup("color7")?;
        b.emit_color("dialogsUnreadFg", c.lighter(40));
    }
    b.emit_comment("Dialogs over");
    {
        let c = b.lookup("color2")?;
        b.emit_color("dialogsBgOver", c.darker(50));
    }
    {
        let c = b.lookup("windowBoldFgOver")?;
        b.emit_color("dialogsNameFgOver", c);
    }
    {
        let c = b.lookup("dialogsNameFgOver")?;
        b.emit_color("dialogsChatIconFgOver", c);
    }
    {
        let c = b.lookup("color7")?;
        b.emit_color("dialogsDateFgOver", c.darker(40));
    }
    {
        let c = b.lookup("color7")?;
        b.emit_color("dialogsTextFgOver", c);
    }
    {
        let c = b.lookup("color7")?;
        b.emit_color("dialogsTextFgServiceOver", c);
    }
    {
        let c = b.lookup("dialogsDraftFg")?;
        b.emit_color("dialogsDraftFgOver", c);
    }
    {
        let c = b.lookup("color2")?;
        b.emit_color("dialogsVerifiedIconBgOver", c);
    }
    {
        let c = b.lookup("color0")?;
        b.emit_color("dialogsVerifiedIconFgOver", c);
    }
    {
        let c = b.lookup("dialogsSendingIconFg")?;
        b.emit_color("dialogsSendingIconFgOver", c);
    }
    {
        let c = b.lookup("color10")?;
        b.emit_color("dialogsSentIconFgOver", c);
    }
    {
        let c = b.lookup("color1")?;
        b.emit_color("dialogsUnreadBgOver", c.darker(40));
    }
    Ok(())
}

/// The entries this section appends to the registry.
#[verifier::opaque]
pub open spec fn section_dialogs_active_entries(es0: Seq<EntryView>, pal: Seq<Color>) -> Seq<EntryView> {
    let es1 = es0.push(EntryView::Definition("dialogsUnreadBgMutedOver"@, darker_view(lookup_spec(es0, "color7"@).unwrap(), 40)));
    let es2 = es1.push(EntryView::Definition("dialogsUnreadFgOver"@, lookup_spec(es1, "dialogsUnreadFg"@).unwrap()));
    let es3 = es2.push(EntryView::Comment("Dialogs active"@));
    let es4 = es3.push(EntryView::Definition("dialogsBgActive"@, lookup_spec(es3, "color2"@).unwrap()));
    let es5 = es4.push(EntryView::Definition("dialogsNameFgActive"@, lookup_spec(es4, "windowBoldFgOver"@).unwrap()));
    let es6 = es5.push(EntryView::Definition("dialogsChatIconFgActive"@, lookup_spec(es5, "dialogsNameFgActive"@).unwrap()));
    let es7 = es6.push(EntryView::Definition("dialogsDateFgActive"@, lighter_view(lookup_spec(es6, "color7"@).unwrap(), 40)));
    let es8 = es7.push(EntryView::Definition("dialogsTextFgActive"@, lighter_view(lookup_spec(es7, "color7"@).unwrap(), 40)));
    let es9 = es8.push(EntryView::Definition("dialogsTextFgServiceActive"@, lighter_view(lookup_spec(es8, "color7"@).unwrap(), 40)));
    let es10 = es9.push(EntryView::Definition("dialogsDraftFgActive"@, lighter_view(lookup_spec(es9, "color7"@).unwrap(), 40)));
    let es11 = es10.push(EntryView::Definition("dialogsVerifiedIconBgActive"@, lookup_spec(es10, "dialogsTextFgActive"@).unwrap()));
    let es12 = es11.push(EntryView::Definition("dialogsVerifiedIconFgActive"@, lookup_spec(es11, "dialogsBgActive"@).unwrap()));
    let es13 = es12.push(EntryView::Definition("dialogsSendingIconFgActive"@, lighter_view(lookup_spec(es12, "color7"@).unwrap(), 40)));
    let es14 = es13.push(EntryView::Definition("dialogsSentIconFgActive"@, lookup_spec(es13, "dialogsTextFgActive"@).unwrap()));
    let es15 = es14.push(EntryView::Definition("dialogsUnreadBgActive"@, lookup_spec(es14, "dialogsTextFgActive"@).unwrap()));
    let es16 = es15.push(EntryView::Definition("dialogsUnreadBgMutedActive"@, lighter_view(lookup_spec(es15, "color7"@).unwrap(), 40)));
    let es17 = es16.push(EntryView::Definition("dialogsUnreadFgActive"@, lighter_view(lookup_spec(es16, "color7"@).unwrap(), 40)));
    let es18 = es17.push(EntryView::Comment("Dialogs ripple"@));
    let es19 = es18.push(EntryView::Definition("dialogsRippleBg"@, lighter_view(lookup_spec(es18, "color0"@).unwrap(), 60)));
    let es20 = es19.push(EntryView::Definition("dialogsRippleBgActive"@, lighter_view(lookup_spec(es19, "color2"@).unwrap(), 40)));
    let es21 = es20.push(EntryView::Comment("Dialogs forward"@));
    let es22 = es21.push(EntryView::Definition("dialogsForwardBg"@, lookup_spec(es21, "dialogsBgActive"@).unwrap()));
    let es23 = es22.push(EntryView::Definition("dialogsForwardFg"@, lookup_spec(es22, "dialogsNameFgActive"@).unwrap()));
    es23
}

fn section_dialogs_active(b: &mut ThemeBuilder, palette: &BasePalette) -> (r: Result<(), ThemeError>)
    requires
        old(b).wf(),
        defined(old(b)@, "color7"@),
        defined(old(b)@, "dialogsUnreadFg"@),
        defined(old(b)@, "color2"@),
        defined(old(b)@, "windowBoldFgOver"@),
        defined(old(b)@, "color0"@),
    ensures
        r is Ok,
        final(b).wf(),
        final(b)@ == section_dialogs_active_entries(old(b)@, palette.colors@),
        defined(final(b)@, "dialogsBgActive"@),
        defined(final(b)@, "dialogsNameFgActive"@),
        defined(final(b)@, "dialogsRippleBgActive"@),
        forall|n: Seq<char>| #[trigger] defined(old(b)@, n) ==> defined(final(b)@, n),
{
    broadcast use lemma_lookup_push;

    proof {
        reveal(section_dialogs_active_entries);
    }

    {
        let c = b.lookup("color7")?;
        b.emit_color("dialogsUnreadBgMutedOver", c.darker(40));
    }
    {
        let c = b.lookup("dialogsUnreadFg")?;
        b.emit_color("dialogsUnreadFgOver", c);
    }
    b.emit_comment("Dialogs active");
    {
        let c = b.lookup("color2")?;
        b.emit_color("dialogsBgActive", c);
    }
    {
        let c = b.lookup("windowBoldFgOver")?;
        b.emit_color("dialogsNameFgActive", c);
    }
    {
        let c = b.lookup("dialogsNameFgActive")?;
        b.emit_color("dialogsChatIconFgActive", c);
    }
    {
        let c = b.lookup("color7")?;
        b.emit_color("dialogsDateFgActive", c.lighter(40));
    }
    {
        let c = b.lookup("color7")?;
        b.emit_color("dialogsTextFgActive", c.lighter(40));
    }
    {
        let c = b.lookup("color7")?;
        b.emit_color("dialogsTextFgServiceActive", c.lighter(40));
    }
    {
        let c = b.lookup("color7")?;
        b.emit_color("dialogsDraftFgActive", c.lighter(40));
    }
    {
        let c = b.lookup("dialogsTextFgActive")?;
        b.emit_color("dialogsVerifiedIconBgActive", c);
    }
    {
        let c = b.lookup("dialogsBgActive")?;
        b.emit_color("dialogsVerifiedIconFgActive", c);
    }
    {
        let c = b.lookup("color7")?;
        b.emit_color("dialogsSendingIconFgActive", c.lighter(40));
    }
    {
        let c = b.lookup("dialogsTextFgActive")?;
        b.emit_color("dialogsSentIconFgActive", c);
    }
    {
        let c = b.lookup("dialogsTextFgActive")?;
        b.emit_color("dialogsUnreadBgActive", c);
    }
    {
        let c = b.lookup("color7")?;
        b.emit_color("dialogsUnreadBgMutedActive", c.lighter(40));
    }
    {
        let c = b.lookup("color7")?;
        b.emit_color("dialogsUnreadFgActive", c.lighter(40));
    }
    b.emit_comment("Dialogs ripple");
    {
        let c = b.lookup("color0")?;
        b.emit_color("dialogsRippleBg", c.lighter(60));
    }
    {
        let c = b.lookup("color2")?;
        b.emit_color("dialogsRippleBgActive", c.lighter(40));
    }
    b.emit_comment("Dialogs forward");
    {
        let c = b.lookup("dialogsBgActive")?;
        b.emit_color("dialogsForwardBg", c);
    }
    {
        let c = b.lookup("dialogsNameFgActive")?;
        b.emit_color("dialogsForwardFg", c);
    }
    Ok(())
}

/// The entries this section appends to the registry.
#[verifier::opaque]
pub open spec fn section_searched_entries(es0: Seq<EntryView>, pal: Seq<Color>) -> Seq<EntryView> {
    let es1 = es0.push(EntryView::Comment("Searched"@));
    let es2 = es1.push(EntryView::Definition("searchedBarBg"@, lighter_view(lookup_spec(es1, "color0"@).unwrap(), 40)));
    let es3 = es2.push(EntryView::Definition("searchedBarFg"@, lookup_spec(es2, "color7"@).unwrap()));
    let es4 = es3.push(EntryView::Comment("Top"@));
    let es5 = es4.push(EntryView::Definition("topBarBg"@, lookup_spec(es4, "color0"@).unwrap()));
    let es6 = es5.push(EntryView::Comment("Emoji"@));
    let es7 = es6.push(EntryView::Definition("emojiPanBg"@, lookup_spec(es6, "windowBg"@).unwrap()));
    let es8 = es7.push(EntryView::Definition("emojiPanCategories"@, lookup_spec(es7, "color0"@).unwrap()));
    let es9 = es8.push(EntryView::Definition("emojiPanHeaderFg"@, lookup_spec(es8, "color7"@).unwrap()));
    let es10 = es9.push(EntryView::Definition("emojiPanHeaderBg"@, lookup_spec(es9, "color0"@).unwrap()));
    let es11 = es10.push(EntryView::Definition("emojiIconFg"@, lookup_spec(es10, "color7"@).unwrap()));
    let es12 = es11.push(EntryView::Definition("emojiIconFgActive"@, lookup_spec(es11, "color2"@).unwrap()));
    let es13 = es12.push(EntryView::Comment("Sticker"@));
    let es14 = es13.push(EntryView::Definition("stickerPanDeleteBg"@, alpha_view(lookup_spec(es13, "color0"@).unwrap(), 75)));
    let es15 = es14.push(EntryView::Definition("stickerPanDeleteFg"@, lookup_spec(es14, "windowFgActive"@).unwrap()));
    let es16 = es15.push(EntryView::Definition("stickerPreviewBg"@, alpha_view(lookup_spec(es15, "color0"@).unwrap(), 65)));
    let es17 = es16.push(EntryView::Comment("History"@));
    let es18 = es17.push(EntryView::Definition("historyTextInFg"@, lookup_spec(es17, "windowFg"@).unwrap()));
    let es19 = es18.push(EntryView::Definition("historyTextInFgSelected"@, lighter_view(lookup_spec(es18, "color7"@).unwrap(), 40)));
    let es20 = es19.push(EntryView::Definition("historyTextOutFg"@, lookup_spec(es19, "color7"@).unwrap()));
    let es21 = es20.push(EntryView::Definition("historyTextOutFgSelected"@, lighter_view(lookup_spec(es20, "color7"@).unwrap(), 40)));
    let es22 = es21.push(EntryView::Definition("historyLinkInFg"@, lookup_spec(es21, "color10"@).unwrap()));
    let es23 = es22.push(EntryView::Definition("historyLinkInFgSelected"@, lighter_view(lookup_spec(es22, "color7"@).unwrap(), 40)));
    let es24 = es23.push(EntryView::Definition("historyLinkOutFg"@, lookup_spec(es23, "color10"@).unwrap()));
    let es25 = es24.push(EntryView::Definition("historyLinkOutFgSelected"@, lighter_view(lookup_spec(es24, "color7"@).unwrap(), 40)));
    let es26 = es25.push(EntryView::Definition("historyFileNameInFg"@, lookup_spec(es25, "historyTextInFg"@).unwrap()));
    let es27 = es26.push(EntryView::Definition("historyFileNameInFgSelected"@, lighter_view(lookup_spec(es26, "color7"@).unwrap(), 40)));
    let es28 = es27.push(EntryView::Definition("historyFileNameOutFg"@, lookup_spec(es27, "historyTextOutFg"@).unwrap()));
    let es29 = es28.push(EntryView::Definition("historyFileNameOutFgSelected"@, lighter_view(lookup_spec(es28, "color7"@).unwrap(), 40)));
    let es30 = es29.push(EntryView::Definition("historyOutIconFg"@, lighter_view(lookup_spec(es29, "color1"@).unwrap(), 70)));
    let es31 = es30.push(EntryView::Definition("historyOutIconFgSelected"@, lighter_view(lookup_spec(es30, "color7"@).unwrap(), 40)));
    let es32 = es31.push(EntryView::Definition("historyIconFgInverted"@, lookup_spec(es31, "color2"@).unwrap()));
    let es33 = es32.push(EntryView::Definition("historySendingOutIconFg"@, lookup_spec(es32, "color2"@).unwrap()));
    es33
}

fn section_searched(b: &mut ThemeBuilder, palette: &BasePalette) -> (r: Result<(), ThemeError>)
    requires
        old(b).wf(),
        defined(old(b)@, "color0"@),
        defined(old(b)@, "color7"@),
        defined(old(b)@, "windowBg"@),
        defined(old(b)@, "color2"@),
        defined(old(b)@, "windowFgActive"@),
        defined(old(b)@, "windowFg"@),
        defined(old(b)@, "color10"@),
        defined(old(b)@, "color1"@),
    ensures
        r is Ok,
        final(b).wf(),
        final(b)@ == section_searched_entries(old(b)@, palette.colors@),
        defined(final(b)@, "historyTextInFg"@),
        forall|n: Seq<char>| #[trigger] defined(old(b)@, n) ==> defined(final(b)@, n),
{
    broadcast use lemma_lookup_push;

    proof {
        reveal(section_searched_entries);
    }

    b.emit_comment("Searched");
    {
        let c = b.lookup("color0")?;
        b.emit_color("searchedBarBg", c.lighter(40));
    }
    {
        let c = b.lookup("color7")?;
        b.emit_color("searchedBarFg", c);
    }
    b.emit_comment("Top");
    {
        let c = b.lookup("color0")?;
        b.emit_color("topBarBg", c);
    }
    b.emit_comment("Emoji");
    {
        let c = b.lookup("windowBg")?;
        b.emit_color("emojiPanBg", c);
    }
    {
        let c = b.lookup("color0")?;
        b.emit_color("emojiPanCategories", c);
    }
    {
        let c = b.lookup("color7")?;
        b.emit_color("emojiPanHeaderFg", c);
    }
    {
        let c = b.lookup("color0")?;
        b.emit_color("emojiPanHeaderBg", c);
    }
    {
        let c = b.lookup("color7")?;
        b.emit_color("emojiIconFg", c);
    }
    {
        let c = b.lookup("color2")?;
        b.emit_color("emojiIconFgActive", c);
    }
    b.emit_comment("Sticker");
    {
        let c = b.lookup("color0")?;
        b.emit_color("stickerPanDeleteBg", c.alpha(75));
    }
    {
        let c = b.lookup("windowFgActive")?;
        b.emit_color("stickerPanDeleteFg", c);
    }
    {
        let c = b.lookup("color0")?;
        b.emit_color("stickerPreviewBg", c.alpha(65));
    }
    b.emit_comment("History");
    {
        let c = b.lookup("windowFg")?;
        b.emit_color("historyTextInFg", c);
    }
    {
        let c = b.lookup("color7")?;
        b.emit_color("historyTextInFgSelected", c.lighter(40));
    }
    {
        let c = b.lookup("color7")?;
        b.emit_color("historyTextOutFg", c);
    }
    {
        let c = b.lookup("color7")?;
        b.emit_color("historyTextOutFgSelected", c.lighter(40));
    }
    {
        let c = b.lookup("color10")?;
        b.emit_color("historyLinkInFg", c);
    }
    {
        let c = b.lookup("color7")?;
        b.emit_color("historyLinkInFgSelected", c.lighter(40));
    }
    {
        let c = b.lookup("color10")?;
        b.emit_color("historyLinkOutFg", c);
    }
    {
        let c = b.lookup("color7")?;
        b.emit_color("historyLinkOutFgSelected", c.lighter(40));
    }
    {
        let c = b.lookup("historyTextInFg")?;
        b.emit_color("historyFileNameInFg", c);
    }
    {
        let c = b.lookup("color7")?;
        b.emit_color("historyFileNameInFgSelected", c.lighter(40));
    }
    {
        let c = b.lookup("historyTextOutFg")?;
        b.emit_color("historyFileNameOutFg", c);
    }
    {
        let c = b.lookup("color7")?;
        b.emit_color("historyFileNameOutFgSelected", c.lighter(40));
    }
    {
        let c = b.lookup("color1")?;
        b.emit_color("historyOutIconFg", c.lighter(70));
    }
    {
        let c = b.lookup("color7")?;
        b.emit_color("historyOutIconFgSelected", c.lighter(40));
    }
    {
        let c = b.lookup("color2")?;
        b.emit_color("historyIconFgInverted", c);
    }
    {
        let c = b.lookup("color2")?;
        b.emit_color("historySendingOutIconFg", c);
    }
    Ok(())
}

/// The entries this section appends to the registry.
#[verifier::opaque]
pub open spec fn section_part_entries(es0: Seq<EntryView>, pal: Seq<Color>) -> Seq<EntryView> {
    let es1 = es0.push(EntryView::Definition("historySendingInIconFg"@, lookup_spec(es0, "color2"@).unwrap()));
    let es2 = es1.push(EntryView::Definition("historySendingInvertedIconFg"@, alpha_view(lookup_spec(es1, "color2"@).unwrap(), 75)));
    let es3 = es2.push(EntryView::Definition("historyCallArrowInFg"@, lookup_spec(es2, "color1"@).unwrap()));
    let es4 = es3.push(EntryView::Definition("historyCallArrowInFgSelected"@, lighter_view(lookup_spec(es3, "color7"@).unwrap(), 40)));
    let es5 = es4.push(EntryView::Definition("historyCallArrowMissedInFg"@, lookup_spec(es4, "callArrowMissedFg"@).unwrap()));
    let es6 = es5.push(EntryView::Definition("historyCallArrowMissedInFgSelected"@, lighter_view(lookup_spec(es5, "color7"@).unwrap(), 40)));
    let es7 = es6.push(EntryView::Definition("historyCallArrowOutFg"@, lighter_view(lookup_spec(es6, "color7"@).unwrap(), 40)));
    let es8 = es7.push(EntryView::Definition("historyCallArrowOutFgSelected"@, lighter_view(lookup_spec(es7, "color7"@).unwrap(), 40)));
    let es9 = es8.push(EntryView::Definition("historyUnreadBarBg"@, lookup_spec(es8, "color0"@).unwrap()));
    let es10 = es9.push(EntryView::Definition("historyUnreadBarBorder"@, lookup_spec(es9, "shadowFg"@).unwrap()));
    let es11 = es10.push(EntryView::Definition("historyUnreadBarFg"@, lookup_spec(es10, "color1"@).unwrap()));
    let es12 = es11.push(EntryView::Definition("historyForwardChooseBg"@, alpha_view(lookup_spec(es11, "color0"@).unwrap(), 25)));
    let es13 = es12.push(EntryView::Definition("historyForwardChooseFg"@, lookup_spec(es12, "windowFgActive"@).unwrap()));
    let es14 = es13.push(EntryView::Definition("historyPeer1NameFg"@, lookup_spec(es13, "color1"@).unwrap()));
    let es15 = es14.push(EntryView::Definition("historyPeer1NameFgSelected"@, lighter_view(lookup_spec(es14, "color7"@).unwrap(), 40)));
    let es16 = es15.push(EntryView::Definition("historyPeer1UserpicBg"@, lookup_spec(es15, "color1"@).unwrap()));
    let es17 = es16.push(EntryView::Definition("historyPeer2NameFg"@, lookup_spec(es16, "color2"@).unwrap()));
    let es18 = es17.push(EntryView::Definition("historyPeer2NameFgSelected"@, lighter_view(lookup_spec(es17, "color7"@).unwrap(), 40)));
    let es19 = es18.push(EntryView::Definition("historyPeer2UserpicBg"@, lookup_spec(es18, "color2"@).unwrap()));
    let es20 = es19.push(EntryView::Definition("historyPeer3NameFg"@, lookup_spec(es19, "color3"@).unwrap()));
    let es21 = es20.push(EntryView::Definition("historyPeer3NameFgSelected"@, lighter_view(lookup_spec(es20, "color7"@).unwrap(), 40)));
    let es22 = es21.push(EntryView::Definition("historyPeer3UserpicBg"@, lookup_spec(es21, "color3"@).unwrap()));
    let es23 = es22.push(EntryView::Definition("historyPeer4NameFg"@, lookup_spec(es22, "color4"@).unwrap()));
    let es24 = es23.push(EntryView::Definition("historyPeer4NameFgSelected"@, lighter_view(lookup_spec(es23, "color7"@).unwrap(), 40)));
    let es25 = es24.push(EntryView::Definition("historyPeer4UserpicBg"@, lookup_spec(es24, "color4"@).unwrap()));
    let es26 = es25.push(EntryView::Definition("historyPeer5NameFg"@, lookup_spec(es25, "color5"@).unwrap()));
    let es27 = es26.push(EntryView::Definition("historyPeer5NameFgSelected"@, lighter_view(lookup_spec(es26, "color7"@).unwrap(), 40)));
    let es28 = es27.push(EntryView::Definition("historyPeer5UserpicBg"@, lookup_spec(es27, "color5"@).unwrap()));
    es28
}

fn section_part(b: &mut ThemeBuilder, palette: &BasePalette) -> (r: Result<(), ThemeError>)
    requires
        old(b).wf(),
        defined(old(b)@, "color2"@),
        defined(old(b)@, "color1"@),
        defined(old(b)@, "color7"@),
        defined(old(b)@, "callArrowMissedFg"@),
        defined(old(b)@, "color0"@),
        defined(old(b)@, "shadowFg"@),
        defined(old(b)@, "windowFgActive"@),
        defined(old(b)@, "color3"@),
        defined(old(b)@, "color4"@),
        defined(old(b)@, "color5"@),
    ensures
        r is Ok,
        final(b).wf(),
        final(b)@ == section_part_entries(old(b)@, palette.colors@),
        forall|n: Seq<char>| #[trigger] defined(old(b)@, n) ==> defined(final(b)@, n),
{
    broadcast use lemma_lookup_push;

    proof {
        reveal(section_part_entries);
    }

    {
        let c = b.lookup("color2")?;
        b.emit_color("historySendingInIconFg", c);
    }
    {
        let c = b.lookup("color2")?;
        b.emit_color("historySendingInvertedIconFg", c.alpha(75));
    }
    {
        let c = b.lookup("color1")?;
        b.emit_color("historyCallArrowInFg", c);
    }
    {
        let c = b.lookup("color7")?;
        b.emit_color("historyCallArrowInFgSelected", c.lighter(40));
    }
    {
        let c = b.lookup("callArrowMissedFg")?;
        b.emit_color("historyCallArrowMissedInFg", c);
    }
    {
        let c = b.lookup("color7")?;
        b.emit_color("historyCallArrowMissedInFgSelected", c.lighter(40));
    }
    {
        let c = b.lookup("color7")?;
        b.emit_color("historyCallArrowOutFg", c.lighter(40));
    }
    {
        let c = b.lookup("color7")?;
        b.emit_color("historyCallArrowOutFgSelected", c.lighter(40));
    }
    {
        let c = b.lookup("color0")?;
        b.emit_color("historyUnreadBarBg", c);
    }
    {
        let c = b.lookup("shadowFg")?;
        b.emit_color("historyUnreadBarBorder", c);
    }
    {
        let c = b.lookup("color1")?;
        b.emit_color("historyUnreadBarFg", c);
    }
    {
        let c = b.lookup("color0")?;
        b.emit_color("historyForwardChooseBg", c.alpha(25));
    }
    {
        let c = b.lookup("windowFgActive")?;
        b.emit_color("historyForwardChooseFg", c);
    }
    {
        let c = b.lookup("color1")?;
        b.emit_color("historyPeer1NameFg", c);
    }
    {
        let c = b.lookup("color7")?;
        b.emit_color("historyPeer1NameFgSelected", c.lighter(40));
    }
    {
        let c = b.lookup("color1")?;
        b.emit_color("historyPeer1UserpicBg", c);
    }
    {
        let c = b.lookup("color2")?;
        b.emit_color("historyPeer2NameFg", c);
    }
    {
        let c = b.lookup("color7")?;
        b.emit_color("historyPeer2NameFgSelected", c.lighter(40));
    }
    {
        let c = b.lookup("color2")?;
        b.emit_color("historyPeer2UserpicBg", c);
    }
    {
        let c = b.lookup("color3")?;
        b.emit_color("historyPeer3NameFg", c);
    }
    {
        let c = b.lookup("color7")?;
        b.emit_color("historyPeer3NameFgSelected", c.lighter(40));
    }
    {
        let c = b.lookup("color3")?;
        b.emit_color("historyPeer3UserpicBg", c);
    }
    {
        let c = b.lookup("color4")?;
        b.emit_color("historyPeer4NameFg", c);
    }
    {
        let c = b.lookup("color7")?;
        b.emit_color("historyPeer4NameFgSelected", c.lighter(40));
    }
    {
        let c = b.lookup("color4")?;
        b.emit_color("historyPeer4UserpicBg", c);
    }
    {
        let c = b.lookup("color5")?;
        b.emit_color("historyPeer5NameFg", c);
    }
    {
        let c = b.lookup("color7")?;
        b.emit_color("historyPeer5NameFgSelected", c.lighter(40));
    }
    {
        let c = b.lookup("color5")?;
        b.emit_color("historyPeer5UserpicBg", c);
    }
    Ok(())
}

/// The entries this section appends to the registry.
#[verifier::opaque]
pub open spec fn section_msg_entries(es0: Seq<EntryView>, pal: Seq<Color>) -> Seq<EntryView> {
    let es1 = es0.push(EntryView::Definition("historyPeer6NameFg"@, lookup_spec(es0, "color6"@).unwrap()));
    let es2 = es1.push(EntryView::Definition("historyPeer6NameFgSelected"@, lighter_view(lookup_spec(es1, "color7"@).unwrap(), 40)));
    let es3 = es2.push(EntryView::Definition("historyPeer6UserpicBg"@, lookup_spec(es2, "color6"@).unwrap()));
    let es4 = es3.push(EntryView::Definition("historyPeer7NameFg"@, lookup_spec(es3, "color7"@).unwrap()));
    let es5 = es4.push(EntryView::Definition("historyPeer7NameFgSelected"@, lighter_view(lookup_spec(es4, "color7"@).unwrap(), 40)));
    let es6 = es5.push(EntryView::Definition("historyPeer7UserpicBg"@, lookup_spec(es5, "color7"@).unwrap()));
    let es7 = es6.push(EntryView::Definition("historyPeer8NameFg"@, lookup_spec(es6, "color8"@).unwrap()));
    let es8 = es7.push(EntryView::Definition("historyPeer8NameFgSelected"@, lighter_view(lookup_spec(es7, "color7"@).unwrap(), 40)));
    let es9 = es8.push(EntryView::Definition("historyPeer8UserpicBg"@, lookup_spec(es8, "color8"@).unwrap()));
    let es10 = es9.push(EntryView::Definition("historyPeerUserpicFg"@, lookup_spec(es9, "windowFgActive"@).unwrap()));
    let es11 = es10.push(EntryView::Definition("historyScrollBarBg"@, alpha_view(lookup_spec(es10, "color7"@).unwrap(), 45)));
    let es12 = es11.push(EntryView::Definition("historyScrollBarBgOver"@, alpha_view(lookup_spec(es11, "color7"@).unwrap(), 65)));
    let es13 = es12.push(EntryView::Definition("historyScrollBg"@, alpha_view(lookup_spec(es12, "color7"@).unwrap(), 25)));
    let es14 = es13.push(EntryView::Definition("historyScrollBgOver"@, alpha_view(lookup_spec(es13, "color7"@).unwrap(), 40)));
    let es15 = es14.push(EntryView::Comment("Msg"@));
    let es16 = es15.push(EntryView::Definition("msgInBg"@, darker_view(lookup_spec(es15, "color7"@).unwrap(), 70)));
    let es17 = es16.push(EntryView::Definition("msgInBgSelected"@, lookup_spec(es16, "color2"@).unwrap()));
    let es18 = es17.push(EntryView::Definition("msgOutBg"@, darker_view(lookup_spec(es17, "color8"@).unwrap(), 60)));
    let es19 = es18.push(EntryView::Definition("msgOutBgSelected"@, lookup_spec(es18, "color2"@).unwrap()));
    let es20 = es19.push(EntryView::Definition("msgSelectOverlay"@, alpha_view(lookup_spec(es19, "color2"@).unwrap(), 25)));
    let es21 = es20.push(EntryView::Definition("msgStickerOverlay"@, alpha_view(lookup_spec(es20, "color2"@).unwrap(), 45)));
    let es22 = es21.push(EntryView::Definition("msgInServiceFg"@, lookup_spec(es21, "windowActiveTextFg"@).unwrap()));
    let es23 = es22.push(EntryView::Definition("msgInServiceFgSelected"@, lighter_view(lookup_spec(es22, "color7"@).unwrap(), 40)));
    let es24 = es23.push(EntryView::Definition("msgOutServiceFg"@, lookup_spec(es23, "color10"@).unwrap()));
    let es25 = es24.push(EntryView::Definition("msgOutServiceFgSelected"@, lighter_view(lookup_spec(es24, "color7"@).unwrap(), 40)));
    let es26 = es25.push(EntryView::Definition("msgInShadow"@, alpha_view(lookup_spec(es25, "color0"@).unwrap(), 00)));
    let es27 = es26.push(EntryView::Definition("msgInShadowSelected"@, alpha_view(lookup_spec(es26, "color2"@).unwrap(), 00)));
    let es28 = es27.push(EntryView::Definition("msgOutShadow"@, alpha_view(lookup_spec(es27, "color0"@).unwrap(), 00)));
    let es29 = es28.push(EntryView::Definition("msgOutShadowSelected"@, alpha_view(lookup_spec(es28, "color2"@).unwrap(), 00)));
    es29
}

fn section_msg(b: &mut ThemeBuilder, palette: &BasePalette) -> (r: Result<(), ThemeError>)
    requires
        old(b).wf(),
        defined(old(b)@, "color6"@),
        defined(old(b)@, "color7"@),
        defined(old(b)@, "color8"@),
        defined(old(b)@, "windowFgActive"@),
        defined(old(b)@, "color2"@),
        defined(old(b)@, "windowActiveTextFg"@),
        defined(old(b)@, "color10"@),
        defined(old(b)@, "color0"@),
    ensures
        r is Ok,
        final(b).wf(),
        final(b)@ == section_msg_entries(old(b)@, palette.colors@),
        forall|n: Seq<char>| #[trigger] defined(old(b)@, n) ==> defined(final(b)@, n),
{
    broadcast use lemma_lookup_push;

    proof {
        reveal(section_msg_entries);
    }

    {
        let c = b.lookup("color6")?;
        b.emit_color("historyPeer6NameFg", c);
    }
    {
        let c = b.lookup("color7")?;
        b.emit_color("historyPeer6NameFgSelected", c.lighter(40));
    }
    {
        let c = b.lookup("color6")?;
        b.emit_color("historyPeer6UserpicBg", c);
    }
    {
        let c = b.lookup("color7")?;
        b.emit_color("historyPeer7NameFg", c);
    }
    {
        let c = b.lookup("color7")?;
        b.emit_color("historyPeer7NameFgSelected", c.lighter(40));
    }
    {
        let c = b.lookup("color7")?;
        b.emit_color("historyPeer7UserpicBg", c);
    }
    {
        let c = b.lookup("color8")?;
        b.emit_color("historyPeer8NameFg", c);
    }
    {
        let c = b.lookup("color7")?;
        b.emit_color("historyPeer8NameFgSelected", c.lighter(40));
    }
    {
        let c = b.lookup("color8")?;
        b.emit_color("historyPeer8UserpicBg", c);
    }
    {
        let c = b.lookup("windowFgActive")?;
        b.emit_color("historyPeerUserpicFg", c);
    }
    {
        let c = b.lookup("color7")?;
        b.emit_color("historyScrollBarBg", c.alpha(45));
    }
    {
        let c = b.lookup("color7")?;
        b.emit_color("historyScrollBarBgOver", c.alpha(65));
    }
    {
        let c = b.lookup("color7")?;
        b.emit_color("historyScrollBg", c.alpha(25));
    }
    {
        let c = b.lookup("color7")?;
        b.emit_color("historyScrollBgOver", c.alpha(40));
    }
    b.emit_comment("Msg");
    {
        let c = b.lookup("color7")?;
        b.emit_color("msgInBg", c.darker(70));
    }
    {
        let c = b.lookup("color2")?;
        b.emit_color("msgInBgSelected", c);
    }
    {
        let c = b.lookup("color8")?;
        b.emit_color("msgOutBg", c.darker(60));
    }
    {
        let c = b.lookup("color2")?;
        b.emit_color("msgOutBgSelected", c);
    }
    {
        let c = b.lookup("color2")?;
        b.emit_color("msgSelectOverlay", c.alpha(25));
    }
    {
        let c = b.lookup("color2")?;
        b.emit_color("msgStickerOverlay", c.alpha(45));
    }
    {
        let c = b.lookup("windowActiveTextFg")?;
        b.emit_color("msgInServiceFg", c);
    }
    {
        let c = b.lookup("color7")?;
        b.emit_color("msgInServiceFgSelected", c.lighter(40));
    }
    {
        let c = b.lookup("color10")?;
        b.emit_color("msgOutServiceFg", c);
    }
    {
        let c = b.lookup("color7")?;
        b.emit_color("msgOutServiceFgSelected", c.lighter(40));
    }
    {
        let c = b.lookup("color0")?;
        b.emit_color("msgInShadow", c.alpha(00));
    }
    {
        let c = b.lookup("color2")?;
        b.emit_color("msgInShadowSelected", c.alpha(00));
    }
    {
        let c = b.lookup("color0")?;
        b.emit_color("msgOutShadow", c.alpha(00));
    }
    {
        let c = b.lookup("color2")?;
        b.emit_color("msgOutShadowSelected", c.alpha(00));
    }
    Ok(())
}

/// The entries this section appends to the registry.
#[verifier::opaque]
pub open spec fn section_part_2_entries(es0: Seq<EntryView>, pal: Seq<Color>) -> Seq<EntryView> {
    let es1 = es0.push(EntryView::Definition("msgInDateFg"@, darker_view(lookup_spec(es0, "color7"@).unwrap(), 40)));
    let es2 = es1.push(EntryView::Definition("msgInDateFgSelected"@, lighter_view(lookup_spec(es1, "color7"@).unwrap(), 40)));
    let es3 = es2.push(EntryView::Definition("msgOutDateFg"@, darker_view(lookup_spec(es2, "color7"@).unwrap(), 40)));
    let es4 = es3.push(EntryView::Definition("msgOutDateFgSelected"@, lighter_view(lookup_spec(es3, "color7"@).unwrap(), 40)));
    let es5 = es4.push(EntryView::Definition("msgServiceFg"@, lookup_spec(es4, "windowFgActive"@).unwrap()));
    let es6 = es5.push(EntryView::Definition("msgServiceBg"@, lookup_spec(es5, "color0"@).unwrap()));
    let es7 = es6.push(EntryView::Definition("msgServiceBgSelected"@, lookup_spec(es6, "color10"@).unwrap()));
    let es8 = es7.push(EntryView::Definition("msgInReplyBarColor"@, lookup_spec(es7, "color10"@).unwrap()));
    let es9 = es8.push(EntryView::Definition("msgInReplyBarSelColor"@, lighter_view(lookup_spec(es8, "color7"@).unwrap(), 40)));
    let es10 = es9.push(EntryView::Definition("msgOutReplyBarColor"@, lookup_spec(es9, "color10"@).unwrap()));
    let es11 = es10.push(EntryView::Definition("msgOutReplyBarSelColor"@, lighter_view(lookup_spec(es10, "color7"@).unwrap(), 40)));
    let es12 = es11.push(EntryView::Definition("msgImgReplyBarColor"@, lookup_spec(es11, "msgServiceFg"@).unwrap()));
    let es13 = es12.push(EntryView::Definition("msgInMonoFg"@, lookup_spec(es12, "color7"@).unwrap()));
    let es14 = es13.push(EntryView::Definition("msgInMonoFgSelected"@, lighter_view(lookup_spec(es13, "color7"@).unwrap(), 40)));
    let es15 = es14.push(EntryView::Definition("msgOutMonoFg"@, lookup_spec(es14, "color7"@).unwrap()));
    let es16 = es15.push(EntryView::Definition("msgOutMonoFgSelected"@, lighter_view(lookup_spec(es15, "color7"@).unwrap(), 40)));
    let es17 = es16.push(EntryView::Definition("msgDateImgFg"@, lookup_spec(es16, "msgServiceFg"@).unwrap()));
    let es18 = es17.push(EntryView::Definition("msgDateImgBg"@, alpha_view(lookup_spec(es17, "color0"@).unwrap(), 30)));
    let es19 = es18.push(EntryView::Definition("msgDateImgBgOver"@, alpha_view(lookup_spec(es18, "color0"@).unwrap(), 45)));
    let es20 = es19.push(EntryView::Definition("msgDateImgBgSelected"@, alpha_view(lookup_spec(es19, "color2"@).unwrap(), 50)));
    let es21 = es20.push(EntryView::Definition("msgFileThumbLinkInFg"@, lookup_spec(es20, "lightButtonFg"@).unwrap()));
    let es22 = es21.push(EntryView::Definition("msgFileThumbLinkInFgSelected"@, lookup_spec(es21, "lightButtonFgOver"@).unwrap()));
    let es23 = es22.push(EntryView::Definition("msgFileThumbLinkOutFg"@, lookup_spec(es22, "color10"@).unwrap()));
    let es24 = es23.push(EntryView::Definition("msgFileThumbLinkOutFgSelected"@, lighter_view(lookup_spec(es23, "color7"@).unwrap(), 40)));
    let es25 = es24.push(EntryView::Definition("msgFileInBg"@, lookup_spec(es24, "color2"@).unwrap()));
    let es26 = es25.push(EntryView::Definition("msgFileInBgOver"@, lighter_view(lookup_spec(es25, "color2"@).unwrap(), 30)));
    let es27 = es26.push(EntryView::Definition("msgFileInBgSelected"@, lighter_view(lookup_spec(es26, "color2"@).unwrap(), 50)));
    let es28 = es27.push(EntryView::Definition("msgFileOutBg"@, lookup_spec(es27, "color2"@).unwrap()));
    es28
}

fn section_part_2(b: &mut ThemeBuilder, palette: &BasePalette) -> (r: Result<(), ThemeError>)
    requires
        old(b).wf(),
        defined(old(b)@, "color7"@),
        defined(old(b)@, "windowFgActive"@),
        defined(old(b)@, "color0"@),
        defined(old(b)@, "color10"@),
        defined(old(b)@, "color2"@),
        defined(old(b)@, "lightButtonFg"@),
        defined(old(b)@, "lightButtonFgOver"@),
    ensures
        r is Ok,
        final(b).wf(),
        final(b)@ == section_part_2_entries(old(b)@, palette.colors@),
        defined(final(b)@, "msgInDateFg"@),
        defined(final(b)@, "msgInDateFgSelected"@),
        defined(final(b)@, "msgOutDateFg"@),
        defined(final(b)@, "msgOutDateFgSelected"@),
        defined(final(b)@, "msgServiceFg"@),
        forall|n: Seq<char>| #[trigger] defined(old(b)@, n) ==> defined(final(b)@, n),
{
    broadcast use lemma_lookup_push;

    proof {
        reveal(section_part_2_entries);
    }

    {
        let c = b.lookup("color7")?;
        b.emit_color("msgInDateFg", c.darker(40));
    }
    {
        let c = b.lookup("color7")?;
        b.emit_color("msgInDateFgSelected", c.lighter(40));
    }
    {
        let c = b.lookup("color7")?;
        b.emit_color("msgOutDateFg", c.darker(40));
    }
    {
        let c = b.lookup("color7")?;
        b.emit_color("msgOutDateFgSelected", c.lighter(40));
    }
    {
        let c = b.lookup("windowFgActive")?;
        b.emit_color("msgServiceFg", c);
    }
    {
        let c = b.lookup("color0")?;
        b.emit_color("msgServiceBg", c);
    }
    {
        let c = b.lookup("color10")?;
        b.emit_color("msgServiceBgSelected", c);
    }
    {
        let c = b.lookup("color10")?;
        b.emit_color("msgInReplyBarColor", c);
    }
    {
        let c = b.lookup("color7")?;
        b.emit_color("msgInReplyBarSelColor", c.lighter(40));
    }
    {
        let c = b.lookup("color10")?;
        b.emit_color("msgOutReplyBarColor", c);
    }
    {
        let c = b.lookup("color7")?;
        b.emit_color("msgOutReplyBarSelColor", c.lighter(40));
    }
    {
        let c = b.lookup("msgServiceFg")?;
        b.emit_color("msgImgReplyBarColor", c);
    }
    {
        let c = b.lookup("color7")?;
        b.emit_color("msgInMonoFg", c);
    }
    {
        let c = b.lookup("color7")?;
        b.emit_color("msgInMonoFgSelected", c.lighter(40));
    }
    {
        let c = b.lookup("color7")?;
        b.emit_color("msgOutMonoFg", c);
    }
    {
        let c = b.lookup("color7")?;
        b.emit_color("msgOutMonoFgSelected", c.lighter(40));
    }
    {
        let c = b.lookup("msgServiceFg")?;
        b.emit_color("msgDateImgFg", c);
    }
    {
        let c = b.lookup("color0")?;
        b.emit_color("msgDateImgBg", c.alpha(30));
    }
    {
        let c = b.lookup("color0")?;
        b.emit_color("msgDateImgBgOver", c.alpha(45));
    }
    {
        let c = b.lookup("color2")?;
        b.emit_color("msgDateImgBgSelected", c.alpha(50));
    }
    {
        let c = b.lookup("lightButtonFg")?;
        b.emit_color("msgFileThumbLinkInFg", c);
    }
    {
        let c = b.lookup("lightButtonFgOver")?;
        b.emit_color("msgFileThumbLinkInFgSelected", c);
    }
    {
        let c = b.lookup("color10")?;
        b.emit_color("msgFileThumbLinkOutFg", c);
    }
    {
        let c = b.lookup("color7")?;
        b.emit_color("msgFileThumbLinkOutFgSelected", c.lighter(40));
    }
    {
        let c = b.lookup("color2")?;
        b.emit_color("msgFileInBg", c);
    }
    {
        let c = b.lookup("color2")?;
        b.emit_color("msgFileInBgOver", c.lighter(30));
    }
    {
        let c = b.lookup("color2")?;
        b.emit_color("msgFileInBgSelected", c.lighter(50));
    }
    {
        let c = b.lookup("color2")?;
        b.emit_color("msgFileOutBg", c);
    }
    Ok(())
}

/// The entries this section appends to the registry.
#[verifier::opaque]
pub open spec fn section_part_3_entries(es0: Seq<EntryView>, pal: Seq<Color>) -> Seq<EntryView> {
    let es1 = es0.push(EntryView::Definition("msgFileOutBgOver"@, lighter_view(lookup_spec(es0, "color2"@).unwrap(), 30)));
    let es2 = es1.push(EntryView::Definition("msgFileOutBgSelected"@, lighter_view(lookup_spec(es1, "color2"@).unwrap(), 50)));
    let es3 = es2.push(EntryView::Definition("msgFile1Bg"@, lookup_spec(es2, "color1"@).unwrap()));
    let es4 = es3.push(EntryView::Definition("msgFile1BgDark"@, darker_view(lookup_spec(es3, "color1"@).unwrap(), 30)));
    let es5 = es4.push(EntryView::Definition("msgFile1BgOver"@, lighter_view(lookup_spec(es4, "color1"@).unwrap(), 40)));
    let es6 = es5.push(EntryView::Definition("msgFile1BgSelected"@, lighter_view(lookup_spec(es5, "color7"@).unwrap(), 40)));
    let es7 = es6.push(EntryView::Definition("msgFile2Bg"@, lookup_spec(es6, "color2"@).unwrap()));
    let es8 = es7.push(EntryView::Definition("msgFile2BgDark"@, darker_view(lookup_spec(es7, "color2"@).unwrap(), 30)));
    let es9 = es8.push(EntryView::Definition("msgFile2BgOver"@, lighter_view(lookup_spec(es8, "color2"@).unwrap(), 40)));
    let es10 = es9.push(EntryView::Definition("msgFile2BgSelected"@, lighter_view(lookup_spec(es9, "color7"@).unwrap(), 40)));
    let es11 = es10.push(EntryView::Definition("msgFile3Bg"@, lookup_spec(es10, "color3"@).unwrap()));
    let es12 = es11.push(EntryView::Definition("msgFile3BgDark"@, darker_view(lookup_spec(es11, "color7"@).unwrap(), 30)));
    let es13 = es12.push(EntryView::Definition("msgFile3BgOver"@, lighter_view(lookup_spec(es12, "color7"@).unwrap(), 40)));
    let es14 = es13.push(EntryView::Definition("msgFile3BgSelected"@, lighter_view(lookup_spec(es13, "color7"@).unwrap(), 40)));
    let es15 = es14.push(EntryView::Definition("msgFile4Bg"@, lookup_spec(es14, "color3"@).unwrap()));
    let es16 = es15.push(EntryView::Definition("msgFile4BgDark"@, darker_view(lookup_spec(es15, "color3"@).unwrap(), 30)));
    let es17 = es16.push(EntryView::Definition("msgFile4BgOver"@, lighter_view(lookup_spec(es16, "color3"@).unwrap(), 40)));
    let es18 = es17.push(EntryView::Definition("msgFile4BgSelected"@, lighter_view(lookup_spec(es17, "color7"@).unwrap(), 40)));
    let es19 = es18.push(EntryView::Definition("msgWaveformInActive"@, lookup_spec(es18, "windowBgActive"@).unwrap()));
    let es20 = es19.push(EntryView::Definition("msgWaveformInActiveSelected"@, lighter_view(lookup_spec(es19, "color7"@).unwrap(), 40)));
    let es21 = es20.push(EntryView::Definition("msgWaveformInInactive"@, darker_view(lookup_spec(es20, "color7"@).unwrap(), 30)));
    let es22 = es21.push(EntryView::Definition("msgWaveformInInactiveSelected"@, lighter_view(lookup_spec(es21, "color2"@).unwrap(), 40)));
    let es23 = es22.push(EntryView::Definition("msgWaveformOutActive"@, lookup_spec(es22, "color2"@).unwrap()));
    let es24 = es23.push(EntryView::Definition("msgWaveformOutActiveSelected"@, lighter_view(lookup_spec(es23, "color7"@).unwrap(), 40)));
    let es25 = es24.push(EntryView::Definition("msgWaveformOutInactive"@, darker_view(lookup_spec(es24, "color7"@).unwrap(), 30)));
    let es26 = es25.push(EntryView::Definition("msgWaveformOutInactiveSelected"@, lighter_view(lookup_spec(es25, "color2"@).unwrap(), 40)));
    let es27 = es26.push(EntryView::Definition("msgBotKbOverBgAdd"@, alpha_view(lookup_spec(es26, "color7"@).unwrap(), 05)));
    let es28 = es27.push(EntryView::Definition("msgBotKbIconFg"@, lookup_spec(es27, "msgServiceFg"@).unwrap()));
    es28
}

fn section_part_3(b: &mut ThemeBuilder, palette: &BasePalette) -> (r: Result<(), ThemeError>)
    requires
        old(b).wf(),
        defined(old(b)@, "color2"@),
        defined(old(b)@, "color1"@),
        defined(old(b)@, "color7"@),
        defined(old(b)@, "color3"@),
        defined(old(b)@, "windowBgActive"@),
        defined(old(b)@, "msgServiceFg"@),
    ensures
        r is Ok,
        final(b).wf(),
        final(b)@ == section_part_3_entries(old(b)@, palette.colors@),
        forall|n: Seq<char>| #[trigger] defined(old(b)@, n) ==> defined(final(b)@, n),
{
    broadcast use lemma_lookup_push;

    proof {
        reveal(section_part_3_entries);
    }

    {
        let c = b.lookup("color2")?;
        b.emit_color("msgFileOutBgOver", c.lighter(30));
    }
    {
        let c = b.lookup("color2")?;
        b.emit_color("msgFileOutBgSelected", c.lighter(50));
    }
    {
        let c = b.lookup("color1")?;
        b.emit_color("msgFile1Bg", c);
    }
    {
        let c = b.lookup("color1")?;
        b.emit_color("msgFile1BgDark", c.darker(30));
    }
    {
        let c = b.lookup("color1")?;
        b.emit_color("msgFile1BgOver", c.lighter(40));
    }
    {
        let c = b.lookup("color7")?;
        b.emit_color("msgFile1BgSelected", c.lighter(40));
    }
    {
        let c = b.lookup("color2")?;
        b.emit_color("msgFile2Bg", c);
    }
    {
        let c = b.lookup("color2")?;
        b.emit_color("msgFile2BgDark", c.darker(30));
    }
    {
        let c = b.lookup("color2")?;
        b.emit_color("msgFile2BgOver", c.lighter(40));
    }
    {
        let c = b.lookup("color7")?;
        b.emit_color("msgFile2BgSelected", c.lighter(40));
    }
    {
        let c = b.lookup("color3")?;
        b.emit_color("msgFile3Bg", c);
    }
    {
        let c = b.lookup("color7")?;
        b.emit_color("msgFile3BgDark", c.darker(30));
    }
    {
        let c = b.lookup("color7")?;
        b.emit_color("msgFile3BgOver", c.lighter(40));
    }
    {
        let c = b.lookup("color7")?;
        b.emit_color("msgFile3BgSelected", c.lighter(40));
    }
    {
        let c = b.lookup("color3")?;
        b.emit_color("msgFile4Bg", c);
    }
    {
        let c = b.lookup("color3")?;
        b.emit_color("msgFile4BgDark", c.darker(30));
    }
    {
        let c = b.lookup("color3")?;
        b.emit_color("msgFile4BgOver", c.lighter(40));
    }
    {
        let c = b.lookup("color7")?;
        b.emit_color("msgFile4BgSelected", c.lighter(40));
    }
    {
        let c = b.lookup("windowBgActive")?;
        b.emit_color("msgWaveformInActive", c);
    }
    {
        let c = b.lookup("color7")?;
        b.emit_color("msgWaveformInActiveSelected", c.lighter(40));
    }
    {
        let c = b.lookup("color7")?;
        b.emit_color("msgWaveformInInactive", c.darker(30));
    }
    {
        let c = b.lookup("color2")?;
        b.emit_color("msgWaveformInInactiveSelected", c.lighter(40));
    }
    {
        let c = b.lookup("color2")?;
        b.emit_color("msgWaveformOutActive", c);
    }
    {
        let c = b.lookup("color7")?;
        b.emit_color("msgWaveformOutActiveSelected", c.lighter(40));
    }
    {
        let c = b.lookup("color7")?;
        b.emit_color("msgWaveformOutInactive", c.darker(30));
    }
    {
        let c = b.lookup("color2")?;
        b.emit_color("msgWaveformOutInactiveSelected", c.lighter(40));
    }
    {
        let c = b.lookup("color7")?;
        b.emit_color("msgBotKbOverBgAdd", c.alpha(05));
    }
    {
        let c = b.lookup("msgServiceFg")?;
        b.emit_color("msgBotKbIconFg", c);
    }
    Ok(())
}

/// The entries this section appends to the registry.
#[verifier::opaque]
pub open spec fn section_download_animations_entries(es0: Seq<EntryView>, pal: Seq<Color>) -> Seq<EntryView> {
    let es1 = es0.push(EntryView::Definition("msgBotKbRippleBg"@, alpha_view(lookup_spec(es0, "color1"@).unwrap(), 05)));
    let es2 = es1.push(EntryView::Comment("Download animations"@));
    let es3 = es2.push(EntryView::Definition("historyFileInIconFg"@, lookup_spec(es2, "color0"@).unwrap()));
    let es4 = es3.push(EntryView::Definition("historyFileInIconFgSelected"@, lookup_spec(es3, "color10"@).unwrap()));
    let es5 = es4.push(EntryView::Definition("historyFileInRadialFg"@, lookup_spec(es4, "color0"@).unwrap()));
    let es6 = es5.push(EntryView::Definition("historyFileInRadialFgSelected"@, lookup_spec(es5, "historyFileInIconFgSelected"@).unwrap()));
    let es7 = es6.push(EntryView::Definition("historyFileOutIconFg"@, lookup_spec(es6, "color0"@).unwrap()));
    let es8 = es7.push(EntryView::Definition("historyFileOutIconFgSelected"@, lookup_spec(es7, "color10"@).unwrap()));
    let es9 = es8.push(EntryView::Definition("historyFileOutRadialFg"@, lookup_spec(es8, "historyFileOutIconFg"@).unwrap()));
    let es10 = es9.push(EntryView::Definition("historyFileOutRadialFgSelected"@, lookup_spec(es9, "color10"@).unwrap()));
    let es11 = es10.push(EntryView::Definition("historyFileThumbIconFg"@, lighter_view(lookup_spec(es10, "color7"@).unwrap(), 40)));
    let es12 = es11.push(EntryView::Definition("historyFileThumbIconFgSelected"@, lighter_view(lookup_spec(es11, "color7"@).unwrap(), 40)));
    let es13 = es12.push(EntryView::Definition("historyFileThumbRadialFg"@, lookup_spec(es12, "historyFileThumbIconFg"@).unwrap()));
    let es14 = es13.push(EntryView::Definition("historyFileThumbRadialFgSelected"@, lighter_view(lookup_spec(es13, "color7"@).unwrap(), 40)));
    let es15 = es14.push(EntryView::Definition("historyVideoMessageProgressFg"@, lookup_spec(es14, "historyFileThumbIconFg"@).unwrap()));
    let es16 = es15.push(EntryView::Comment("YouTube"@));
    let es17 = es16.push(EntryView::Definition("youtubePlayIconBg"@, alpha_view(hex_color_view("83131c"@), 50)));
    let es18 = es17.push(EntryView::Definition("youtubePlayIconFg"@, lookup_spec(es17, "windowFgActive"@).unwrap()));
    let es19 = es18.push(EntryView::Comment("Video"@));
    let es20 = es19.push(EntryView::Definition("videoPlayIconBg"@, alpha_view(lookup_spec(es19, "color0"@).unwrap(), 45)));
    let es21 = es20.push(EntryView::Definition("videoPlayIconFg"@, lighter_view(lookup_spec(es20, "color7"@).unwrap(), 40)));
    let es22 = es21.push(EntryView::Comment("Toast"@));
    let es23 = es22.push(EntryView::Definition("toastBg"@, alpha_view(lookup_spec(es22, "color0"@).unwrap(), 65)));
    let es24 = es23.push(EntryView::Definition("toastFg"@, lookup_spec(es23, "windowFgActive"@).unwrap()));
    es24
}

fn section_download_animations(b: &mut ThemeBuilder, palette: &BasePalette) -> (r: Result<(), ThemeError>)
    requires
        old(b).wf(),
        defined(old(b)@, "color1"@),
        defined(old(b)@, "color0"@),
        defined(old(b)@, "color10"@),
        defined(old(b)@, "color7"@),
        defined(old(b)@, "windowFgActive"@),
    ensures
        r is Ok,
        final(b).wf(),
        final(b)@ == section_download_animations_entries(old(b)@, palette.colors@),
        defined(final(b)@, "toastBg"@),
        defined(final(b)@, "toastFg"@),
        forall|n: Seq<char>| #[trigger] defined(old(b)@, n) ==> defined(final(b)@, n),
{
    broadcast use lemma_lookup_push;

    proof {
        reveal(section_download_animations_entries);
    }

    proof {
        reveal_strlit("83131c");
        assert(crate::hex::all_hex(crate::hex::strip_hash("83131c"@))) by {
            assert(crate::hex::strip_hash("83131c"@) =~= "83131c"@);
            assert(crate::hex::is_hex_digit("83131c"@[0]));
            assert(crate::hex::is_hex_digit("83131c"@[1]));
            assert(crate::hex::is_hex_digit("83131c"@[2]));
            assert(crate::hex::is_hex_digit("83131c"@[3]));
            assert(crate::hex::is_hex_digit("83131c"@[4]));
            assert(crate::hex::is_hex_digit("83131c"@[5]));
        }
        assert(crate::hex::parse_hex_rgba("83131c"@) is Some);
    }
    {
        let c = b.lookup("color1")?;
        b.emit_color("msgBotKbRippleBg", c.alpha(05));
    }
    b.emit_comment("Download animations");
    {
        let c = b.lookup("color0")?;
        b.emit_color("historyFileInIconFg", c);
    }
    {
        let c = b.lookup("color10")?;
        b.emit_color("historyFileInIconFgSelected", c);
    }
    {
        let c = b.lookup("color0")?;
        b.emit_color("historyFileInRadialFg", c);
    }
    {
        let c = b.lookup("historyFileInIconFgSelected")?;
        b.emit_color("historyFileInRadialFgSelected", c);
    }
    {
        let c = b.lookup("color0")?;
        b.emit_color("historyFileOutIconFg", c);
    }
    {
        let c = b.lookup("color10")?;
        b.emit_color("historyFileOutIconFgSelected", c);
    }
    {
        let c = b.lookup("historyFileOutIconFg")?;
        b.emit_color("historyFileOutRadialFg", c);
    }
    {
        let c = b.lookup("color10")?;
        b.emit_color("historyFileOutRadialFgSelected", c);
    }
    {
        let c = b.lookup("color7")?;
        b.emit_color("historyFileThumbIconFg", c.lighter(40));
    }
    {
        let c = b.lookup("color7")?;
        b.emit_color("historyFileThumbIconFgSelected", c.lighter(40));
    }
    {
        let c = b.lookup("historyFileThumbIconFg")?;
        b.emit_color("historyFileThumbRadialFg", c);
    }
    {
        let c = b.lookup("color7")?;
        b.emit_color("historyFileThumbRadialFgSelected", c.lighter(40));
    }
    {
        let c = b.lookup("historyFileThumbIconFg")?;
        b.emit_color("historyVideoMessageProgressFg", c);
    }
    b.emit_comment("YouTube");
    b.emit_color("youtubePlayIconBg", hex_color("83131c")?.alpha(50));
    {
        let c = b.lookup("windowFgActive")?;
        b.emit_color("youtubePlayIconFg", c);
    }
    b.emit_comment("Video");
    {
        let c = b.lookup("color0")?;
        b.emit_color("videoPlayIconBg", c.alpha(45));
    }
    {
        let c = b.lookup("color7")?;
        b.emit_color("videoPlayIconFg", c.lighter(40));
    }
    b.emit_comment("Toast");
    {
        let c = b.lookup("color0")?;
        b.emit_color("toastBg", c.alpha(65));
    }
    {
        let c = b.lookup("windowFgActive")?;
        b.emit_color("toastFg", c);
    }
    Ok(())
}

/// The entries this section appends to the registry.
#[verifier::opaque]
pub open spec fn section_report_entries(es0: Seq<EntryView>, pal: Seq<Color>) -> Seq<EntryView> {
    let es1 = es0.push(EntryView::Comment("Report"@));
    let es2 = es1.push(EntryView::Definition("reportSpamBg"@, lookup_spec(es1, "color0"@).unwrap()));
    let es3 = es2.push(EntryView::Definition("reportSpamFg"@, lookup_spec(es2, "windowFg"@).unwrap()));
    let es4 = es3.push(EntryView::Comment("Composition area"@));
    let es5 = es4.push(EntryView::Definition("historyToDownBg"@, lookup_spec(es4, "color0"@).unwrap()));
    let es6 = es5.push(EntryView::Definition("historyToDownBgOver"@, lighter_view(lookup_spec(es5, "color0"@).unwrap(), 40)));
    let es7 = es6.push(EntryView::Definition("historyToDownBgRipple"@, lighter_view(lookup_spec(es6, "color0"@).unwrap(), 60)));
    let es8 = es7.push(EntryView::Definition("historyToDownFg"@, lookup_spec(es7, "color7"@).unwrap()));
    let es9 = es8.push(EntryView::Definition("historyToDownFgOver"@, lookup_spec(es8, "menuIconFgOver"@).unwrap()));
    let es10 = es9.push(EntryView::Definition("historyToDownShadow"@, alpha_view(lookup_spec(es9, "color0"@).unwrap(), 25)));
    let es11 = es10.push(EntryView::Definition("historyComposeAreaBg"@, lookup_spec(es10, "color0"@).unwrap()));
    let es12 = es11.push(EntryView::Definition("historyComposeAreaFg"@, lookup_spec(es11, "historyTextInFg"@).unwrap()));
    let es13 = es12.push(EntryView::Definition("historyComposeAreaFgService"@, lookup_spec(es12, "msgInDateFg"@).unwrap()));
    let es14 = es13.push(EntryView::Definition("historyComposeIconFg"@, lookup_spec(es13, "menuIconFg"@).unwrap()));
    let es15 = es14.push(EntryView::Definition("historyComposeIconFgOver"@, lookup_spec(es14, "menuIconFgOver"@).unwrap()));
    let es16 = es15.push(EntryView::Definition("historySendIconFg"@, lookup_spec(es15, "windowBgActive"@).unwrap()));
    let es17 = es16.push(EntryView::Definition("historySendIconFgOver"@, lookup_spec(es16, "windowBgActive"@).unwrap()));
    let es18 = es17.push(EntryView::Definition("historyPinnedBg"@, lookup_spec(es17, "historyComposeAreaBg"@).unwrap()));
    let es19 = es18.push(EntryView::Definition("historyReplyBg"@, lookup_spec(es18, "historyComposeAreaBg"@).unwrap()));
    let es20 = es19.push(EntryView::Definition("historyReplyIconFg"@, lookup_spec(es19, "windowBgActive"@).unwrap()));
    let es21 = es20.push(EntryView::Definition("historyReplyCancelFg"@, lookup_spec(es20, "cancelIconFg"@).unwrap()));
    let es22 = es21.push(EntryView::Definition("historyReplyCancelFgOver"@, lookup_spec(es21, "cancelIconFgOver"@).unwrap()));
    let es23 = es22.push(EntryView::Definition("historyComposeButtonBg"@, lookup_spec(es22, "historyComposeAreaBg"@).unwrap()));
    let es24 = es23.push(EntryView::Definition("historyComposeButtonBgOver"@, lighter_view(lookup_spec(es23, "color0"@).unwrap(), 40)));
    let es25 = es24.push(EntryView::Definition("historyComposeButtonBgRipple"@, lighter_view(lookup_spec(es24, "color0"@).unwrap(), 60)));
    es25
}

fn section_report(b: &mut ThemeBuilder, palette: &BasePalette) -> (r: Result<(), ThemeError>)
    requires
        old(b).wf(),
        defined(old(b)@, "color0"@),
        defined(old(b)@, "windowFg"@),
        defined(old(b)@, "color7"@),
        defined(old(b)@, "menuIconFgOver"@),
        defined(old(b)@, "historyTextInFg"@),
        defined(old(b)@, "msgInDateFg"@),
        defined(old(b)@, "menuIconFg"@),
        defined(old(b)@, "windowBgActive"@),
        defined(old(b)@, "cancelIconFg"@),
        defined(old(b)@, "cancelIconFgOver"@),
    ensures
        r is Ok,
        final(b).wf(),
        final(b)@ == section_report_entries(old(b)@, palette.colors@),
        forall|n: Seq<char>| #[trigger] defined(old(b)@, n) ==> defined(final(b)@, n),
{
    broadcast use lemma_lookup_push;

    proof {
        reveal(section_report_entries);
    }

    b.emit_comment("Report");
    {
        let c = b.lookup("color0")?;
        b.emit_color("reportSpamBg", c);
    }
    {
        let c = b.lookup("windowFg")?;
        b.emit_color("reportSpamFg", c);
    }
    b.emit_comment("Composition area");
    {
        let c = b.lookup("color0")?;
        b.emit_color("historyToDownBg", c);
    }
    {
        let c = b.lookup("color0")?;
        b.emit_color("historyToDownBgOver", c.lighter(40));
    }
    {
        let c = b.lookup("color0")?;
        b.emit_color("historyToDownBgRipple", c.lighter(60));
    }
    {
        let c = b.lookup("color7")?;
        b.emit_color("historyToDownFg", c);
    }
    {
        let c = b.lookup("menuIconFgOver")?;
        b.emit_color("historyToDownFgOver", c);
    }
    {
        let c = b.lookup("color0")?;
        b.emit_color("historyToDownShadow", c.alpha(25));
    }
    {
        let c = b.lookup("color0")?;
        b.emit_color("historyComposeAreaBg", c);
    }
    {
        let c = b.lookup("historyTextInFg")?;
        b.emit_color("historyComposeAreaFg", c);
    }
    {
        let c = b.lookup("msgInDateFg")?;
        b.emit_color("historyComposeAreaFgService", c);
    }
    {
        let c = b.lookup("menuIconFg")?;
        b.emit_color("historyComposeIconFg", c);
    }
    {
        let c = b.lookup("menuIconFgOver")?;
        b.emit_color("historyComposeIconFgOver", c);
    }
    {
        let c = b.lookup("windowBgActive")?;
        b.emit_color("historySendIconFg", c);
    }
    {
        let c = b.lookup("windowBgActive")?;
        b.emit_color("historySendIconFgOver", c);
    }
    {
        let c = b.lookup("historyComposeAreaBg")?;
        b.emit_color("historyPinnedBg", c);
    }
    {
        let c = b.lookup("historyComposeAreaBg")?;
        b.emit_color("historyReplyBg", c);
    }
    {
        let c = b.lookup("windowBgActive")?;
        b.emit_color("historyReplyIconFg", c);
    }
    {
        let c = b.lookup("cancelIconFg")?;
        b.emit_color("historyReplyCancelFg", c);
    }
    {
        let c = b.lookup("cancelIconFgOver")?;
        b.emit_color("historyReplyCancelFgOver", c);
    }
    {
        let c = b.lookup("historyComposeAreaBg")?;
        b.emit_color("historyComposeButtonBg", c);
    }
    {
        let c = b.lookup("color0")?;
        b.emit_color("historyComposeButtonBgOver", c.lighter(40));
    }
    {
        let c = b.lookup("color0")?;
        b.emit_color("historyComposeButtonBgRipple", c.lighter(60));
    }
    Ok(())
}

/// The entries this section appends to the registry.
#[verifier::opaque]
pub open spec fn section_overview_entries(es0: Seq<EntryView>, pal: Seq<Color>) -> Seq<EntryView> {
    let es1 = es0.push(EntryView::Comment("Overview"@));
    let es2 = es1.push(EntryView::Definition("overviewCheckBg"@, alpha_view(lookup_spec(es1, "color0"@).unwrap(), 25)));
    let es3 = es2.push(EntryView::Definition("overviewCheckFg"@, lighter_view(lookup_spec(es2, "color7"@).unwrap(), 40)));
    let es4 = es3.push(EntryView::Definition("overviewCheckFgActive"@, lighter_view(lookup_spec(es3, "color7"@).unwrap(), 40)));
    let es5 = es4.push(EntryView::Definition("overviewPhotoSelectOverlay"@, alpha_view(lookup_spec(es4, "color1"@).unwrap(), 10)));
    let es6 = es5.push(EntryView::Comment("Profile"@));
    let es7 = es6.push(EntryView::Definition("profileStatusFgOver"@, lookup_spec(es6, "color1"@).unwrap()));
    let es8 = es7.push(EntryView::Definition("profileVerifiedCheckBg"@, lookup_spec(es7, "windowBgActive"@).unwrap()));
    let es9 = es8.push(EntryView::Definition("profileVerifiedCheckFg"@, lookup_spec(es8, "windowFgActive"@).unwrap()));
    let es10 = es9.push(EntryView::Definition("profileAdminStartFg"@, lookup_spec(es9, "windowBgActive"@).unwrap()));
    let es11 = es10.push(EntryView::Comment("Notifications"@));
    let es12 = es11.push(EntryView::Definition("notificationsBoxMonitorFg"@, lookup_spec(es11, "windowFg"@).unwrap()));
    let es13 = es12.push(EntryView::Definition("notificationsBoxScreenBg"@, lookup_spec(es12, "dialogsBgActive"@).unwrap()));
    let es14 = es13.push(EntryView::Definition("notificationSampleUserpicFg"@, lookup_spec(es13, "windowBgActive"@).unwrap()));
    let es15 = es14.push(EntryView::Definition("notificationSampleCloseFg"@, lookup_spec(es14, "color7"@).unwrap()));
    let es16 = es15.push(EntryView::Definition("notificationSampleTextFg"@, lookup_spec(es15, "color7"@).unwrap()));
    let es17 = es16.push(EntryView::Definition("notificationSampleNameFg"@, lighter_view(lookup_spec(es16, "color0"@).unwrap(), 40)));
    let es18 = es17.push(EntryView::Comment("Change"@));
    let es19 = es18.push(EntryView::Definition("changePhoneSimcardFrom"@, lookup_spec(es18, "notificationSampleTextFg"@).unwrap()));
    let es20 = es19.push(EntryView::Definition("changePhoneSimcardTo"@, lookup_spec(es19, "notificationSampleNameFg"@).unwrap()));
    let es21 = es20.push(EntryView::Comment("Main"@));
    let es22 = es21.push(EntryView::Definition("mainMenuBg"@, lookup_spec(es21, "windowBg"@).unwrap()));
    let es23 = es22.push(EntryView::Definition("mainMenuCoverBg"@, lookup_spec(es22, "color2"@).unwrap()));
    let es24 = es23.push(EntryView::Definition("mainMenuCoverFg"@, lookup_spec(es23, "windowFgActive"@).unwrap()));
    let es25 = es24.push(EntryView::Definition("mainMenuCloudFg"@, lighter_view(lookup_spec(es24, "color7"@).unwrap(), 40)));
    let es26 = es25.push(EntryView::Definition("mainMenuCloudBg"@, lookup_spec(es25, "color4"@).unwrap()));
    es26
}

fn section_overview(b: &mut ThemeBuilder, palette: &BasePalette) -> (r: Result<(), ThemeError>)
    requires
        old(b).wf(),
        defined(old(b)@, "color0"@),
        defined(old(b)@, "color7"@),
        defined(old(b)@, "color1"@),
        defined(old(b)@, "windowBgActive"@),
        defined(old(b)@, "windowFgActive"@),
        defined(old(b)@, "windowFg"@),
        defined(old(b)@, "dialogsBgActive"@),
        defined(old(b)@, "windowBg"@),
        defined(old(b)@, "color2"@),
        defined(old(b)@, "color4"@),
    ensures
        r is Ok,
        final(b).wf(),
        final(b)@ == section_overview_entries(old(b)@, palette.colors@),
        forall|n: Seq<char>| #[trigger] defined(old(b)@, n) ==> defined(final(b)@, n),
{
    broadcast use lemma_lookup_push;

    proof {
        reveal(section_overview_entries);
    }

    b.emit_comment("Overview");
    {
        let c = b.lookup("color0")?;
        b.emit_color("overviewCheckBg", c.alpha(25));
    }
    {
        let c = b.lookup("color7")?;
        b.emit_color("overviewCheckFg", c.lighter(40));
    }
    {
        let c = b.lookup("color7")?;
        b.emit_color("overviewCheckFgActive", c.lighter(40));
    }
    {
        let c = b.lookup("color1")?;
        b.emit_color("overviewPhotoSelectOverlay", c.alpha(10));
    }
    b.emit_comment("Profile");
    {
        let c = b.lookup("color1")?;
        b.emit_color("profileStatusFgOver", c);
    }
    {
        let c = b.lookup("windowBgActive")?;
        b.emit_color("profileVerifiedCheckBg", c);
    }
    {
        let c = b.lookup("windowFgActive")?;
        b.emit_color("profileVerifiedCheckFg", c);
    }
    {
        let c = b.lookup("windowBgActive")?;
        b.emit_color("profileAdminStartFg", c);
    }
    b.emit_comment("Notifications");
    {
        let c = b.lookup("windowFg")?;
        b.emit_color("notificationsBoxMonitorFg", c);
    }
    {
        let c = b.lookup("dialogsBgActive")?;
        b.emit_color("notificationsBoxScreenBg", c);
    }
    {
        let c = b.lookup("windowBgActive")?;
        b.emit_color("notificationSampleUserpicFg", c);
    }
    {
        let c = b.lookup("color7")?;
        b.emit_color("notificationSampleCloseFg", c);
    }
    {
        let c = b.lookup("color7")?;
        b.emit_color("notificationSampleTextFg", c);
    }
    {
        let c = b.lookup("color0")?;
        b.emit_color("notificationSampleNameFg", c.lighter(40));
    }
    b.emit_comment("Change");
    {
        let c = b.lookup("notificationSampleTextFg")?;
        b.emit_color("changePhoneSimcardFrom", c);
    }
    {
        let c = b.lookup("notificationSampleNameFg")?;
        b.emit_color("changePhoneSimcardTo", c);
    }
    b.emit_comment("Main");
    {
        let c = b.lookup("windowBg")?;
        b.emit_color("mainMenuBg", c);
    }
    {
        let c = b.lookup("color2")?;
        b.emit_color("mainMenuCoverBg", c);
    }
    {
        let c = b.lookup("windowFgActive")?;
        b.emit_color("mainMenuCoverFg", c);
    }
    {
        let c = b.lookup("color7")?;
        b.emit_color("mainMenuCloudFg", c.lighter(40));
    }
    {
        let c = b.lookup("color4")?;
        b.emit_color("mainMenuCloudBg", c);
    }
    Ok(())
}

/// The entries this section appends to the registry.
#[verifier::opaque]
pub open spec fn section_media_entries(es0: Seq<EntryView>, pal: Seq<Color>) -> Seq<EntryView> {
    let es1 = es0.push(EntryView::Comment("Media"@));
    let es2 = es1.push(EntryView::Definition("mediaInFg"@, lookup_spec(es1, "msgInDateFg"@).unwrap()));
    let es3 = es2.push(EntryView::Definition("mediaInFgSelected"@, lookup_spec(es2, "msgInDateFgSelected"@).unwrap()));
    let es4 = es3.push(EntryView::Definition("mediaOutFg"@, lookup_spec(es3, "msgOutDateFg"@).unwrap()));
    let es5 = es4.push(EntryView::Definition("mediaOutFgSelected"@, lookup_spec(es4, "msgOutDateFgSelected"@).unwrap()));
    let es6 = es5.push(EntryView::Definition("mediaPlayerBg"@, lookup_spec(es5, "windowBg"@).unwrap()));
    let es7 = es6.push(EntryView::Definition("mediaPlayerActiveFg"@, lookup_spec(es6, "windowBgActive"@).unwrap()));
    let es8 = es7.push(EntryView::Definition("mediaPlayerInactiveFg"@, lookup_spec(es7, "sliderBgInactive"@).unwrap()));
    let es9 = es8.push(EntryView::Definition("mediaPlayerDisabledFg"@, lookup_spec(es8, "color1"@).unwrap()));
    let es10 = es9.push(EntryView::Comment("Mediaview"@));
    let es11 = es10.push(EntryView::Definition("mediaviewFileBg"@, lookup_spec(es10, "windowBg"@).unwrap()));
    let es12 = es11.push(EntryView::Definition("mediaviewFileNameFg"@, lookup_spec(es11, "windowFg"@).unwrap()));
    let es13 = es12.push(EntryView::Definition("mediaviewFileSizeFg"@, lookup_spec(es12, "windowSubTextFg"@).unwrap()));
    let es14 = es13.push(EntryView::Definition("mediaviewFileRedCornerFg"@, lookup_spec(es13, "color1"@).unwrap()));
    let es15 = es14.push(EntryView::Definition("mediaviewFileYellowCornerFg"@, lookup_spec(es14, "color2"@).unwrap()));
    let es16 = es15.push(EntryView::Definition("mediaviewFileGreenCornerFg"@, lookup_spec(es15, "color3"@).unwrap()));
    let es17 = es16.push(EntryView::Definition("mediaviewFileBlueCornerFg"@, lookup_spec(es16, "color4"@).unwrap()));
    let es18 = es17.push(EntryView::Definition("mediaviewFileExtFg"@, lookup_spec(es17, "activeButtonFg"@).unwrap()));
    let es19 = es18.push(EntryView::Definition("mediaviewMenuBg"@, lookup_spec(es18, "color0"@).unwrap()));
    let es20 = es19.push(EntryView::Definition("mediaviewMenuBgOver"@, lighter_view(lookup_spec(es19, "color0"@).unwrap(), 40)));
    let es21 = es20.push(EntryView::Definition("mediaviewMenuBgRipple"@, lighter_view(lookup_spec(es20, "color0"@).unwrap(), 60)));
    let es22 = es21.push(EntryView::Definition("mediaviewMenuFg"@, lookup_spec(es21, "windowFgActive"@).unwrap()));
    let es23 = es22.push(EntryView::Definition("mediaviewBg"@, darker_view(lookup_spec(es22, "color0"@).unwrap(), 30)));
    let es24 = es23.push(EntryView::Definition("mediaviewVideoBg"@, lookup_spec(es23, "imageBg"@).unwrap()));
    let es25 = es24.push(EntryView::Definition("mediaviewControlBg"@, darker_view(lookup_spec(es24, "color0"@).unwrap(), 50)));
    let es26 = es25.push(EntryView::Definition("mediaviewControlFg"@, lookup_spec(es25, "windowFgActive"@).unwrap()));
    let es27 = es26.push(EntryView::Definition("mediaviewCaptionBg"@, darker_view(lookup_spec(es26, "color0"@).unwrap(), 50)));
    let es28 = es27.push(EntryView::Definition("mediaviewCaptionFg"@, lookup_spec(es27, "mediaviewControlFg"@).unwrap()));
    let es29 = es28.push(EntryView::Definition("mediaviewTextLinkFg"@, lookup_spec(es28, "color7"@).unwrap()));
    let es30 = es29.push(EntryView::Definition("mediaviewSaveMsgBg"@, lookup_spec(es29, "toastBg"@).unwrap()));
    es30
}

fn section_media(b: &mut ThemeBuilder, palette: &BasePalette) -> (r: Result<(), ThemeError>)
    requires
        old(b).wf(),
        defined(old(b)@, "msgInDateFg"@),
        defined(old(b)@, "msgInDateFgSelected"@),
        defined(old(b)@, "msgOutDateFg"@),
        defined(old(b)@, "msgOutDateFgSelected"@),
        defined(old(b)@, "windowBg"@),
        defined(old(b)@, "windowBgActive"@),
        defined(old(b)@, "sliderBgInactive"@),
        defined(old(b)@, "color1"@),
        defined(old(b)@, "windowFg"@),
        defined(old(b)@, "windowSubTextFg"@),
        defined(old(b)@, "color2"@),
        defined(old(b)@, "color3"@),
        defined(old(b)@, "color4"@),
        defined(old(b)@, "activeButtonFg"@),
        defined(old(b)@, "color0"@),
        defined(old(b)@, "windowFgActive"@),
        defined(old(b)@, "imageBg"@),
        defined(old(b)@, "color7"@),
        defined(old(b)@, "toastBg"@),
    ensures
        r is Ok,
        final(b).wf(),
        final(b)@ == section_media_entries(old(b)@, palette.colors@),
        forall|n: Seq<char>| #[trigger] defined(old(b)@, n) ==> defined(final(b)@, n),
{
    broadcast use lemma_lookup_push;

    proof {
        reveal(section_media_entries);
    }

    b.emit_comment("Media");
    {
        let c = b.lookup("msgInDateFg")?;
        b.emit_color("mediaInFg", c);
    }
    {
        let c = b.lookup("msgInDateFgSelected")?;
        b.emit_color("mediaInFgSelected", c);
    }
    {
        let c = b.lookup("msgOutDateFg")?;
        b.emit_color("mediaOutFg", c);
    }
    {
        let c = b.lookup("msgOutDateFgSelected")?;
        b.emit_color("mediaOutFgSelected", c);
    }
    {
        let c = b.lookup("windowBg")?;
        b.emit_color("mediaPlayerBg", c);
    }
    {
        let c = b.lookup("windowBgActive")?;
        b.emit_color("mediaPlayerActiveFg", c);
    }
    {
        let c = b.lookup("sliderBgInactive")?;
        b.emit_color("mediaPlayerInactiveFg", c);
    }
    {
        let c = b.lookup("color1")?;
        b.emit_color("mediaPlayerDisabledFg", c);
    }
    b.emit_comment("Mediaview");
    {
        let c = b.lookup("windowBg")?;
        b.emit_color("mediaviewFileBg", c);
    }
    {
        let c = b.lookup("windowFg")?;
        b.emit_color("mediaviewFileNameFg", c);
    }
    {
        let c = b.lookup("windowSubTextFg")?;
        b.emit_color("mediaviewFileSizeFg", c);
    }
    {
        let c = b.lookup("color1")?;
        b.emit_color("mediaviewFileRedCornerFg", c);
    }
    {
        let c = b.lookup("color2")?;
        b.emit_color("mediaviewFileYellowCornerFg", c);
    }
    {
        let c = b.lookup("color3")?;
        b.emit_color("mediaviewFileGreenCornerFg", c);
    }
    {
        let c = b.lookup("color4")?;
        b.emit_color("mediaviewFileBlueCornerFg", c);
    }
    {
        let c = b.lookup("activeButtonFg")?;
        b.emit_color("mediaviewFileExtFg", c);
    }
    {
        let c = b.lookup("color0")?;
        b.emit_color("mediaviewMenuBg", c);
    }
    {
        let c = b.lookup("color0")?;
        b.emit_color("mediaviewMenuBgOver", c.lighter(40));
    }
    {
        let c = b.lookup("color0")?;
        b.emit_color("mediaviewMenuBgRipple", c.lighter(60));
    }
    {
        let c = b.lookup("windowFgActive")?;
        b.emit_color("mediaviewMenuFg", c);
    }
    {
        let c = b.lookup("color0")?;
        b.emit_color("mediaviewBg", c.darker(30));
    }
    {
        let c = b.lookup("imageBg")?;
        b.emit_color("mediaviewVideoBg", c);
    }
    {
        let c = b.lookup("color0")?;
        b.emit_color("mediaviewControlBg", c.darker(50));
    }
    {
        let c = b.lookup("windowFgActive")?;
        b.emit_color("mediaviewControlFg", c);
    }
    {
        let c = b.lookup("color0")?;
        b.emit_color("mediaviewCaptionBg", c.darker(50));
    }
    {
        let c = b.lookup("mediaviewControlFg")?;
        b.emit_color("mediaviewCaptionFg", c);
    }
    {
        let c = b.lookup("color7")?;
        b.emit_color("mediaviewTextLinkFg", c);
    }
    {
        let c = b.lookup("toastBg")?;
        b.emit_color("mediaviewSaveMsgBg", c);
    }
    Ok(())
}

/// The entries this section appends to the registry.
#[verifier::opaque]
pub open spec fn section_call_entries(es0: Seq<EntryView>, pal: Seq<Color>) -> Seq<EntryView> {
    let es1 = es0.push(EntryView::Definition("mediaviewSaveMsgFg"@, lookup_spec(es0, "toastFg"@).unwrap()));
    let es2 = es1.push(EntryView::Definition("mediaviewPlaybackActive"@, lookup_spec(es1, "color7"@).unwrap()));
    let es3 = es2.push(EntryView::Definition("mediaviewPlaybackInactive"@, darker_view(lookup_spec(es2, "color7"@).unwrap(), 50)));
    let es4 = es3.push(EntryView::Definition("mediaviewPlaybackActiveOver"@, lighter_view(lookup_spec(es3, "color7"@).unwrap(), 40)));
    let es5 = es4.push(EntryView::Definition("mediaviewPlaybackInactiveOver"@, darker_view(lookup_spec(es4, "color7"@).unwrap(), 30)));
    let es6 = es5.push(EntryView::Definition("mediaviewPlaybackProgressFg"@, lighter_view(lookup_spec(es5, "color7"@).unwrap(), 40)));
    let es7 = es6.push(EntryView::Definition("mediaviewPlaybackIconFg"@, lookup_spec(es6, "mediaviewPlaybackActive"@).unwrap()));
    let es8 = es7.push(EntryView::Definition("mediaviewPlaybackIconFgOver"@, lookup_spec(es7, "mediaviewPlaybackActiveOver"@).unwrap()));
    let es9 = es8.push(EntryView::Definition("mediaviewTransparentBg"@, lighter_view(lookup_spec(es8, "color7"@).unwrap(), 40)));
    let es10 = es9.push(EntryView::Definition("mediaviewTransparentFg"@, lookup_spec(es9, "color7"@).unwrap()));
    let es11 = es10.push(EntryView::Definition("notificationBg"@, lookup_spec(es10, "windowBg"@).unwrap()));
    let es12 = es11.push(EntryView::Comment("Call"@));
    let es13 = es12.push(EntryView::Definition("callBg"@, lookup_spec(es12, "color0"@).unwrap()));
    let es14 = es13.push(EntryView::Definition("callNameFg"@, lighter_view(lookup_spec(es13, "color7"@).unwrap(), 40)));
    let es15 = es14.push(EntryView::Definition("callFingerprintBg"@, alpha_view(lookup_spec(es14, "color0"@).unwrap(), 40)));
    let es16 = es15.push(EntryView::Definition("callStatusFg"@, lookup_spec(es15, "color7"@).unwrap()));
    let es17 = es16.push(EntryView::Definition("callIconFg"@, lighter_view(lookup_spec(es16, "color7"@).unwrap(), 40)));
    let es18 = es17.push(EntryView::Definition("callAnswerBg"@, lookup_spec(es17, "color2"@).unwrap()));
    let es19 = es18.push(EntryView::Definition("callAnswerRipple"@, darker_view(lookup_spec(es18, "color2"@).unwrap(), 30)));
    let es20 = es19.push(EntryView::Definition("callAnswerBgOuter"@, lighter_view(lookup_spec(es19, "color2"@).unwrap(), 30)));
    let es21 = es20.push(EntryView::Definition("callHangupBg"@, lookup_spec(es20, "color1"@).unwrap()));
    let es22 = es21.push(EntryView::Definition("callHangupRipple"@, darker_view(lookup_spec(es21, "color1"@).unwrap(), 30)));
    let es23 = es22.push(EntryView::Definition("callCancelBg"@, lighter_view(lookup_spec(es22, "color7"@).unwrap(), 40)));
    let es24 = es23.push(EntryView::Definition("callCancelFg"@, darker_view(lookup_spec(es23, "color7"@).unwrap(), 40)));
    let es25 = es24.push(EntryView::Definition("callCancelRipple"@, lighter_view(lookup_spec(es24, "color7"@).unwrap(), 40)));
    let es26 = es25.push(EntryView::Definition("youtubePlayIconBg"@, alpha_view(hex_color_view("83131c"@), 50)));
    let es27 = es26.push(EntryView::Definition("callMuteRipple"@, alpha_view(hex_color_view("ffffff"@), 05)));
    let es28 = es27.push(EntryView::Definition("callBarBg"@, lookup_spec(es27, "dialogsBgActive"@).unwrap()));
    let es29 = es28.push(EntryView::Definition("callBarMuteRipple"@, lookup_spec(es28, "dialogsRippleBgActive"@).unwrap()));
    es29
}

fn section_call(b: &mut ThemeBuilder, palette: &BasePalette) -> (r: Result<(), ThemeError>)
    requires
        old(b).wf(),
        defined(old(b)@, "toastFg"@),
        defined(old(b)@, "color7"@),
        defined(old(b)@, "windowBg"@),
        defined(old(b)@, "color0"@),
        defined(old(b)@, "color2"@),
        defined(old(b)@, "color1"@),
        defined(old(b)@, "dialogsBgActive"@),
        defined(old(b)@, "dialogsRippleBgActive"@),
    ensures
        r is Ok,
        final(b).wf(),
        final(b)@ == section_call_entries(old(b)@, palette.colors@),
        forall|n: Seq<char>| #[trigger] defined(old(b)@, n) ==> defined(final(b)@, n),
{
    broadcast use lemma_lookup_push;

    proof {
        reveal(section_call_entries);
    }

    proof {
        reveal_strlit("83131c");
        assert(crate::hex::all_hex(crate::hex::strip_hash("83131c"@))) by {
            assert(crate::hex::strip_hash("83131c"@) =~= "83131c"@);
            assert(crate::hex::is_hex_digit("83131c"@[0]));
            assert(crate::hex::is_hex_digit("83131c"@[1]));
            assert(crate::hex::is_hex_digit("83131c"@[2]));
            assert(crate::hex::is_hex_digit("83131c"@[3]));
            assert(crate::hex::is_hex_digit("83131c"@[4]));
            assert(crate::hex::is_hex_digit("83131c"@[5]));
        }
        assert(crate::hex::parse_hex_rgba("83131c"@) is Some);
    }
    proof {
        reveal_strlit("ffffff");
        assert(crate::hex::all_hex(crate::hex::strip_hash("ffffff"@))) by {
            assert(crate::hex::strip_hash("ffffff"@) =~= "ffffff"@);
            assert(crate::hex::is_hex_digit("ffffff"@[0]));
            assert(crate::hex::is_hex_digit("ffffff"@[1]));
            assert(crate::hex::is_hex_digit("ffffff"@[2]));
            assert(crate::hex::is_hex_digit("ffffff"@[3]));
            assert(crate::hex::is_hex_digit("ffffff"@[4]));
            assert(crate::hex::is_hex_digit("ffffff"@[5]));
        }
        assert(crate::hex::parse_hex_rgba("ffffff"@) is Some);
    }
    {
        let c = b.lookup("toastFg")?;
        b.emit_color("mediaviewSaveMsgFg", c);
    }
    {
        let c = b.lookup("color7")?;
        b.emit_color("mediaviewPlaybackActive", c);
    }
    {
        let c = b.lookup("color7")?;
        b.emit_color("mediaviewPlaybackInactive", c.darker(50));
    }
    {
        let c = b.lookup("color7")?;
        b.emit_color("mediaviewPlaybackActiveOver", c.lighter(40));
    }
    {
        let c = b.lookup("color7")?;
        b.emit_color("mediaviewPlaybackInactiveOver", c.darker(30));
    }
    {
        let c = b.lookup("color7")?;
        b.emit_color("mediaviewPlaybackProgressFg", c.lighter(40));
    }
    {
        let c = b.lookup("mediaviewPlaybackActive")?;
        b.emit_color("mediaviewPlaybackIconFg", c);
    }
    {
        let c = b.lookup("mediaviewPlaybackActiveOver")?;
        b.emit_color("mediaviewPlaybackIconFgOver", c);
    }
    {
        let c = b.lookup("color7")?;
        b.emit_color("mediaviewTransparentBg", c.lighter(40));
    }
    {
        let c = b.lookup("color7")?;
        b.emit_color("mediaviewTransparentFg", c);
    }
    {
        let c = b.lookup("windowBg")?;
        b.emit_color("notificationBg", c);
    }
    b.emit_comment("Call");
    {
        let c = b.lookup("color0")?;
        b.emit_color("callBg", c);
    }
    {
        let c = b.lookup("color7")?;
        b.emit_color("callNameFg", c.lighter(40));
    }
    {
        let c = b.lookup("color0")?;
        b.emit_color("callFingerprintBg", c.alpha(40));
    }
    {
        let c = b.lookup("color7")?;
        b.emit_color("callStatusFg", c);
    }
    {
        let c = b.lookup("color7")?;
        b.emit_color("callIconFg", c.lighter(40));
    }
    {
        let c = b.lookup("color2")?;
        b.emit_color("callAnswerBg", c);
    }
    {
        let c = b.lookup("color2")?;
        b.emit_color("callAnswerRipple", c.darker(30));
    }
    {
        let c = b.lookup("color2")?;
        b.emit_color("callAnswerBgOuter", c.lighter(30));
    }
    {
        let c = b.lookup("color1")?;
        b.emit_color("callHangupBg", c);
    }
    {
        let c = b.lookup("color1")?;
        b.emit_color("callHangupRipple", c.darker(30));
    }
    {
        let c = b.lookup("color7")?;
        b.emit_color("callCancelBg", c.lighter(40));
    }
    {
        let c = b.lookup("color7")?;
        b.emit_color("callCancelFg", c.darker(40));
    }
    {
        let c = b.lookup("color7")?;
        b.emit_color("callCancelRipple", c.lighter(40));
    }
    b.emit_color("youtubePlayIconBg", hex_color("83131c")?.alpha(50));
    b.emit_color("callMuteRipple", hex_color("ffffff")?.alpha(05));
    {
        let c = b.lookup("dialogsBgActive")?;
        b.emit_color("callBarBg", c);
    }
    {
        let c = b.lookup("dialogsRippleBgActive")?;
        b.emit_color("callBarMuteRipple", c);
    }
    Ok(())
}

/// The entries this section appends to the registry.
#[verifier::opaque]
pub open spec fn section_important_entries(es0: Seq<EntryView>, pal: Seq<Color>) -> Seq<EntryView> {
    let es1 = es0.push(EntryView::Definition("callBarBgMuted"@, lighter_view(lookup_spec(es0, "color0"@).unwrap(), 40)));
    let es2 = es1.push(EntryView::Definition("callBarUnmuteRipple"@, lighter_view(lookup_spec(es1, "color0"@).unwrap(), 40)));
    let es3 = es2.push(EntryView::Definition("callBarFg"@, lookup_spec(es2, "dialogsNameFgActive"@).unwrap()));
    let es4 = es3.push(EntryView::Comment("Important"@));
    let es5 = es4.push(EntryView::Definition("importantTooltipBg"@, lookup_spec(es4, "toastBg"@).unwrap()));
    let es6 = es5.push(EntryView::Definition("importantTooltipFg"@, lookup_spec(es5, "toastFg"@).unwrap()));
    let es7 = es6.push(EntryView::Definition("importantTooltipFgLink"@, lookup_spec(es6, "color2"@).unwrap()));
    let es8 = es7.push(EntryView::Comment("Bot"@));
    let es9 = es8.push(EntryView::Definition("botKbBg"@, lookup_spec(es8, "color0"@).unwrap()));
    let es10 = es9.push(EntryView::Definition("botKbDownBg"@, lighter_view(lookup_spec(es9, "color0"@).unwrap(), 40)));
    let es11 = es10.push(EntryView::Comment("Overview"@));
    let es12 = es11.push(EntryView::Definition("overviewCheckBorder"@, lookup_spec(es11, "color2"@).unwrap()));
    let es13 = es12.push(EntryView::Comment("Sidebar"@));
    let es14 = es13.push(EntryView::Definition("sideBarBg"@, lookup_spec(es13, "color0"@).unwrap()));
    let es15 = es14.push(EntryView::Definition("sideBarBgActive"@, lookup_spec(es14, "color2"@).unwrap()));
    let es16 = es15.push(EntryView::Definition("sideBarBgRipple"@, lookup_spec(es15, "color1"@).unwrap()));
    let es17 = es16.push(EntryView::Definition("sideBarTextFg"@, lookup_spec(es16, "color1"@).unwrap()));
    let es18 = es17.push(EntryView::Definition("sideBarTextFgActive"@, lookup_spec(es17, "color7"@).unwrap()));
    let es19 = es18.push(EntryView::Definition("sideBarIconFg"@, lookup_spec(es18, "color7"@).unwrap()));
    let es20 = es19.push(EntryView::Definition("sideBarIconFgActive"@, lighter_view(lookup_spec(es19, "color7"@).unwrap(), 40)));
    let es21 = es20.push(EntryView::Definition("sideBarBadgeBg"@, lookup_spec(es20, "color1"@).unwrap()));
    let es22 = es21.push(EntryView::Definition("sideBarBadgeBgMuted"@, darker_view(lookup_spec(es21, "color7"@).unwrap(), 40)));
    let es23 = es22.push(EntryView::Definition("sideBarBadgeFg"@, lighter_view(lookup_spec(es22, "color7"@).unwrap(), 40)));
    let es24 = es23.push(EntryView::Comment("DUNNO"@));
    let es25 = es24.push(EntryView::Definition("profileOtherAdminStarFg"@, lookup_spec(es24, "color7"@).unwrap()));
    es25
}

fn section_important(b: &mut ThemeBuilder, palette: &BasePalette) -> (r: Result<(), ThemeError>)
    requires
        old(b).wf(),
        defined(old(b)@, "color0"@),
        defined(old(b)@, "dialogsNameFgActive"@),
        defined(old(b)@, "toastBg"@),
        defined(old(b)@, "toastFg"@),
        defined(old(b)@, "color2"@),
        defined(old(b)@, "color1"@),
        defined(old(b)@, "color7"@),
    ensures
        r is Ok,
        final(b).wf(),
        final(b)@ == section_important_entries(old(b)@, palette.colors@),
        forall|n: Seq<char>| #[trigger] defined(old(b)@, n) ==> defined(final(b)@, n),
{
    broadcast use lemma_lookup_push;

    proof {
        reveal(section_important_entries);
    }

    {
        let c = b.lookup("color0")?;
        b.emit_color("callBarBgMuted", c.lighter(40));
    }
    {
        let c = b.lookup("color0")?;
        b.emit_color("callBarUnmuteRipple", c.lighter(40));
    }
    {
        let c = b.lookup("dialogsNameFgActive")?;
        b.emit_color("callBarFg", c);
    }
    b.emit_comment("Important");
    {
        let c = b.lookup("toastBg")?;
        b.emit_color("importantTooltipBg", c);
    }
    {
        let c = b.lookup("toastFg")?;
        b.emit_color("importantTooltipFg", c);
    }
    {
        let c = b.lookup("color2")?;
        b.emit_color("importantTooltipFgLink", c);
    }
    b.emit_comment("Bot");
    {
        let c = b.lookup("color0")?;
        b.emit_color("botKbBg", c);
    }
    {
        let c = b.lookup("color0")?;
        b.emit_color("botKbDownBg", c.lighter(40));
    }
    b.emit_comment("Overview");
    {
        let c = b.lookup("color2")?;
        b.emit_color("overviewCheckBorder", c);
    }
    b.emit_comment("Sidebar");
    {
        let c = b.lookup("color0")?;
        b.emit_color("sideBarBg", c);
    }
    {
        let c = b.lookup("color2")?;
        b.emit_color("sideBarBgActive", c);
    }
    {
        let c = b.lookup("color1")?;
        b.emit_color("sideBarBgRipple", c);
    }
    {
        let c = b.lookup("color1")?;
        b.emit_color("sideBarTextFg", c);
    }
    {
        let c = b.lookup("color7")?;
        b.emit_color("sideBarTextFgActive", c);
    }
    {
        let c = b.lookup("color7")?;
        b.emit_color("sideBarIconFg", c);
    }
    {
        let c = b.lookup("color7")?;
        b.emit_color("sideBarIconFgActive", c.lighter(40));
    }
    {
        let c = b.lookup("color1")?;
        b.emit_color("sideBarBadgeBg", c);
    }
    {
        let c = b.lookup("color7")?;
        b.emit_color("sideBarBadgeBgMuted", c.darker(40));
    }
    {
        let c = b.lookup("color7")?;
        b.emit_color("sideBarBadgeFg", c.lighter(40));
    }
    b.emit_comment("DUNNO");
    {
        let c = b.lookup("color7")?;
        b.emit_color("profileOtherAdminStarFg", c);
    }
    Ok(())
}

/// The full theme registry derived from a base palette: the base palette
/// section followed by the fixed derivation directives, each resolved
/// against the registry built so far.
#[verifier::opaque]
pub open spec fn theme_entries(pal: Seq<Color>) -> Seq<EntryView> {
    section_important_entries(
        section_call_entries(
        section_media_entries(
        section_overview_entries(
        section_report_entries(
        section_download_animations_entries(
        section_part_3_entries(
        section_part_2_entries(
        section_msg_entries(
        section_part_entries(
        section_searched_entries(
        section_dialogs_active_entries(
        section_dialogs_default_entries(
        section_members_entries(
        section_tray_entries(
        section_placeholder_entries(
        section_outline_entries(
        section_image_entries(
        section_colors_for_testing_purposes_entries(
        base_entries(Seq::empty(), pal),
        pal,
    ),
        pal,
    ),
        pal,
    ),
        pal,
    ),
        pal,
    ),
        pal,
    ),
        pal,
    ),
        pal,
    ),
        pal,
    ),
        pal,
    ),
        pal,
    ),
        pal,
    ),
        pal,
    ),
        pal,
    ),
        pal,
    ),
        pal,
    ),
        pal,
    ),
        pal,
    ),
        pal,
    )
}

/// Derives the full theme from a base palette and serializes it: one
/// directive per line, comments and color definitions in emission order.
///
/// On a palette of at least 16 colors the derivation always succeeds, and
/// the output is exactly the rendering of `theme_entries`: a deterministic
/// function of the palette's colors alone, serialized in insertion order,
/// with every reference resolved against an entry already emitted (the
/// first definition of a name wins for lookups; repeated emissions of a
/// name all render).  The fixed derivation data references base colors up
/// to `color15`, so a smaller palette fails with the reference error.
pub fn get_telegram_colors(palette: &BasePalette) -> (r: Result<String, ThemeError>)
    ensures
        palette.colors@.len() >= 16 ==> (r matches Ok(s) && s@ == render_registry(
            theme_entries(palette.colors@),
        )),
        palette.colors@.len() < 16 ==> r == Err::<String, ThemeError>(
            ThemeError::UndefinedReferenceError,
        ),
{
    if palette.len() < 16 {
        return Err(ThemeError::UndefinedReferenceError);
    }
    let mut b = ThemeBuilder::new();
    proof {
        assert(b@ =~= Seq::<EntryView>::empty());
    }
    section_base_palette(&mut b, palette);
    proof {
        reveal_strlit("color0");
        assert(color_name(0) =~= "color0"@);
        assert(defined(b@, "color0"@));
    }
    proof {
        reveal_strlit("color1");
        assert(color_name(1) =~= "color1"@);
        assert(defined(b@, "color1"@));
    }
    proof {
        reveal_strlit("color2");
        assert(color_name(2) =~= "color2"@);
        assert(defined(b@, "color2"@));
    }
    proof {
        reveal_strlit("color3");
        assert(color_name(3) =~= "color3"@);
        assert(defined(b@, "color3"@));
    }
    proof {
        reveal_strlit("color4");
        assert(color_name(4) =~= "color4"@);
        assert(defined(b@, "color4"@));
    }
    proof {
        reveal_strlit("color5");
        assert(color_name(5) =~= "color5"@);
        assert(defined(b@, "color5"@));
    }
    proof {
        reveal_strlit("color6");
        assert(color_name(6) =~= "color6"@);
        assert(defined(b@, "color6"@));
    }
    proof {
        reveal_strlit("color7");
        assert(color_name(7) =~= "color7"@);
        assert(defined(b@, "color7"@));
    }
    proof {
        reveal_strlit("color8");
        assert(color_name(8) =~= "color8"@);
        assert(defined(b@, "color8"@));
    }
    proof {
        reveal_strlit("color10");
        assert(crate::theme::decimal_repr(1) =~= seq![crate::theme::dec_digit_char(1)]);
        assert(color_name(10) =~= "color10"@);
        assert(defined(b@, "color10"@));
    }
    proof {
        reveal_strlit("color15");
        assert(crate::theme::decimal_repr(1) =~= seq![crate::theme::dec_digit_char(1)]);
        assert(color_name(15) =~= "color15"@);
        assert(defined(b@, "color15"@));
    }
    section_colors_for_testing_purposes(&mut b, palette)?;
    section_image(&mut b, palette)?;
    section_outline(&mut b, palette)?;
    section_placeholder(&mut b, palette)?;
    section_tray(&mut b, palette)?;
    section_members(&mut b, palette)?;
    section_dialogs_default(&mut b, palette)?;
    section_dialogs_active(&mut b, palette)?;
    section_searched(&mut b, palette)?;
    section_part(&mut b, palette)?;
    section_msg(&mut b, palette)?;
    section_part_2(&mut b, palette)?;
    section_part_3(&mut b, palette)?;
    section_download_animations(&mut b, palette)?;
    section_report(&mut b, palette)?;
    section_overview(&mut b, palette)?;
    section_media(&mut b, palette)?;
    section_call(&mut b, palette)?;
    section_important(&mut b, palette)?;
    let out = b.output();
    proof {
        reveal(theme_entries);
        assert(b@ == theme_entries(palette.colors@));
    }
    Ok(out)
}

} // verus!
