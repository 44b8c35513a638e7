use wal_telegram::color::Color;
use wal_telegram::contrast::BasePalette;
use wal_telegram::errors::ThemeError;
use wal_telegram::palette::Palette;
use wal_telegram::palette::generate_palette;
use wal_telegram::telegram::get_telegram_colors;
use wal_telegram::theme::ThemeBuilder;
use wal_telegram::theme::hex_color;
use wal_telegram::theme::index_name;

fn lines(v: &[&str]) -> Vec<String> {
    v.iter().map(|s| s.to_string()).collect()
}

fn base_palette() -> BasePalette {
    let src = lines(&[
        "#0a0a0a", "#ff0000", "#00ff00", "#ffff00", "#0000ff", "#ff00ff", "#00ffff", "#c0c0c0",
        "#808080", "#ff8080", "#80ff80", "#ffff80", "#8080ff", "#ff80ff", "#80ffff", "#fafafa",
    ]);
    generate_palette(Palette::Wal, &src).unwrap()
}

#[test]
fn builder_renders_comments_and_colors() {
    let mut b = ThemeBuilder::new();
    b.emit_comment("Basic window options");
    b.emit_color("windowBg", Color::from_hex("#102030").unwrap());
    assert_eq!(
        b.output(),
        "\n// Basic window options\nwindowBg: #102030ff;\n"
    );
}

#[test]
fn lookup_returns_emitted_colors() {
    let mut b = ThemeBuilder::new();
    b.emit_color("one", Color::from_hex("111111").unwrap());
    b.emit_color("two", Color::from_hex("222222").unwrap());
    assert_eq!(b.lookup("one").unwrap().to_hex(), "111111ff");
    assert_eq!(b.lookup("two").unwrap().to_hex(), "222222ff");
}

#[test]
fn lookup_of_undefined_name_fails() {
    let mut b = ThemeBuilder::new();
    b.emit_color("defined", Color::from_hex("111111").unwrap());
    assert_eq!(
        b.lookup("not_yet_defined").unwrap_err(),
        ThemeError::UndefinedReferenceError
    );
}

#[test]
fn lookup_is_not_fooled_by_comments() {
    let mut b = ThemeBuilder::new();
    b.emit_comment("shadow");
    assert_eq!(
        b.lookup("shadow").unwrap_err(),
        ThemeError::UndefinedReferenceError
    );
}

#[test]
fn first_definition_wins_for_lookup() {
    let mut b = ThemeBuilder::new();
    b.emit_color("name", Color::from_hex("111111").unwrap());
    b.emit_color("name", Color::from_hex("222222").unwrap());
    assert_eq!(b.lookup("name").unwrap().to_hex(), "111111ff");
    // Both entries still render, in emission order.
    assert_eq!(b.output(), "name: #111111ff;\nname: #222222ff;\n");
}

#[test]
fn derivation_clamps_at_black_and_white() {
    // End to end: "a" is black, darkening it stays black; lightening white
    // stays white.
    let src = lines(&[
        "#000000", "#ffffff", "#ff0000", "#00ff00", "#0000ff", "#ffff00", "#00ffff", "#ff00ff",
        "#111111", "#222222", "#333333", "#444444", "#555555", "#666666", "#777777", "#888888",
    ]);
    let palette = generate_palette(Palette::Wal, &src).unwrap();
    let mut b = ThemeBuilder::new();
    b.emit_color("a", palette.color_at(0));
    let a = b.lookup("a").unwrap();
    b.emit_color("b", a.darker(50));
    b.emit_color("c", palette.color_at(1).lighter(50));
    let out = b.output();
    assert!(out.contains("b: #000000ff;\n"));
    assert!(out.contains("c: #ffffffff;\n"));
}

#[test]
fn nth_contrast_out_of_range_returns_the_color_itself() {
    let palette = base_palette();
    let c = palette.color_at(0);
    let fallback = c.contrast(1000, &palette);
    assert_eq!(fallback.to_hex(), c.to_hex());
    assert_eq!(fallback.contrasts, c.contrasts);
    // A color with no ranking at all falls back too.
    let bare = Color::from_hex("123456").unwrap();
    assert_eq!(bare.contrast(0, &palette).to_hex(), "123456ff");
}

#[test]
fn nth_contrast_resolves_through_the_palette() {
    let palette = base_palette();
    let c = palette.color_at(0);
    let first = c.contrast(0, &palette);
    assert_eq!(first.to_hex(), palette.color_at(c.contrasts[0]).to_hex());
}

#[test]
fn index_name_renders_decimal_indices() {
    assert_eq!(index_name(0), "color0");
    assert_eq!(index_name(7), "color7");
    assert_eq!(index_name(15), "color15");
    assert_eq!(index_name(120), "color120");
}

#[test]
fn hex_color_reports_malformed_literals() {
    assert_eq!(hex_color("ff7fc6").unwrap().to_hex(), "ff7fc6ff");
    assert_eq!(hex_color("nope").unwrap_err(), ThemeError::InvalidHexFormat);
}

#[test]
fn telegram_theme_derives_from_a_full_palette() {
    let palette = base_palette();
    let out = get_telegram_colors(&palette).unwrap();
    assert!(out.starts_with("\n// Color palette\n"));
    assert!(out.contains("color0: #0a0a0aff;\n"));
    assert!(out.contains("color15: #fafafaff;\n"));
    assert!(out.contains("\n// Colors for testing purposes\n"));
    assert!(out.contains("colorPink: #ff7fc6ff;\n"));
    assert!(out.contains("windowBg: #0a0a0aff;\n"));
    // Every line is a comment, a color definition, or blank.
    for line in out.lines() {
        assert!(
            line.is_empty() || line.starts_with("// ") || (line.contains(": #") && line.ends_with(';')),
            "unexpected line: {line:?}"
        );
    }
    // The registry renders every emission, including repeated names.
    assert_eq!(out.matches("youtubePlayIconBg: ").count(), 2);
}

#[test]
fn telegram_theme_resolves_contrast_references() {
    let palette = base_palette();
    let out = get_telegram_colors(&palette).unwrap();
    // windowFg is derived as the first ranked contrast neighbor of windowBg.
    let wbg = palette.color_at(0);
    let wfg = wbg.contrast(0, &palette);
    assert!(out.contains(&format!("windowFg: #{};\n", wfg.to_hex())));
}

#[test]
fn telegram_theme_needs_sixteen_base_colors() {
    let small = BasePalette {
        colors: vec![
            Color::from_hex("000000").unwrap(),
            Color::from_hex("ffffff").unwrap(),
        ],
    };
    assert_eq!(
        get_telegram_colors(&small).unwrap_err(),
        ThemeError::UndefinedReferenceError
    );
}

#[test]
fn telegram_theme_is_deterministic() {
    let palette = base_palette();
    let first = get_telegram_colors(&palette).unwrap();
    let second = get_telegram_colors(&palette).unwrap();
    assert_eq!(first, second);
}

#[test]
fn error_messages_name_each_failure() {
    assert!(!ThemeError::InvalidHexFormat.message().is_empty());
    assert!(!ThemeError::PaletteSizeError.message().is_empty());
    assert!(!ThemeError::PaletteGapError.message().is_empty());
    assert!(!ThemeError::UndefinedReferenceError.message().is_empty());
}
