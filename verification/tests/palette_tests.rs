use wal_telegram::color::Color;
use wal_telegram::contrast::BasePalette;
use wal_telegram::custom::import_custom_palette;
use wal_telegram::errors::ThemeError;
use wal_telegram::palette::Palette;
use wal_telegram::palette::generate_palette;
use wal_telegram::palette::import_wal_palette;

fn lines(v: &[&str]) -> Vec<String> {
    v.iter().map(|s| s.to_string()).collect()
}

fn sixteen_wal_lines() -> Vec<String> {
    lines(&[
        "#0a0a0a", "#ff0000", "#00ff00", "#ffff00", "#0000ff", "#ff00ff", "#00ffff", "#c0c0c0",
        "#808080", "#ff8080", "#80ff80", "#ffff80", "#8080ff", "#ff80ff", "#80ffff", "#fafafa",
    ])
}

#[test]
fn wal_import_keeps_line_order() {
    let p = import_wal_palette(&sixteen_wal_lines(), false).unwrap();
    assert_eq!(p.colors.len(), 16);
    assert_eq!(p.colors[0].to_hex(), "0a0a0aff");
    assert_eq!(p.colors[1].to_hex(), "ff0000ff");
    assert_eq!(p.colors[15].to_hex(), "fafafaff");
}

#[test]
fn wal_import_pads_four_colors_to_sixteen() {
    let p = import_wal_palette(
        &lines(&["#000000", "#ffffff", "#ff0000", "#00ff00"]),
        false,
    )
    .unwrap();
    assert_eq!(p.colors.len(), 16);
    for i in 4..16 {
        assert_eq!(p.colors[i].to_hex(), p.colors[i - 4].to_hex());
    }
    assert_eq!(p.colors[4].to_hex(), "000000ff");
    assert_eq!(p.colors[15].to_hex(), "00ff00ff");
}

#[test]
fn wal_import_rejects_empty_list() {
    assert_eq!(
        import_wal_palette(&lines(&[]), false).unwrap_err(),
        ThemeError::PaletteSizeError
    );
}

#[test]
fn wal_import_rejects_malformed_line() {
    assert_eq!(
        import_wal_palette(&lines(&["#000000", "not a color"]), false).unwrap_err(),
        ThemeError::InvalidHexFormat
    );
}

fn block_is_sorted_by_luminance(p: &BasePalette, start: usize, cnt: usize) {
    for m in 0..cnt.saturating_sub(1) {
        let a = p.colors[start + m].get_relative_luminance() / 2550;
        let b = p.colors[start + m + 1].get_relative_luminance() / 2550;
        assert!(a <= b, "block at {start} not sorted at offset {m}");
    }
}

#[test]
fn wal_reordered_keeps_anchors_and_sorts_blocks() {
    let src = sixteen_wal_lines();
    let p = import_wal_palette(&src, true).unwrap();
    assert_eq!(p.colors.len(), 16);
    for anchor in [0usize, 7, 8, 15] {
        let expected = Color::from_hex(&src[anchor]).unwrap().to_hex();
        assert_eq!(p.colors[anchor].to_hex(), expected);
    }
    block_is_sorted_by_luminance(&p, 1, 6);
    block_is_sorted_by_luminance(&p, 9, 6);
    // The sorted blocks hold the same colors the lines gave them.
    for (start, end) in [(1usize, 7usize), (9, 15)] {
        let mut got: Vec<String> = (start..end).map(|i| p.colors[i].to_hex()).collect();
        let mut expect: Vec<String> = (start..end)
            .map(|i| Color::from_hex(&src[i]).unwrap().to_hex())
            .collect();
        got.sort();
        expect.sort();
        assert_eq!(got, expect);
    }
}

#[test]
fn custom_import_parses_declarations() {
    let mut v: Vec<String> = Vec::new();
    v.push("ignored noise".to_string());
    for i in 0..16 {
        v.push(format!("  color{i} = '#0000{i:02x}'  "));
    }
    v.push("color3=\"#AABBCC\"".to_string());
    let p = import_custom_palette(&v).unwrap();
    assert_eq!(p.colors.len(), 16);
    assert_eq!(p.colors[0].to_hex(), "000000ff");
    // The later declaration for color3 wins.
    assert_eq!(p.colors[3].to_hex(), "aabbccff");
    assert_eq!(p.colors[15].to_hex(), "00000fff");
}

#[test]
fn custom_import_accepts_eight_digit_colors() {
    let mut v: Vec<String> = Vec::new();
    for i in 0..16 {
        v.push(format!("color{i} = \"#11223344\""));
    }
    let p = import_custom_palette(&v).unwrap();
    assert_eq!(p.colors[7].to_hex(), "11223344");
}

#[test]
fn custom_import_rejects_gaps() {
    let mut v: Vec<String> = Vec::new();
    for i in 0..17 {
        if i != 5 {
            v.push(format!("color{i} = '#aabbcc'"));
        }
    }
    assert_eq!(
        import_custom_palette(&v).unwrap_err(),
        ThemeError::PaletteGapError
    );
}

#[test]
fn custom_import_rejects_small_palettes() {
    let mut v: Vec<String> = Vec::new();
    for i in 0..4 {
        v.push(format!("color{i} = '#aabbcc'"));
    }
    assert_eq!(
        import_custom_palette(&v).unwrap_err(),
        ThemeError::PaletteSizeError
    );
    assert_eq!(
        import_custom_palette(&lines(&["no declarations here"])).unwrap_err(),
        ThemeError::PaletteSizeError
    );
}

#[test]
fn custom_import_rejects_oversized_indices() {
    let mut v: Vec<String> = Vec::new();
    for i in 0..16 {
        v.push(format!("color{i} = '#aabbcc'"));
    }
    // A declaration with an index the importer cannot handle fails the
    // import instead of being ignored.
    v.push("color1000000 = '#aabbcc'".to_string());
    assert_eq!(
        import_custom_palette(&v).unwrap_err(),
        ThemeError::PaletteGapError
    );
    let big = lines(&["color123456789123456789 = '#aabbcc'"]);
    assert_eq!(
        import_custom_palette(&big).unwrap_err(),
        ThemeError::PaletteGapError
    );
}

#[test]
fn custom_import_ignores_near_misses() {
    let mut v: Vec<String> = Vec::new();
    for i in 0..16 {
        v.push(format!("color{i} = '#aabbcc'"));
    }
    // Unquoted, wrong digit count, trailing junk: all ignored, palette stays valid.
    v.push("color20 = #aabbcc".to_string());
    v.push("color21 = '#abcde'".to_string());
    v.push("color22 = '#aabbcc' trailing".to_string());
    v.push("colour23 = '#aabbcc'".to_string());
    let p = import_custom_palette(&v).unwrap();
    assert_eq!(p.colors.len(), 16);
}

#[test]
fn custom_import_takes_each_quote_independently() {
    let mut v: Vec<String> = Vec::new();
    for i in 0..16 {
        v.push(format!("color{i} = '#aabbcc\""));
    }
    let p = import_custom_palette(&v).unwrap();
    assert_eq!(p.colors.len(), 16);
    assert_eq!(p.colors[2].to_hex(), "aabbccff");
}

#[test]
fn generate_palette_attaches_contrast_rankings() {
    let p = generate_palette(Palette::Wal, &sixteen_wal_lines()).unwrap();
    assert_eq!(p.colors.len(), 16);
    // Every base color but the last has all 15 others ranked.
    for i in 0..15 {
        assert_eq!(p.colors[i].contrasts.len(), 15);
        let mut seen: Vec<usize> = p.colors[i].contrasts.clone();
        seen.sort();
        let expected: Vec<usize> = (0..16).filter(|j| *j != i).collect();
        assert_eq!(seen, expected);
        // Ranked ascending by quantized contrast ratio against color i.
        for k in 0..14 {
            let a = p.colors[i]
                .get_contrast(&p.colors[p.colors[i].contrasts[k]])
                .quantized();
            let b = p.colors[i]
                .get_contrast(&p.colors[p.colors[i].contrasts[k + 1]])
                .quantized();
            assert!(a <= b, "ranking of color {i} not ascending at {k}");
        }
    }
    assert_eq!(p.colors[15].contrasts.len(), 0);
}

#[test]
fn generate_palette_reports_import_errors() {
    assert_eq!(
        generate_palette(Palette::Custom, &lines(&["nothing"])).unwrap_err(),
        ThemeError::PaletteSizeError
    );
    assert_eq!(
        generate_palette(Palette::Wal, &lines(&["bogus"])).unwrap_err(),
        ThemeError::InvalidHexFormat
    );
}

#[test]
fn generate_palette_reordered_mode_matches_importer() {
    let src = sixteen_wal_lines();
    let direct = import_wal_palette(&src, true).unwrap();
    let p = generate_palette(Palette::WalReordered, &src).unwrap();
    for i in 0..16 {
        assert_eq!(p.colors[i].to_hex(), direct.colors[i].to_hex());
    }
}

fn twenty_wal_lines() -> Vec<String> {
    let mut v = sixteen_wal_lines();
    v.push("#102030".to_string());
    v.push("#edcba9".to_string());
    v.push("#400080".to_string());
    v.push("#12ff34".to_string());
    v
}

#[test]
fn palettes_larger_than_sixteen_are_kept_whole() {
    let p = generate_palette(Palette::Wal, &twenty_wal_lines()).unwrap();
    assert_eq!(p.colors.len(), 20);
    for i in 0..19 {
        assert_eq!(p.colors[i].contrasts.len(), 19);
    }
    assert_eq!(p.colors[19].contrasts.len(), 0);
    assert_eq!(p.colors[16].to_hex(), "102030ff");
}

#[test]
fn wal_reordered_sorts_the_trailing_partial_block() {
    let src = twenty_wal_lines();
    let p = import_wal_palette(&src, true).unwrap();
    assert_eq!(p.colors.len(), 20);
    // Positions 16 (a multiple of 8) stays anchored; 17..19 form a partial
    // block that is still sorted.
    assert_eq!(p.colors[16].to_hex(), "102030ff");
    block_is_sorted_by_luminance(&p, 17, 3);
    let mut got: Vec<String> = (17..20).map(|i| p.colors[i].to_hex()).collect();
    let mut expect: Vec<String> = (17..20)
        .map(|i| Color::from_hex(&src[i]).unwrap().to_hex())
        .collect();
    got.sort();
    expect.sort();
    assert_eq!(got, expect);
}

#[test]
fn most_contrasting_neighbor_of_near_black_is_near_white() {
    let p = generate_palette(Palette::Wal, &sixteen_wal_lines()).unwrap();
    // Ascending order: the last ranked neighbor of color0 is the most
    // contrasting one, which for near-black is the near-white color15.
    assert_eq!(*p.colors[0].contrasts.last().unwrap(), 15);
}
