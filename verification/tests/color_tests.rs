use wal_telegram::color::Color;
use wal_telegram::color::average_color;

#[test]
fn from_hex_six_digits() {
    let c = Color::from_hex("#1a2b3c").unwrap();
    assert_eq!(c.u8_red(), 0x1a);
    assert_eq!(c.u8_green(), 0x2b);
    assert_eq!(c.u8_blue(), 0x3c);
    assert_eq!(c.u8_alpha(), 255);
}

#[test]
fn from_hex_eight_digits_without_hash() {
    let c = Color::from_hex("AABBCCDD").unwrap();
    assert_eq!(c.u8_red(), 0xaa);
    assert_eq!(c.u8_green(), 0xbb);
    assert_eq!(c.u8_blue(), 0xcc);
    assert_eq!(c.u8_alpha(), 0xdd);
}

#[test]
fn from_hex_rejects_malformed_strings() {
    assert!(Color::from_hex("").is_none());
    assert!(Color::from_hex("12345").is_none());
    assert!(Color::from_hex("1g2b3c").is_none());
    assert!(Color::from_hex("#1a2b3c4").is_none());
    assert!(Color::from_hex("##aabbcc").is_none());
    assert!(Color::from_hex("#aabbccddee").is_none());
}

#[test]
fn to_hex_round_trips_with_case_folded() {
    assert_eq!(Color::from_hex("#AbCdEf").unwrap().to_hex(), "abcdefff");
    assert_eq!(Color::from_hex("00ff7f80").unwrap().to_hex(), "00ff7f80");
    assert_eq!(Color::from_hex("#FFFFFFFF").unwrap().to_hex(), "ffffffff");
}

#[test]
fn constructors_fill_channels() {
    let c = Color::new();
    assert_eq!(c.to_hex(), "000000ff");
    let c = Color::from_rgb_int(1, 2, 3).unwrap();
    assert_eq!(c.to_hex(), "010203ff");
    let c = Color::from_rgba_int(1, 2, 3, 4).unwrap();
    assert_eq!(c.to_hex(), "01020304");
}

#[test]
fn luminance_of_black_and_white() {
    let black = Color::from_hex("000000").unwrap();
    let white = Color::from_hex("ffffff").unwrap();
    assert_eq!(black.get_relative_luminance(), 0);
    assert_eq!(white.get_relative_luminance(), 2_550_000_000_000);
}

#[test]
fn luminance_is_weighted_by_alpha() {
    let opaque = Color::from_hex("ffffff").unwrap();
    let half = Color::from_hex("ffffff80").unwrap();
    assert_eq!(half.get_relative_luminance(), opaque.get_relative_luminance() / 255 * 0x80);
}

#[test]
fn contrast_ratio_of_black_and_white_is_21() {
    let black = Color::from_hex("000000").unwrap();
    let white = Color::from_hex("ffffff").unwrap();
    let r = black.get_contrast(&white);
    assert_eq!(r.quantized(), 21_000_000);
}

#[test]
fn contrast_ratio_is_symmetric() {
    let a = Color::from_hex("12ab56").unwrap();
    let b = Color::from_hex("fe4321cc").unwrap();
    assert_eq!(a.get_contrast(&b), b.get_contrast(&a));
    assert_eq!(a.get_contrast(&b).quantized(), b.get_contrast(&a).quantized());
}

#[test]
fn contrast_ratio_with_itself_is_one() {
    let a = Color::from_hex("77aa22").unwrap();
    let r = a.get_contrast(&a);
    assert_eq!(r.num, r.den);
    assert_eq!(r.quantized(), 1_000_000);
}

#[test]
fn darker_scales_and_clamps() {
    let c = Color::from_hex("ff8000").unwrap();
    let d = c.darker(50);
    assert_eq!(d.to_hex(), "804000ff");
    let black = Color::from_hex("000000").unwrap();
    assert_eq!(black.darker(50).to_hex(), "000000ff");
    let full = Color::from_hex("ffffff").unwrap();
    assert_eq!(full.darker(150).to_hex(), "000000ff");
}

#[test]
fn lighter_scales_and_clamps() {
    let c = Color::from_hex("104080").unwrap();
    let l = c.lighter(50);
    assert_eq!(l.to_hex(), "1860c0ff");
    let white = Color::from_hex("ffffff").unwrap();
    assert_eq!(white.lighter(50).to_hex(), "ffffffff");
}

#[test]
fn alpha_replaces_opacity() {
    let c = Color::from_hex("abcdef").unwrap();
    assert_eq!(c.alpha(30).to_hex(), "abcdef4d");
    assert_eq!(c.alpha(0).to_hex(), "abcdef00");
    assert_eq!(c.alpha(100).to_hex(), "abcdefff");
    assert_eq!(c.alpha(200).to_hex(), "abcdefff");
}

#[test]
fn average_of_black_and_white_is_mid_gray() {
    let colors = vec![
        Color::from_hex("000000").unwrap(),
        Color::from_hex("ffffff").unwrap(),
    ];
    let avg = average_color(&colors);
    assert_eq!(avg.to_hex(), "808080ff");
}

#[test]
fn average_of_one_color_is_that_color() {
    let colors = vec![Color::from_hex("12345678").unwrap()];
    assert_eq!(average_color(&colors).to_hex(), "12345678");
}
