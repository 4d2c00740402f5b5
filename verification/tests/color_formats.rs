use luma11y::color::{
    alpha_suffix, format_hsl, format_hsv, format_lab, hex_to_rgb, rgb_to_css_string,
    rgb_to_hex_string,
};

#[test]
fn hex_short_notation_doubles_each_digit() {
    assert_eq!(hex_to_rgb("#abc"), Some(((0xaa, 0xbb, 0xcc), 255)));
    assert_eq!(hex_to_rgb("#abc"), hex_to_rgb("#aabbcc"));
}

#[test]
fn hex_short_notation_with_alpha() {
    assert_eq!(hex_to_rgb("#abcd"), Some(((0xaa, 0xbb, 0xcc), 0xdd)));
    assert_eq!(hex_to_rgb("#abcd"), hex_to_rgb("#aabbccdd"));
}

#[test]
fn hex_long_notation() {
    assert_eq!(hex_to_rgb("#FF5733"), Some(((255, 87, 51), 255)));
    assert_eq!(hex_to_rgb("#ff573380"), Some(((255, 87, 51), 128)));
}

#[test]
fn hex_hash_is_optional_and_white_space_is_trimmed() {
    assert_eq!(hex_to_rgb("ff5733"), Some(((255, 87, 51), 255)));
    assert_eq!(hex_to_rgb("  #ff5733\n"), Some(((255, 87, 51), 255)));
    assert_eq!(hex_to_rgb("\u{3000}#fff\u{a0}"), Some(((255, 255, 255), 255)));
}

#[test]
fn hex_every_leading_hash_is_removed() {
    assert_eq!(hex_to_rgb("###000"), Some(((0, 0, 0), 255)));
}

#[test]
fn hex_pairs_are_two_hex_digits() {
    assert_eq!(hex_to_rgb("#+f+f+f"), None);
    assert_eq!(hex_to_rgb("#+f+f+f+0"), None);
    assert_eq!(hex_to_rgb("#++f"), None);
    assert_eq!(hex_to_rgb("#0f0F0f"), Some(((15, 15, 15), 255)));
}

#[test]
fn hex_rejects_other_inputs() {
    assert_eq!(hex_to_rgb(""), None);
    assert_eq!(hex_to_rgb("#"), None);
    assert_eq!(hex_to_rgb("#12345"), None);
    assert_eq!(hex_to_rgb("#1234567"), None);
    assert_eq!(hex_to_rgb("#ggg"), None);
    assert_eq!(hex_to_rgb("#12 456"), None);
    assert_eq!(hex_to_rgb("#-1-1-1"), None);
    assert_eq!(hex_to_rgb("\u{e9}\u{e9}\u{e9}"), None);
}

#[test]
fn hex_non_ascii_inputs_read_as_none() {
    assert_eq!(hex_to_rgb("a\u{e9}bcd"), None);
    assert_eq!(hex_to_rgb("#ab\u{20ac}cde"), None);
    assert_eq!(hex_to_rgb("\u{e1}123"), None);
    assert_eq!(hex_to_rgb("zz\u{e9}\u{e9}"), None);
    assert_eq!(hex_to_rgb("#\u{e9}b"), None);
    assert_eq!(hex_to_rgb("\u{ff21}\u{ff22}\u{ff23}"), None);
}

#[test]
fn hex_output_opaque_and_with_alpha() {
    assert_eq!(rgb_to_hex_string((255, 87, 51), None), "#FF5733");
    assert_eq!(rgb_to_hex_string((0, 10, 171), Some(128)), "#000AAB80");
    assert_eq!(rgb_to_hex_string((1, 2, 3), Some(255)), "#010203FF");
}

#[test]
fn hex_round_trip_on_examples() {
    for rgb in [(0u8, 0u8, 0u8), (255, 255, 255), (18, 52, 86), (171, 205, 239)] {
        assert_eq!(hex_to_rgb(&rgb_to_hex_string(rgb, None)), Some((rgb, 255)));
        for a in [0u8, 1, 127, 254, 255] {
            assert_eq!(hex_to_rgb(&rgb_to_hex_string(rgb, Some(a))), Some((rgb, a)));
        }
    }
}

#[test]
fn css_alpha_suffix() {
    assert_eq!(alpha_suffix(None), "");
    assert_eq!(alpha_suffix(Some(5)), " / 5%");
    assert_eq!(alpha_suffix(Some(100)), " / 100%");
}

#[test]
fn css_rgb_string() {
    assert_eq!(rgb_to_css_string((1, 22, 255), None), "rgb(1, 22, 255)");
    assert_eq!(rgb_to_css_string((1, 22, 255), Some(50)), "rgb(1 22 255 / 50%)");
    assert_eq!(rgb_to_css_string((0, 0, 0), Some(0)), "rgb(0 0 0 / 0%)");
}

#[test]
fn css_hsl_hsv_lab_strings() {
    assert_eq!(format_hsl(210, 50, 40, None), "hsl(210, 50%, 40%)");
    assert_eq!(format_hsl(0, 0, 100, Some(80)), "hsl(0, 0%, 100% / 80%)");
    assert_eq!(format_hsv(359, 100, 7, None), "hsv(359, 100%, 7%)");
    assert_eq!(format_hsv(65535, 0, 0, Some(1)), "hsv(65535, 0%, 0% / 1%)");
    assert_eq!(format_lab(-5, 0, 127, None), "lab(-5, 0, 127)");
    assert_eq!(format_lab(i16::MIN, -128, 100, Some(42)), "lab(-32768, -128, 100 / 42%)");
}

#[test]
fn hex_hash_optional_on_examples() {
    for s in ["abc", "abcd", "a1b2c3", "a1b2c3d4", "+1+2+3", "12345", "", "\u{e9}", "a\u{e9}bcd"] {
        assert_eq!(hex_to_rgb(&format!("#{}", s)), hex_to_rgb(s));
    }
}

#[test]
fn hex_trims_unicode_white_space_only() {
    assert_eq!(hex_to_rgb("\u{85}fff\u{2028}"), Some(((255, 255, 255), 255)));
    assert_eq!(hex_to_rgb("\t\r\n fff \u{b}\u{c}"), Some(((255, 255, 255), 255)));
    assert_eq!(hex_to_rgb("\u{1c}fff"), None);
    assert_eq!(hex_to_rgb("\u{feff}fff"), None);
    assert_eq!(hex_to_rgb("\u{180e}fff"), None);
}
