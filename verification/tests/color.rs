use qr_render::color::{hex_to_rgb, is_valid_hex_color, parse_hex_color, parse_rgb};
use qr_render::decimal::decimal_string;

#[test]
fn accepts_three_and_six_digit_literals() {
    assert_eq!(parse_hex_color("#000"), Ok("#000".to_string()));
    assert_eq!(parse_hex_color("#FFF"), Ok("#FFF".to_string()));
    assert_eq!(parse_hex_color("#a1B2c3"), Ok("#a1B2c3".to_string()));
    assert!(is_valid_hex_color("#09f"));
    assert!(is_valid_hex_color("#09afAF"));
}

#[test]
fn rejects_wrong_lengths() {
    for literal in ["", "#", "#1", "#12", "#1234", "#12345", "#1234567", "#123456789"] {
        assert_eq!(
            parse_hex_color(literal),
            Err(format!("{literal} is not a valid hex color code"))
        );
        assert!(!is_valid_hex_color(literal));
    }
}

#[test]
fn rejects_non_hex_characters() {
    for literal in ["#ggg", "#12345z", "#12 ", "#-12", "#+12345", "#\u{e9}\u{e9}\u{e9}", "#ab\u{ff11}"] {
        assert_eq!(
            parse_hex_color(literal),
            Err(format!("{literal} is not a valid hex color code"))
        );
    }
}

#[test]
fn rejects_missing_or_misplaced_hash() {
    for literal in ["fff", "ffff", "ffffff", "fffffff", "fff#", "0#ff", "##ff", " #fff", "#fff\n"] {
        assert_eq!(
            parse_hex_color(literal),
            Err(format!("{literal} is not a valid hex color code"))
        );
    }
}

#[test]
fn converts_six_digit_literals() {
    assert_eq!(hex_to_rgb("#000000"), [0, 0, 0]);
    assert_eq!(hex_to_rgb("#ffffff"), [255, 255, 255]);
    assert_eq!(hex_to_rgb("#102030"), [16, 32, 48]);
    assert_eq!(hex_to_rgb("#a1B2c3"), [161, 178, 195]);
    assert_eq!(hex_to_rgb("#09afAF"), [9, 175, 175]);
}

#[test]
fn short_literal_doubles_each_digit() {
    assert_eq!(hex_to_rgb("#abc"), hex_to_rgb("#aabbcc"));
    assert_eq!(hex_to_rgb("#abc"), [170, 187, 204]);
    assert_eq!(hex_to_rgb("#0F0"), [0, 255, 0]);
    assert_eq!(hex_to_rgb("#0F0"), hex_to_rgb("#00FF00"));
    assert_eq!(hex_to_rgb("#123"), [17, 34, 51]);
    assert_eq!(hex_to_rgb("#000"), [0, 0, 0]);
    assert_eq!(hex_to_rgb("#FFF"), [255, 255, 255]);
}

#[test]
fn every_short_literal_equals_its_long_form() {
    let digits: Vec<char> = "0123456789abcdefABCDEF".chars().collect();
    for &r in &digits {
        for &g in &digits {
            for &b in &digits {
                let short = format!("#{r}{g}{b}");
                let long = format!("#{r}{r}{g}{g}{b}{b}");
                assert_eq!(parse_rgb(&short), parse_rgb(&long));
                assert!(parse_rgb(&short).is_ok());
            }
        }
    }
}

#[test]
fn hex_digits_ignore_case() {
    assert_eq!(hex_to_rgb("#abcdef"), hex_to_rgb("#ABCDEF"));
    assert_eq!(hex_to_rgb("#abcdef"), [171, 205, 239]);
    assert_eq!(hex_to_rgb("#AbC"), hex_to_rgb("#aBc"));
}

#[test]
fn parse_rgb_gives_channels_or_the_rejection() {
    assert_eq!(parse_rgb("#0f0"), Ok([0, 255, 0]));
    assert_eq!(parse_rgb("#336699"), Ok([51, 102, 153]));
    assert_eq!(parse_rgb("336699"), Err("336699 is not a valid hex color code".to_string()));
    assert_eq!(parse_rgb("#33669"), Err("#33669 is not a valid hex color code".to_string()));
    assert_eq!(parse_rgb("#33669g"), Err("#33669g is not a valid hex color code".to_string()));
}

#[test]
fn decimal_numerals() {
    assert_eq!(decimal_string(0), "0");
    assert_eq!(decimal_string(7), "7");
    assert_eq!(decimal_string(10), "10");
    assert_eq!(decimal_string(109), "109");
    assert_eq!(decimal_string(1234567890), "1234567890");
    assert_eq!(decimal_string(u128::MAX), u128::MAX.to_string());
}
