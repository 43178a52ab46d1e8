use dockerwatch::percent::{check_number, severity_color, smaller, EIGHTY, FIFTY, INFINITY, SIGN};
use dockerwatch::style::Color;
use dockerwatch::text::{cut_id, cuttable, decimal, join, pad_left, short_id, take_chars, trim_slashes};

#[test]
fn decimals_have_no_leading_zeros() {
    assert_eq!(decimal(0), "0");
    assert_eq!(decimal(7), "7");
    assert_eq!(decimal(10), "10");
    assert_eq!(decimal(1907), "1907");
    assert_eq!(decimal(u128::MAX), u128::MAX.to_string());
}

#[test]
fn padding_counts_characters() {
    assert_eq!(pad_left("id", 11), format!("{:>11}", "id"));
    assert_eq!(pad_left("né", 4), "  né");
    assert_eq!(pad_left("entrypoints!", 11), "entrypoints!");
    assert_eq!(pad_left("", 0), "");
}

#[test]
fn parts_are_joined() {
    let parts = vec!["sh".to_string(), "-c".to_string(), "ls".to_string()];
    assert_eq!(join(&parts, " "), "sh -c ls");
    assert_eq!(join(&vec!["a".to_string()], ", "), "a");
    assert_eq!(join(&Vec::new(), ", "), "");
}

#[test]
fn leading_slashes_go() {
    assert_eq!(trim_slashes("/web"), "web");
    assert_eq!(trim_slashes("//a/b/"), "a/b/");
    assert_eq!(trim_slashes("///"), "");
    assert_eq!(trim_slashes("db"), "db");
}

#[test]
fn characters_are_taken() {
    assert_eq!(take_chars("0123456789abcdef", 12), "0123456789ab");
    assert_eq!(take_chars("ééééé", 3), "ééé");
    assert_eq!(take_chars("abc", 12), "abc");
}

#[test]
fn long_ids_are_shortened() {
    assert_eq!(short_id("0123456789abcdef"), "0123456789ab");
    assert_eq!(short_id("0123456789ab"), "0123456789ab");
    assert_eq!(short_id("abc"), "abc");
    assert_eq!(short_id("éééééééé"), "éééééé");
}

#[test]
fn ids_are_cut_at_whole_characters() {
    assert!(cuttable("0123456789ab"));
    assert!(!cuttable("0123456789a"));
    assert!(!cuttable("0123456789aéb"));
    assert_eq!(cut_id("0123456789abcdef"), "0123456789ab");
}

#[test]
fn thresholds_are_doubles() {
    assert_eq!(EIGHTY, 80.0f64.to_bits());
    assert_eq!(FIFTY, 50.0f64.to_bits());
    assert_eq!(INFINITY, f64::INFINITY.to_bits());
    assert_eq!(SIGN, (-0.0f64).to_bits());
}

#[test]
fn bit_patterns_compare_as_doubles() {
    let values = [0.0f64, -0.0, 1e-300, 0.5, 49.999, 50.0, 80.0, 100.0, f64::INFINITY, -1.0, -250.5];
    for a in values {
        for b in values {
            assert_eq!(smaller(a.to_bits(), b.to_bits()), a < b);
        }
        assert!(check_number(a.to_bits()));
    }
    assert!(!check_number(f64::NAN.to_bits()));
    assert!(!check_number((-f64::NAN).to_bits()));
}

#[test]
fn severity_follows_the_thresholds() {
    for (value, color) in [
        (0.0f64, Color::Green),
        (49.99, Color::Green),
        (50.0, Color::Yellow),
        (79.99, Color::Yellow),
        (80.0, Color::Red),
        (250.0, Color::Red),
        (f64::INFINITY, Color::Red),
        (-90.0, Color::Green),
        (f64::NAN, Color::Green),
    ] {
        assert_eq!(severity_color(value.to_bits()), color);
    }
}
