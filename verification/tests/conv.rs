//! The derivation operators and the terminal matcher on concrete colors.
//! Amounts are given in thousandths: 200 stands for 0.2, 180000 for 180
//! degrees. Chained value edits are checked to within one step of an 8-bit
//! channel, since their exact rounding is quantization, not algebra.

use dogrun::conv::{darken, from_hex, hue, lighten, saturate, to_cterm};

/// Whether two color strings differ by at most one step in each 8-bit channel.
fn channels_close(a: &str, b: &str) -> bool {
    let ca = from_hex(a).unwrap();
    let cb = from_hex(b).unwrap();
    let near = |x: u8, y: u8| {
        if x > y {
            x - y <= 1
        } else {
            y - x <= 1
        }
    };
    near(ca.r, cb.r) && near(ca.g, cb.g) && near(ca.b, cb.b)
}

#[test]
fn test_hue() {
    assert_eq!(hue("#ff0000", 0).unwrap(), String::from("#ff0000"));
    assert_eq!(hue("#ff0000", 180_000).unwrap(), String::from("#00ffff"));
}

#[test]
fn test_saturate() {
    assert_eq!(saturate("#ff0000", 0).unwrap(), String::from("#ff0000"));
    assert_eq!(saturate("#ff0000", -100).unwrap(), String::from("#ff1919"));
}

#[test]
fn test_shade() {
    assert_eq!(darken("#ff0000", 0).unwrap(), String::from("#ff0000"));
    assert_eq!(lighten("#ff0000", 0).unwrap(), String::from("#ff0000"));
    assert!(channels_close(&darken("#347ba1", 200).unwrap(), "#23546d"));
    assert!(channels_close(&lighten("#23546d", 200).unwrap(), "#337ba0"));
}

#[test]
fn test_to_cterm() {
    assert_eq!(to_cterm("#00c795").unwrap(), 43);
}
