//! The hex codec and the operator algebra on concrete values: round trips,
//! identity edits, the lighten/darken mirror, distance and the matcher.

use dogrun::conv::{Rgb, darken, distance, from_hex, hue, lighten, saturate, to_cterm, to_hex};
use dogrun::highlight::{Definition, resolve};

#[test]
fn hex_round_trip_lowercases() {
    assert_eq!(to_hex(from_hex("#AbCdEf").unwrap()), "#abcdef");
    assert_eq!(to_hex(from_hex("#347BA1").unwrap()), "#347ba1");
    assert_eq!(to_hex(from_hex("#000000").unwrap()), "#000000");
}

#[test]
fn hex_parse_format_round_trip() {
    let c = Rgb { r: 1, g: 2, b: 3 };
    assert_eq!(to_hex(c), "#010203");
    assert_eq!(from_hex(&to_hex(c)).unwrap(), c);
}

#[test]
fn malformed_hex_is_rejected() {
    for bad in ["", "347ba1", "#347ba", "#347ba12", "#34 7ba1", "#3g7ba1", "34#7ba1"] {
        assert!(from_hex(bad).is_err(), "{} should be rejected", bad);
        let err = hue(bad, 0).err().expect("operator must reject it too");
        assert_eq!(err.subject(), bad);
    }
}

#[test]
fn hue_full_turn_is_identity() {
    for c in ["#347ba1", "#dc6f7a", "#000000", "#ffffff", "#808080"] {
        assert_eq!(hue(c, 360_000).unwrap(), c, "full turn on {}", c);
        assert_eq!(hue(c, 0).unwrap(), c, "no turn on {}", c);
    }
}

#[test]
fn zero_edits_are_identity() {
    for c in ["#347ba1", "#dc6f7a", "#000000", "#ffffff", "#73c1a9"] {
        assert_eq!(saturate(c, 0).unwrap(), c, "saturate 0 on {}", c);
        assert_eq!(darken(c, 0).unwrap(), c, "darken 0 on {}", c);
        assert_eq!(lighten(c, 0).unwrap(), c, "lighten 0 on {}", c);
    }
}

#[test]
fn lighten_mirrors_darken() {
    for c in ["#347ba1", "#dc6f7a", "#222433", "#9ea3c0"] {
        for a in [-500i64, -200, -1, 0, 1, 200, 500, 2000] {
            assert_eq!(lighten(c, a).unwrap(), darken(c, -a).unwrap(), "{} by {}", c, a);
        }
    }
}

#[test]
fn saturation_clamps() {
    assert_eq!(saturate("#347ba1", 5_000).unwrap(), saturate("#347ba1", 1_000).unwrap());
    assert_eq!(saturate("#347ba1", -5_000).unwrap(), saturate("#347ba1", -1_000).unwrap());
    assert_eq!(darken("#347ba1", 5_000).unwrap(), "#000000");
}

#[test]
fn distance_of_equal_colors_is_zero() {
    for c in ["#347ba1", "#000000", "#ffffff", "#dc6f7a"] {
        assert_eq!(distance(c, c).unwrap(), 0, "distance of {} to itself", c);
    }
    assert_eq!(distance("#AbCdEf", "#abcdef").unwrap(), 0);
    assert!(distance("#000000", "#ffffff").unwrap() > 0);
}

#[test]
fn terminal_index_renders_in_decimal() {
    // One, two and three decimal digits, through resolved palette entries.
    let defs = vec![
        Definition::Literal { name: "ink", hex: "#000000" },
        Definition::Literal { name: "snow", hex: "#ffffff" },
        Definition::Literal { name: "sand", hex: "#d7d7af" },
    ];
    let palette = resolve(&defs).unwrap();
    assert_eq!(palette.get("ink").unwrap().cterm, "0");
    assert_eq!(palette.get("snow").unwrap().cterm, "15");
    assert_eq!(palette.get("sand").unwrap().cterm, "187");
}

#[test]
fn nearest_match_is_deterministic() {
    for c in ["#00c795", "#347ba1", "#9ea3c0", "#222433"] {
        assert_eq!(to_cterm(c).unwrap(), to_cterm(c).unwrap(), "two calls on {}", c);
    }
}

#[test]
fn exact_table_colors_take_lowest_index() {
    // #000000 stands at indices 0 and 16, #ff0000 at 9 and 196: the tie
    // breaks toward the lowest index.
    assert_eq!(to_cterm("#000000").unwrap(), 0);
    assert_eq!(to_cterm("#ff0000").unwrap(), 9);
    assert_eq!(to_cterm("#ffffff").unwrap(), 15);
    // Cube and grayscale entries appear once and match themselves.
    assert_eq!(to_cterm("#5f8787").unwrap(), 66);
    assert_eq!(to_cterm("#d7d7af").unwrap(), 187);
    assert_eq!(to_cterm("#080808").unwrap(), 232);
}
