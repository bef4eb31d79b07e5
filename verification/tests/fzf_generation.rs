//! The palette colors the fuzzy-finder export leans on.

use dogrun::highlight::get_palette;

#[test]
fn test_fzf_export_format_expectations() {
    let palette = get_palette().unwrap();

    assert!(palette.contains_key("weakfg"), "palette should contain weakfg");
    assert!(palette.contains_key("mainbg"), "palette should contain mainbg");
    assert!(palette.contains_key("emphasisfg"), "palette should contain emphasisfg");
    assert!(palette.contains_key("visualbg"), "palette should contain visualbg");
    assert!(palette.contains_key("purple"), "palette should contain purple");
    assert!(palette.contains_key("linenrfg"), "palette should contain linenrfg");
    assert!(palette.contains_key("pink"), "palette should contain pink");
    assert!(palette.contains_key("teal"), "palette should contain teal");
}

/// Whether a string is a lowercase `#rrggbb` color.
fn is_lower_hex(s: &str) -> bool {
    let bytes = s.as_bytes();
    if bytes.len() != 7 || bytes[0] != b'#' {
        return false;
    }
    bytes[1..].iter().all(|b| b.is_ascii_digit() || (b'a'..=b'f').contains(b))
}

#[test]
fn test_palette_colors_are_hex_format() {
    let palette = get_palette().unwrap();

    let required_colors = vec![
        "weakfg", "mainbg", "emphasisfg", "visualbg", "purple", "linenrfg", "pink", "teal",
    ];

    for color_name in required_colors {
        let color = palette
            .get(color_name)
            .unwrap_or_else(|| panic!("missing color: {}", color_name));
        assert!(
            is_lower_hex(&color.gui),
            "{} should be valid hex: {}",
            color_name,
            color.gui
        );
    }
}

#[test]
fn test_fzf_required_keys() {
    let expected_keys = vec![
        "fg", "bg", "hl", "fg+", "bg+", "hl+", "info", "prompt", "pointer", "marker", "spinner",
        "header", "border", "gutter",
    ];

    assert_eq!(expected_keys.len(), 14);
}
