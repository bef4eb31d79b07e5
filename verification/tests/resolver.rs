//! The palette resolver: declaration-order evaluation, its three failure
//! modes, and the full dogrun palette.

use dogrun::PaletteError;
use dogrun::conv::darken;
use dogrun::highlight::{Definition, get_palette, resolve};

#[test]
fn undefined_reference_fails() {
    let defs = vec![
        Definition::Derived { name: "b", parent: "a", h: 0, s: 0, v: -200 },
        Definition::Literal { name: "a", hex: "#347ba1" },
    ];
    let err = resolve(&defs).err().expect("forward reference must fail");
    assert!(matches!(err, PaletteError::UndefinedColorReference(_)));
    assert_eq!(err.subject(), "a");
}

#[test]
fn alias_to_undefined_fails() {
    let defs = vec![Definition::Alias { name: "b", parent: "missing" }];
    let err = resolve(&defs).err().expect("alias to nothing must fail");
    assert!(matches!(err, PaletteError::UndefinedColorReference(_)));
    assert_eq!(err.subject(), "missing");
}

#[test]
fn duplicate_name_fails() {
    let defs = vec![
        Definition::Literal { name: "a", hex: "#112233" },
        Definition::Literal { name: "a", hex: "#445566" },
    ];
    let err = resolve(&defs).err().expect("second definition of a must fail");
    assert!(matches!(err, PaletteError::DuplicateColorName(_)));
    assert_eq!(err.subject(), "a");
}

#[test]
fn malformed_literal_fails() {
    let defs = vec![Definition::Literal { name: "a", hex: "#12g456" }];
    let err = resolve(&defs).err().expect("malformed hex must fail");
    assert!(matches!(err, PaletteError::InvalidColorFormat(_)));
    assert_eq!(err.subject(), "#12g456");
}

#[test]
fn alias_copies_parent_verbatim() {
    let defs = vec![
        Definition::Literal { name: "a", hex: "#347ba1" },
        Definition::Alias { name: "b", parent: "a" },
    ];
    let palette = resolve(&defs).unwrap();
    let a = palette.get("a").unwrap();
    let b = palette.get("b").unwrap();
    assert_eq!(a.gui, "#347ba1");
    assert_eq!(b.gui, a.gui);
    assert_eq!(b.cterm, a.cterm);
}

#[test]
fn derived_color_matches_operator_chain() {
    let defs = vec![
        Definition::Literal { name: "red", hex: "#dc6f7a" },
        Definition::Derived { name: "darkred", parent: "red", h: 0, s: 0, v: -200 },
    ];
    let palette = resolve(&defs).unwrap();
    let expected = darken("#dc6f7a", 200).unwrap();
    assert_eq!(palette.get("darkred").unwrap().gui, expected);
}

#[test]
fn resolver_is_fail_fast() {
    let defs = vec![
        Definition::Literal { name: "a", hex: "#112233" },
        Definition::Derived { name: "b", parent: "zzz", h: 0, s: 0, v: 0 },
        Definition::Literal { name: "a", hex: "#445566" },
    ];
    let err = resolve(&defs).err().expect("first failure must win");
    assert!(matches!(err, PaletteError::UndefinedColorReference(_)));
    assert_eq!(err.subject(), "zzz");
}

#[test]
fn full_palette_resolves() {
    let palette = get_palette().unwrap();
    assert_eq!(palette.len(), 109);
    assert_eq!(palette.get("red").unwrap().gui, "#dc6f7a");
    assert_eq!(palette.get("mainbg").unwrap().gui, "#222433");
    assert_eq!(palette.get("white").unwrap().gui, "#ffffff");
    assert_eq!(palette.get("black").unwrap().gui, "#000000");
    assert_eq!(palette.get("black").unwrap().cterm, "0");
    assert_eq!(palette.get("white").unwrap().cterm, "15");
    assert!(palette.get("nosuchcolor").is_none());
}

#[test]
fn palette_keeps_declaration_order() {
    let palette = get_palette().unwrap();
    assert_eq!(palette.name_at(0), "red");
    assert_eq!(palette.name_at(1), "darkred");
    assert_eq!(palette.name_at(108), "xlinegradientfg");
}

#[test]
fn derived_entries_match_their_chains() {
    let palette = get_palette().unwrap();
    let red = palette.get("red").unwrap().gui.clone();
    let expected = darken(&red, 200).unwrap();
    assert_eq!(palette.get("darkred").unwrap().gui, expected);
}
