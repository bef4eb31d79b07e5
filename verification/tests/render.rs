//! The highlight renderer and the rule catalogue against the real palette.

use dogrun::PaletteError;
use dogrun::highlight::{
    Highlight, HighlightAttr, HighlightScope, get_highlights, get_palette, highlight,
    validate_highlights,
};

#[test]
fn renders_foreground_and_background() {
    let palette = get_palette().unwrap();
    let hl = Highlight {
        name: "Normal",
        fg: Some("mainfg"),
        bg: Some("mainbg"),
        sp: None,
        attr: HighlightAttr::Nothing,
        scope: HighlightScope::All,
    };
    let fg = palette.get("mainfg").unwrap();
    let bg = palette.get("mainbg").unwrap();
    let expected = format!(
        "hi Normal guifg={} ctermfg={} guibg={} ctermbg={}",
        fg.gui, fg.cterm, bg.gui, bg.cterm
    );
    assert_eq!(highlight(&palette, &hl).unwrap(), expected);
}

#[test]
fn renders_explicit_none_and_attr() {
    let palette = get_palette().unwrap();
    let hl = Highlight {
        name: "NonText",
        fg: Some("darkfg"),
        bg: Some("NONE"),
        sp: None,
        attr: HighlightAttr::Bold,
        scope: HighlightScope::All,
    };
    let fg = palette.get("darkfg").unwrap();
    let expected = format!(
        "hi NonText guifg={} ctermfg={} guibg=NONE ctermbg=NONE gui=bold cterm=bold",
        fg.gui, fg.cterm
    );
    assert_eq!(highlight(&palette, &hl).unwrap(), expected);
}

#[test]
fn renders_attr_only_rule() {
    let palette = get_palette().unwrap();
    let hl = Highlight {
        name: "Underlined",
        fg: None,
        bg: None,
        sp: None,
        attr: HighlightAttr::Underline,
        scope: HighlightScope::All,
    };
    assert_eq!(highlight(&palette, &hl).unwrap(), "hi Underlined gui=underline cterm=underline");
}

#[test]
fn renders_special_color() {
    let palette = get_palette().unwrap();
    let hl = Highlight {
        name: "SpellBad",
        fg: None,
        bg: None,
        sp: Some("errorfg"),
        attr: HighlightAttr::Clear,
        scope: HighlightScope::All,
    };
    let sp = palette.get("errorfg").unwrap();
    let expected = format!("hi SpellBad guisp={} gui=NONE cterm=NONE", sp.gui);
    assert_eq!(highlight(&palette, &hl).unwrap(), expected);
}

#[test]
fn unknown_reference_is_reported() {
    let palette = get_palette().unwrap();
    let hl = Highlight {
        name: "Broken",
        fg: Some("nosuchcolor"),
        bg: None,
        sp: None,
        attr: HighlightAttr::Nothing,
        scope: HighlightScope::All,
    };
    let err = highlight(&palette, &hl).err().expect("unknown name must fail");
    assert!(matches!(err, PaletteError::UndefinedColorReference(_)));
    assert_eq!(err.subject(), "nosuchcolor");
}

#[test]
fn catalogue_resolves_against_palette() {
    let palette = get_palette().unwrap();
    let highlights = get_highlights();
    assert_eq!(highlights.len(), 326);
    assert_eq!(highlights[0].name, "Normal");
    assert!(validate_highlights(&palette, &highlights));
}
