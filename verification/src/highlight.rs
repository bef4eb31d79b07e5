//! The named palette: ordered color definitions, their resolution into
//! concrete colors (fail-fast on malformed literals, duplicate names and
//! references to names not yet defined), and the highlight-rule catalogue.

use vstd::prelude::*;

use crate::PaletteError;
use crate::SpecPaletteError;
use crate::conv::Rgb;
use crate::conv::hex_char_of;
use crate::conv::parse_hex;
use crate::conv::spec_hue;
use crate::conv::spec_lighten;
use crate::conv::spec_saturate;
use crate::cterm::nearest_terminal;
use vstd::string::StrSliceExecFns;
use vstd::string::StringExecFns;

verus! {

/// One resolved palette color: its `#rrggbb` form for GUI use, and the
/// nearest terminal palette index, already rendered in decimal.
#[derive(Debug)]
pub struct Color {
    pub gui: String,
    pub cterm: String,
}

/// The mathematical form of a `Color`.
pub ghost struct SpecColor {
    pub gui: Seq<char>,
    pub cterm: Seq<char>,
}

impl View for Color {
    type V = SpecColor;

    open spec fn view(&self) -> SpecColor {
        SpecColor { gui: self.gui@, cterm: self.cterm@ }
    }
}

/// One palette definition, evaluated in declaration order. A `Derived`
/// definition takes its parent's color and lightens it by `v`, saturates the
/// result by `s` and rotates its hue by `h` degrees, each amount in
/// thousandths.
pub enum Definition {
    Literal { name: &'static str, hex: &'static str },
    Alias { name: &'static str, parent: &'static str },
    Derived { name: &'static str, parent: &'static str, h: i64, s: i64, v: i64 },
}

/// The mathematical form of a `Definition`.
pub ghost enum SpecDefinition {
    Literal { name: Seq<char>, hex: Seq<char> },
    Alias { name: Seq<char>, parent: Seq<char> },
    Derived { name: Seq<char>, parent: Seq<char>, h: int, s: int, v: int },
}

impl View for Definition {
    type V = SpecDefinition;

    open spec fn view(&self) -> SpecDefinition {
        match self {
            Definition::Literal { name, hex } => SpecDefinition::Literal {
                name: name@,
                hex: hex@,
            },
            Definition::Alias { name, parent } => SpecDefinition::Alias {
                name: name@,
                parent: parent@,
            },
            Definition::Derived { name, parent, h, s, v } => SpecDefinition::Derived {
                name: name@,
                parent: parent@,
                h: *h as int,
                s: *s as int,
                v: *v as int,
            },
        }
    }
}

/// The views of a sequence of definitions.
pub open spec fn defs_view(s: Seq<Definition>) -> Seq<SpecDefinition> {
    s.map_values(|d: Definition| d@)
}

/// One entry of the resolved palette.
pub struct PaletteEntry {
    pub name: &'static str,
    pub color: Color,
}

/// The mathematical form of a `PaletteEntry`.
pub ghost struct SpecEntry {
    pub name: Seq<char>,
    pub color: SpecColor,
}

impl View for PaletteEntry {
    type V = SpecEntry;

    open spec fn view(&self) -> SpecEntry {
        SpecEntry { name: self.name@, color: self.color@ }
    }
}

/// The views of a sequence of palette entries.
pub open spec fn entries_view(s: Seq<PaletteEntry>) -> Seq<SpecEntry> {
    s.map_values(|e: PaletteEntry| e@)
}

/// The color under `name` among the entries from position `i` on: the first
/// entry with that name wins.
pub open spec fn lookup_from(p: Seq<SpecEntry>, name: Seq<char>, i: int) -> Option<SpecColor>
    decreases p.len() - i,
{
    if i < 0 || i >= p.len() {
        None
    } else if p[i].name == name {
        Some(p[i].color)
    } else {
        lookup_from(p, name, i + 1)
    }
}

/// The color under `name`, or `None` where no entry has that name.
pub open spec fn lookup(p: Seq<SpecEntry>, name: Seq<char>) -> Option<SpecColor> {
    lookup_from(p, name, 0)
}

/// The decimal rendering of a number below 1000, without leading zeros.
pub open spec fn spec_decimal(n: int) -> Seq<char> {
    if n < 10 {
        seq![hex_char_of(n)]
    } else if n < 100 {
        seq![hex_char_of(n / 10), hex_char_of(n % 10)]
    } else {
        seq![hex_char_of(n / 100), hex_char_of((n / 10) % 10), hex_char_of(n % 10)]
    }
}

/// The rendered terminal index of a color: the nearest entry of the terminal
/// palette, in decimal.
pub open spec fn spec_cterm_of(c: Rgb) -> Seq<char> {
    spec_decimal(nearest_terminal(c))
}

/// The derivation chain applied to a parent color: lighten by `v`, saturate
/// by `s`, rotate hue by `h`. On failure, the offending color string.
pub open spec fn spec_derive(hex: Seq<char>, h: int, s: int, v: int) -> Result<Seq<char>, Seq<char>> {
    match spec_lighten(hex, v) {
        None => Err(hex),
        Some(x1) => match spec_saturate(x1, s) {
            None => Err(x1),
            Some(x2) => match spec_hue(x2, h) {
                None => Err(x2),
                Some(x3) => Ok(x3),
            },
        },
    }
}

/// A literal insertion: the hex string must be well-formed and the name not
/// yet taken; the entry records the string as written and the terminal index
/// of the color it denotes.
pub open spec fn step_insert(p: Seq<SpecEntry>, name: Seq<char>, hex: Seq<char>) -> Result<
    Seq<SpecEntry>,
    SpecPaletteError,
> {
    match parse_hex(hex) {
        None => Err(SpecPaletteError::InvalidColorFormat(hex)),
        Some(c) => if lookup(p, name) is Some {
            Err(SpecPaletteError::DuplicateColorName(name))
        } else {
            Ok(p.push(SpecEntry { name, color: SpecColor { gui: hex, cterm: spec_cterm_of(c) } }))
        },
    }
}

/// One resolution step: what processing one definition does to the palette
/// built so far, or the error that aborts the build.
pub open spec fn step(p: Seq<SpecEntry>, d: SpecDefinition) -> Result<
    Seq<SpecEntry>,
    SpecPaletteError,
> {
    match d {
        SpecDefinition::Literal { name, hex } => step_insert(p, name, hex),
        SpecDefinition::Alias { name, parent } => match lookup(p, parent) {
            None => Err(SpecPaletteError::UndefinedColorReference(parent)),
            Some(pc) => step_insert(p, name, pc.gui),
        },
        SpecDefinition::Derived { name, parent, h, s, v } => match lookup(p, parent) {
            None => Err(SpecPaletteError::UndefinedColorReference(parent)),
            Some(pc) => match spec_derive(pc.gui, h, s, v) {
                Err(bad) => Err(SpecPaletteError::InvalidColorFormat(bad)),
                Ok(hex) => step_insert(p, name, hex),
            },
        },
    }
}

/// The palette an ordered list of definitions resolves to, or the first
/// error: a sequential fold in declaration order, aborting on any failure.
pub open spec fn spec_resolve(defs: Seq<SpecDefinition>) -> Result<Seq<SpecEntry>, SpecPaletteError>
    decreases defs.len(),
{
    if defs.len() == 0 {
        Ok(Seq::empty())
    } else {
        match spec_resolve(defs.drop_last()) {
            Err(e) => Err(e),
            Ok(p) => step(p, defs.last()),
        }
    }
}

/// No two palette entries share a name.
pub open spec fn unique_names(p: Seq<SpecEntry>) -> bool {
    forall|i: int, j: int| 0 <= i < j < p.len() ==> (#[trigger] p[i]).name != (#[trigger] p[j]).name
}

/// A name that `lookup_from` misses belongs to no entry from that position on.
proof fn lemma_lookup_from_none(p: Seq<SpecEntry>, name: Seq<char>, i: int)
    requires
        0 <= i,
        lookup_from(p, name, i) is None,
    ensures
        forall|k: int| i <= k < p.len() ==> (#[trigger] p[k]).name != name,
    decreases p.len() - i,
{
    if 0 <= i && i < p.len() {
        lemma_lookup_from_none(p, name, i + 1);
    }
}

/// A resolved palette never holds two entries of the same name: a duplicate
/// definition would have aborted the build.
pub proof fn lemma_resolved_names_unique(defs: Seq<SpecDefinition>)
    ensures
        spec_resolve(defs) matches Ok(p) ==> unique_names(p),
    decreases defs.len(),
{
    if defs.len() > 0 {
        lemma_resolved_names_unique(defs.drop_last());
        if spec_resolve(defs) is Ok {
            let p = spec_resolve(defs.drop_last())->Ok_0;
            let q = spec_resolve(defs)->Ok_0;
            let last = q.last();
            assert(lookup(p, last.name) is None);
            lemma_lookup_from_none(p, last.name, 0);
            assert forall|i: int, j: int| 0 <= i < j < q.len() implies (#[trigger] q[i]).name != (#[trigger] q[j]).name by {
                if j < q.len() - 1 {
                    assert(q[i] == p[i] && q[j] == p[j]);
                } else {
                    assert(q[i] == p[i]);
                }
            }
        }
    }
}

/// Referencing a name before it is defined aborts the whole build with
/// `UndefinedColorReference` naming the missing parent, whatever follows.
pub proof fn lemma_undefined_reference_rejected(defs: Seq<SpecDefinition>, j: int, parent: Seq<char>)
    requires
        0 <= j < defs.len(),
        spec_resolve(defs.take(j)) matches Ok(p) && (match defs[j] {
            SpecDefinition::Alias { parent: q, .. } => q == parent && lookup(p, parent) is None,
            SpecDefinition::Derived { parent: q, .. } => q == parent && lookup(p, parent) is None,
            _ => false,
        }),
    ensures
        spec_resolve(defs) == Err::<Seq<SpecEntry>, _>(
            SpecPaletteError::UndefinedColorReference(parent),
        ),
{
    assert(defs.take(j + 1).drop_last() =~= defs.take(j));
    assert(defs.take(j + 1).last() == defs[j]);
    lemma_resolve_error_sticks(defs, j + 1);
}

/// Defining a name twice aborts the whole build with `DuplicateColorName`
/// naming the offender, whatever follows.
pub proof fn lemma_duplicate_name_rejected(defs: Seq<SpecDefinition>, j: int, name: Seq<char>)
    requires
        0 <= j < defs.len(),
        spec_resolve(defs.take(j)) matches Ok(p) && (match defs[j] {
            SpecDefinition::Literal { name: n, hex } => n == name && parse_hex(hex) is Some
                && lookup(p, name) is Some,
            _ => false,
        }),
    ensures
        spec_resolve(defs) == Err::<Seq<SpecEntry>, _>(
            SpecPaletteError::DuplicateColorName(name),
        ),
{
    assert(defs.take(j + 1).drop_last() =~= defs.take(j));
    assert(defs.take(j + 1).last() == defs[j]);
    lemma_resolve_error_sticks(defs, j + 1);
}

/// Whether two strings hold the same characters.
fn str_eq(a: &str, b: &str) -> (r: bool)
    ensures
        r == (a@ == b@),
{
    let na = a.unicode_len();
    let nb = b.unicode_len();
    if na != nb {
        return false;
    }
    let mut i: usize = 0;
    while i < na
        invariant
            0 <= i <= na,
            na == a@.len(),
            na == b@.len(),
            forall|j: int| 0 <= j < i ==> a@[j] == b@[j],
        decreases na - i,
    {
        if a.get_char(i) != b.get_char(i) {
            return false;
        }
        i = i + 1;
    }
    proof {
        assert(a@ =~= b@);
    }
    true
}

/// The decimal rendering of a terminal index, executable form.
fn decimal_string(n: usize) -> (res: String)
    requires
        n < 256,
    ensures
        res@ == spec_decimal(n as int),
{
    let mut out = String::new();
    if n < 10 {
        out.append(crate::conv::hex_char_str((n % 10) as u8));
    } else if n < 100 {
        out.append(crate::conv::hex_char_str((n / 10) as u8));
        out.append(crate::conv::hex_char_str((n % 10) as u8));
    } else {
        out.append(crate::conv::hex_char_str((n / 100) as u8));
        out.append(crate::conv::hex_char_str(((n / 10) % 10) as u8));
        out.append(crate::conv::hex_char_str((n % 10) as u8));
    }
    proof {
        assert(out@ =~= spec_decimal(n as int));
    }
    out
}

/// The resolved palette: an insertion-ordered mapping from color names to
/// resolved colors, with unique names.
pub struct Palette {
    entries: Vec<PaletteEntry>,
}

impl View for Palette {
    type V = Seq<SpecEntry>;

    closed spec fn view(&self) -> Seq<SpecEntry> {
        entries_view(self.entries@)
    }
}

/// The color under `name` among the first entries of `entries`, scanning
/// from the front.
fn find_color<'a>(entries: &'a Vec<PaletteEntry>, name: &str) -> (res: Option<&'a Color>)
    ensures
        match res {
            Some(c) => lookup(entries_view(entries@), name@) == Some(c@),
            None => lookup(entries_view(entries@), name@) is None,
        },
{
    let ghost p = entries_view(entries@);
    let mut i: usize = 0;
    while i < entries.len()
        invariant
            0 <= i <= entries.len(),
            p == entries_view(entries@),
            p.len() == entries@.len(),
            lookup(p, name@) == lookup_from(p, name@, i as int),
        decreases entries.len() - i,
    {
        if str_eq(entries[i].name, name) {
            return Some(&entries[i].color);
        }
        i = i + 1;
    }
    None
}

impl Palette {
    /// The number of resolved colors.
    pub fn len(&self) -> (n: usize)
        ensures
            n == self@.len(),
    {
        self.entries.len()
    }

    /// The color under `name`, if one was defined.
    pub fn get<'a>(&'a self, name: &str) -> (res: Option<&'a Color>)
        ensures
            match res {
                Some(c) => lookup(self@, name@) == Some(c@),
                None => lookup(self@, name@) is None,
            },
    {
        find_color(&self.entries, name)
    }

    /// Whether a color of that name was defined.
    pub fn contains_key(&self, name: &str) -> (r: bool)
        ensures
            r == (lookup(self@, name@) is Some),
    {
        match self.get(name) {
            Some(_) => true,
            None => false,
        }
    }

    /// The name of entry `i`, in declaration order.
    pub fn name_at(&self, i: usize) -> (name: &'static str)
        requires
            i < self@.len(),
        ensures
            name@ == self@[i as int].name,
    {
        self.entries[i].name
    }

    /// The color of entry `i`, in declaration order.
    pub fn color_at<'a>(&'a self, i: usize) -> (c: &'a Color)
        requires
            i < self@.len(),
        ensures
            c@ == self@[i as int].color,
    {
        &self.entries[i].color
    }
}

/// An error in a prefix of the definitions is the error of the whole list:
/// resolution is fail-fast.
proof fn lemma_resolve_error_sticks(defs: Seq<SpecDefinition>, j: int)
    requires
        0 <= j <= defs.len(),
        spec_resolve(defs.take(j)) is Err,
    ensures
        spec_resolve(defs) == spec_resolve(defs.take(j)),
    decreases defs.len() - j,
{
    if j == defs.len() {
        assert(defs.take(j) =~= defs);
    } else {
        assert(defs.take(j + 1).drop_last() =~= defs.take(j));
        assert(spec_resolve(defs.take(j + 1)) == spec_resolve(defs.take(j)));
        lemma_resolve_error_sticks(defs, j + 1);
    }
}

/// Resolves an ordered list of definitions into a palette, or the first
/// error, exactly as `spec_resolve` folds them.
pub fn resolve(defs: &Vec<Definition>) -> (res: Result<Palette, PaletteError>)
    ensures
        match res {
            Ok(p) => spec_resolve(defs_view(defs@)) == Ok::<_, SpecPaletteError>(p@),
            Err(e) => spec_resolve(defs_view(defs@)) == Err::<Seq<SpecEntry>, _>(e@),
        },
{
    let ghost dv = defs_view(defs@);
    let mut entries: Vec<PaletteEntry> = Vec::new();
    let mut i: usize = 0;
    proof {
        assert(dv.take(0) =~= Seq::<SpecDefinition>::empty());
        assert(entries_view(entries@) =~= Seq::<SpecEntry>::empty());
    }
    while i < defs.len()
        invariant
            0 <= i <= defs.len(),
            dv == defs_view(defs@),
            dv.len() == defs@.len(),
            spec_resolve(dv.take(i as int)) == Ok::<_, SpecPaletteError>(entries_view(entries@)),
        decreases defs.len() - i,
    {
        proof {
            assert(dv.take(i + 1).drop_last() =~= dv.take(i as int));
            assert(dv.take(i + 1).last() == dv[i as int]);
        }
        let ghost before = entries_view(entries@);
        match &defs[i] {
            Definition::Literal { name, hex } => {
                match insert_entry(&mut entries, name, String::from_str(hex)) {
                    Ok(()) => {},
                    Err(e) => {
                        proof {
                            lemma_resolve_error_sticks(dv, i + 1);
                        }
                        return Err(e);
                    },
                }
            },
            Definition::Alias { name, parent } => {
                let gui = match find_color(&entries, parent) {
                    Some(c) => c.gui.clone(),
                    None => {
                        proof {
                            lemma_resolve_error_sticks(dv, i + 1);
                        }
                        return Err(
                            PaletteError::UndefinedColorReference(String::from_str(parent)),
                        );
                    },
                };
                match insert_entry(&mut entries, name, gui) {
                    Ok(()) => {},
                    Err(e) => {
                        proof {
                            lemma_resolve_error_sticks(dv, i + 1);
                        }
                        return Err(e);
                    },
                }
            },
            Definition::Derived { name, parent, h, s, v } => {
                let gui = match find_color(&entries, parent) {
                    Some(c) => c.gui.clone(),
                    None => {
                        proof {
                            lemma_resolve_error_sticks(dv, i + 1);
                        }
                        return Err(
                            PaletteError::UndefinedColorReference(String::from_str(parent)),
                        );
                    },
                };
                let derived = match derive_hex(&gui, *h, *s, *v) {
                    Ok(d) => d,
                    Err(e) => {
                        proof {
                            lemma_resolve_error_sticks(dv, i + 1);
                        }
                        return Err(e);
                    },
                };
                match insert_entry(&mut entries, name, derived) {
                    Ok(()) => {},
                    Err(e) => {
                        proof {
                            lemma_resolve_error_sticks(dv, i + 1);
                        }
                        return Err(e);
                    },
                }
            },
        }
        i = i + 1;
    }
    proof {
        assert(dv.take(defs@.len() as int) =~= dv);
    }
    Ok(Palette { entries })
}

/// Applies the derivation chain to a parent color string: lighten, saturate,
/// then rotate hue, each exactly as the specification folds them.
fn derive_hex(gui: &String, h: i64, s: i64, v: i64) -> (res: Result<String, PaletteError>)
    ensures
        match res {
            Ok(out) => spec_derive(gui@, h as int, s as int, v as int) == Ok::<_, Seq<char>>(out@),
            Err(e) => spec_derive(gui@, h as int, s as int, v as int) matches Err(bad) && (e
                matches PaletteError::InvalidColorFormat(b) && b@ == bad),
        },
{
    let c0 = match crate::conv::from_hex(gui.as_str()) {
        Ok(c) => c,
        Err(e) => {
            return Err(e);
        },
    };
    let c1 = crate::conv::value_rgb(c0, v, false);
    let c2 = crate::conv::saturate_rgb(c1, s);
    let c3 = crate::conv::hue_rgb(c2, h);
    proof {
        crate::conv::lemma_hex_parse_format(crate::conv::val_shift(c0, v as int));
        crate::conv::lemma_hex_parse_format(
            crate::conv::sat_shift(crate::conv::val_shift(c0, v as int), s as int),
        );
    }
    Ok(crate::conv::to_hex(c3))
}

/// Inserts a literal color string under a name: rejects a malformed string,
/// then a duplicate name, and otherwise appends the entry with its terminal
/// index.
fn insert_entry(entries: &mut Vec<PaletteEntry>, name: &'static str, hex: String) -> (res: Result<
    (),
    PaletteError,
>)
    ensures
        match res {
            Ok(()) => step_insert(entries_view(old(entries)@), name@, hex@) == Ok::<
                _,
                SpecPaletteError,
            >(entries_view(final (entries)@)),
            Err(e) => step_insert(entries_view(old(entries)@), name@, hex@) == Err::<
                Seq<SpecEntry>,
                _,
            >(e@) && final (entries)@ == old(entries)@,
        },
{
    let c = match crate::conv::from_hex(hex.as_str()) {
        Ok(c) => c,
        Err(e) => {
            return Err(e);
        },
    };
    if contains_name(entries, name) {
        return Err(PaletteError::DuplicateColorName(String::from_str(name)));
    }
    let idx = crate::cterm::nearest_terminal_index(c);
    let entry = PaletteEntry { name, color: Color { gui: hex, cterm: decimal_string(idx) } };
    entries.push(entry);
    proof {
        assert(entries_view(entries@) =~= entries_view(old(entries)@).push(
            SpecEntry {
                name: name@,
                color: SpecColor {
                    gui: hex@,
                    cterm: spec_cterm_of(parse_hex(hex@)->Some_0),
                },
            },
        ));
    }
    Ok(())
}

/// Whether an entry of that name is already present.
fn contains_name(entries: &Vec<PaletteEntry>, name: &str) -> (r: bool)
    ensures
        r == (lookup(entries_view(entries@), name@) is Some),
{
    match find_color(entries, name) {
        Some(_) => true,
        None => false,
    }
}

/// The base palette colors and their darker shades.
pub open spec fn defs_shades() -> Seq<SpecDefinition> {
    seq![
        SpecDefinition::Literal { name: "red"@, hex: "#dc6f7a"@ },
        SpecDefinition::Derived { name: "darkred"@, parent: "red"@, h: 0, s: 0, v: -200 },
        SpecDefinition::Literal { name: "pink"@, hex: "#b871b8"@ },
        SpecDefinition::Derived { name: "darkpink"@, parent: "pink"@, h: 0, s: -50, v: -350 },
        SpecDefinition::Literal { name: "purple"@, hex: "#929be5"@ },
        SpecDefinition::Derived { name: "darkpurple"@, parent: "purple"@, h: 0, s: 50, v: -150 },
        SpecDefinition::Derived { name: "darkestpurple"@, parent: "purple"@, h: 0, s: 50, v: -420 },
        SpecDefinition::Literal { name: "blue"@, hex: "#589ec6"@ },
        SpecDefinition::Derived { name: "darkblue"@, parent: "blue"@, h: 0, s: 0, v: -200 },
        SpecDefinition::Derived { name: "darkestblue"@, parent: "blue"@, h: 0, s: 50, v: -480 },
        SpecDefinition::Literal { name: "cyan"@, hex: "#59b6b6"@ },
        SpecDefinition::Derived { name: "darkcyan"@, parent: "cyan"@, h: 0, s: 0, v: -200 },
        SpecDefinition::Literal { name: "teal"@, hex: "#73c1a9"@ },
        SpecDefinition::Derived { name: "darkteal"@, parent: "teal"@, h: 0, s: 0, v: -200 },
        SpecDefinition::Derived { name: "darkestteal"@, parent: "teal"@, h: 0, s: 50, v: -480 },
        SpecDefinition::Literal { name: "green"@, hex: "#7cbe8c"@ },
        SpecDefinition::Derived { name: "darkgreen"@, parent: "green"@, h: 0, s: -50, v: -400 },
        SpecDefinition::Literal { name: "yellow"@, hex: "#a8a384"@ },
        SpecDefinition::Derived { name: "darkyellow"@, parent: "yellow"@, h: 0, s: -150, v: -500 },
        SpecDefinition::Literal { name: "orange"@, hex: "#ac8b83"@ },
        SpecDefinition::Derived { name: "darkorange"@, parent: "orange"@, h: 0, s: -50, v: -200 },
    ]
}

fn build_shades() -> (v: Vec<Definition>)
    ensures
        defs_view(v@) == defs_shades(),
{
    let mut v: Vec<Definition> = Vec::new();
    v.push(Definition::Literal { name: "red", hex: "#dc6f7a" });
    v.push(Definition::Derived { name: "darkred", parent: "red", h: 0, s: 0, v: -200 });
    v.push(Definition::Literal { name: "pink", hex: "#b871b8" });
    v.push(Definition::Derived { name: "darkpink", parent: "pink", h: 0, s: -50, v: -350 });
    v.push(Definition::Literal { name: "purple", hex: "#929be5" });
    v.push(Definition::Derived { name: "darkpurple", parent: "purple", h: 0, s: 50, v: -150 });
    v.push(Definition::Derived { name: "darkestpurple", parent: "purple", h: 0, s: 50, v: -420 });
    v.push(Definition::Literal { name: "blue", hex: "#589ec6" });
    v.push(Definition::Derived { name: "darkblue", parent: "blue", h: 0, s: 0, v: -200 });
    v.push(Definition::Derived { name: "darkestblue", parent: "blue", h: 0, s: 50, v: -480 });
    v.push(Definition::Literal { name: "cyan", hex: "#59b6b6" });
    v.push(Definition::Derived { name: "darkcyan", parent: "cyan", h: 0, s: 0, v: -200 });
    v.push(Definition::Literal { name: "teal", hex: "#73c1a9" });
    v.push(Definition::Derived { name: "darkteal", parent: "teal", h: 0, s: 0, v: -200 });
    v.push(Definition::Derived { name: "darkestteal", parent: "teal", h: 0, s: 50, v: -480 });
    v.push(Definition::Literal { name: "green", hex: "#7cbe8c" });
    v.push(Definition::Derived { name: "darkgreen", parent: "green", h: 0, s: -50, v: -400 });
    v.push(Definition::Literal { name: "yellow", hex: "#a8a384" });
    v.push(Definition::Derived { name: "darkyellow", parent: "yellow", h: 0, s: -150, v: -500 });
    v.push(Definition::Literal { name: "orange", hex: "#ac8b83" });
    v.push(Definition::Derived { name: "darkorange", parent: "orange", h: 0, s: -50, v: -200 });
    proof {
        assert(defs_view(v@) =~= defs_shades());
    }
    v
}

/// The neutral foreground and background family.
pub open spec fn defs_neutral() -> Seq<SpecDefinition> {
    seq![
        SpecDefinition::Literal { name: "mainfg"@, hex: "#9ea3c0"@ },
        SpecDefinition::Literal { name: "mainbg"@, hex: "#222433"@ },
        SpecDefinition::Derived { name: "weakfg"@, parent: "mainbg"@, h: 0, s: 50, v: 350 },
        SpecDefinition::Derived { name: "weakbg"@, parent: "mainbg"@, h: 0, s: 0, v: 100 },
        SpecDefinition::Derived { name: "emphasisfg"@, parent: "mainfg"@, h: 0, s: 0, v: 150 },
        SpecDefinition::Derived { name: "emphasisbg"@, parent: "mainbg"@, h: 0, s: 0, v: 50 },
        SpecDefinition::Derived { name: "darkfg"@, parent: "mainbg"@, h: 0, s: 50, v: 150 },
        SpecDefinition::Derived { name: "darkbg"@, parent: "mainbg"@, h: 0, s: 0, v: 50 },
        SpecDefinition::Derived { name: "lightfg"@, parent: "mainfg"@, h: 0, s: 50, v: -100 },
        SpecDefinition::Derived { name: "lightbg"@, parent: "mainbg"@, h: 0, s: 0, v: 200 },
        SpecDefinition::Literal { name: "white"@, hex: "#ffffff"@ },
        SpecDefinition::Literal { name: "black"@, hex: "#000000"@ },
    ]
}

fn build_neutral() -> (v: Vec<Definition>)
    ensures
        defs_view(v@) == defs_neutral(),
{
    let mut v: Vec<Definition> = Vec::new();
    v.push(Definition::Literal { name: "mainfg", hex: "#9ea3c0" });
    v.push(Definition::Literal { name: "mainbg", hex: "#222433" });
    v.push(Definition::Derived { name: "weakfg", parent: "mainbg", h: 0, s: 50, v: 350 });
    v.push(Definition::Derived { name: "weakbg", parent: "mainbg", h: 0, s: 0, v: 100 });
    v.push(Definition::Derived { name: "emphasisfg", parent: "mainfg", h: 0, s: 0, v: 150 });
    v.push(Definition::Derived { name: "emphasisbg", parent: "mainbg", h: 0, s: 0, v: 50 });
    v.push(Definition::Derived { name: "darkfg", parent: "mainbg", h: 0, s: 50, v: 150 });
    v.push(Definition::Derived { name: "darkbg", parent: "mainbg", h: 0, s: 0, v: 50 });
    v.push(Definition::Derived { name: "lightfg", parent: "mainfg", h: 0, s: 50, v: -100 });
    v.push(Definition::Derived { name: "lightbg", parent: "mainbg", h: 0, s: 0, v: 200 });
    v.push(Definition::Literal { name: "white", hex: "#ffffff" });
    v.push(Definition::Literal { name: "black", hex: "#000000" });
    proof {
        assert(defs_view(v@) =~= defs_neutral());
    }
    v
}

/// Message colors: errors, warnings, informational text.
pub open spec fn defs_messages() -> Seq<SpecDefinition> {
    seq![
        SpecDefinition::Alias { name: "morefg"@, parent: "teal"@ },
        SpecDefinition::Alias { name: "errorbg"@, parent: "mainbg"@ },
        SpecDefinition::Derived { name: "errorfg"@, parent: "red"@, h: 0, s: 0, v: 0 },
        SpecDefinition::Alias { name: "warningbg"@, parent: "mainbg"@ },
        SpecDefinition::Derived { name: "warningfg"@, parent: "orange"@, h: 0, s: 0, v: 0 },
        SpecDefinition::Alias { name: "infobg"@, parent: "mainbg"@ },
        SpecDefinition::Derived { name: "infofg"@, parent: "teal"@, h: 0, s: 0, v: 100 },
    ]
}

fn build_messages() -> (v: Vec<Definition>)
    ensures
        defs_view(v@) == defs_messages(),
{
    let mut v: Vec<Definition> = Vec::new();
    v.push(Definition::Alias { name: "morefg", parent: "teal" });
    v.push(Definition::Alias { name: "errorbg", parent: "mainbg" });
    v.push(Definition::Derived { name: "errorfg", parent: "red", h: 0, s: 0, v: 0 });
    v.push(Definition::Alias { name: "warningbg", parent: "mainbg" });
    v.push(Definition::Derived { name: "warningfg", parent: "orange", h: 0, s: 0, v: 0 });
    v.push(Definition::Alias { name: "infobg", parent: "mainbg" });
    v.push(Definition::Derived { name: "infofg", parent: "teal", h: 0, s: 0, v: 100 });
    proof {
        assert(defs_view(v@) =~= defs_messages());
    }
    v
}

/// Interface colors: visual selection, line numbers, popup menu, folds.
pub open spec fn defs_interface() -> Seq<SpecDefinition> {
    seq![
        SpecDefinition::Derived { name: "visualbg"@, parent: "purple"@, h: 0, s: 200, v: -400 },
        SpecDefinition::Derived { name: "linenrfg"@, parent: "mainbg"@, h: 0, s: 0, v: 100 },
        SpecDefinition::Derived { name: "cursorlinebg"@, parent: "mainbg"@, h: 0, s: 0, v: 50 },
        SpecDefinition::Derived { name: "cursorlinenrfg"@, parent: "linenrfg"@, h: 0, s: 100, v: 300 },
        SpecDefinition::Derived { name: "pmenubg"@, parent: "mainbg"@, h: 0, s: 0, v: 100 },
        SpecDefinition::Derived { name: "pmenufg"@, parent: "mainfg"@, h: 0, s: 0, v: 0 },
        SpecDefinition::Derived { name: "pmenuselbg"@, parent: "pmenubg"@, h: 0, s: 0, v: 100 },
        SpecDefinition::Derived { name: "pmenuselfg"@, parent: "mainfg"@, h: 0, s: 0, v: 0 },
        SpecDefinition::Derived { name: "pmenubar"@, parent: "pmenubg"@, h: 0, s: 0, v: -50 },
        SpecDefinition::Derived { name: "pmenuthumb"@, parent: "pmenubg"@, h: 0, s: 100, v: 200 },
        SpecDefinition::Derived { name: "foldbg"@, parent: "mainbg"@, h: 0, s: 0, v: 100 },
        SpecDefinition::Derived { name: "foldfg"@, parent: "mainbg"@, h: 0, s: 0, v: 400 },
    ]
}

fn build_interface() -> (v: Vec<Definition>)
    ensures
        defs_view(v@) == defs_interface(),
{
    let mut v: Vec<Definition> = Vec::new();
    v.push(Definition::Derived { name: "visualbg", parent: "purple", h: 0, s: 200, v: -400 });
    v.push(Definition::Derived { name: "linenrfg", parent: "mainbg", h: 0, s: 0, v: 100 });
    v.push(Definition::Derived { name: "cursorlinebg", parent: "mainbg", h: 0, s: 0, v: 50 });
    v.push(Definition::Derived { name: "cursorlinenrfg", parent: "linenrfg", h: 0, s: 100, v: 300 });
    v.push(Definition::Derived { name: "pmenubg", parent: "mainbg", h: 0, s: 0, v: 100 });
    v.push(Definition::Derived { name: "pmenufg", parent: "mainfg", h: 0, s: 0, v: 0 });
    v.push(Definition::Derived { name: "pmenuselbg", parent: "pmenubg", h: 0, s: 0, v: 100 });
    v.push(Definition::Derived { name: "pmenuselfg", parent: "mainfg", h: 0, s: 0, v: 0 });
    v.push(Definition::Derived { name: "pmenubar", parent: "pmenubg", h: 0, s: 0, v: -50 });
    v.push(Definition::Derived { name: "pmenuthumb", parent: "pmenubg", h: 0, s: 100, v: 200 });
    v.push(Definition::Derived { name: "foldbg", parent: "mainbg", h: 0, s: 0, v: 100 });
    v.push(Definition::Derived { name: "foldfg", parent: "mainbg", h: 0, s: 0, v: 400 });
    proof {
        assert(defs_view(v@) =~= defs_interface());
    }
    v
}

/// Diff view colors.
pub open spec fn defs_diff() -> Seq<SpecDefinition> {
    seq![
        SpecDefinition::Alias { name: "diffaddbg"@, parent: "darkestblue"@ },
        SpecDefinition::Derived { name: "diffaddfg"@, parent: "mainfg"@, h: 0, s: 0, v: 200 },
        SpecDefinition::Alias { name: "diffchangebg"@, parent: "darkestteal"@ },
        SpecDefinition::Derived { name: "diffchangefg"@, parent: "mainfg"@, h: 0, s: 0, v: 200 },
        SpecDefinition::Alias { name: "diffdeletebg"@, parent: "darkpink"@ },
        SpecDefinition::Derived { name: "diffdeletefg"@, parent: "mainfg"@, h: 0, s: 0, v: 250 },
        SpecDefinition::Derived { name: "difftextbg"@, parent: "diffchangebg"@, h: 0, s: 200, v: 200 },
        SpecDefinition::Derived { name: "difftextfg"@, parent: "mainfg"@, h: 0, s: 0, v: 200 },
    ]
}

fn build_diff() -> (v: Vec<Definition>)
    ensures
        defs_view(v@) == defs_diff(),
{
    let mut v: Vec<Definition> = Vec::new();
    v.push(Definition::Alias { name: "diffaddbg", parent: "darkestblue" });
    v.push(Definition::Derived { name: "diffaddfg", parent: "mainfg", h: 0, s: 0, v: 200 });
    v.push(Definition::Alias { name: "diffchangebg", parent: "darkestteal" });
    v.push(Definition::Derived { name: "diffchangefg", parent: "mainfg", h: 0, s: 0, v: 200 });
    v.push(Definition::Alias { name: "diffdeletebg", parent: "darkpink" });
    v.push(Definition::Derived { name: "diffdeletefg", parent: "mainfg", h: 0, s: 0, v: 250 });
    v.push(Definition::Derived { name: "difftextbg", parent: "diffchangebg", h: 0, s: 200, v: 200 });
    v.push(Definition::Derived { name: "difftextfg", parent: "mainfg", h: 0, s: 0, v: 200 });
    proof {
        assert(defs_view(v@) =~= defs_diff());
    }
    v
}

/// Status line, tab line and search colors.
pub open spec fn defs_statusline() -> Seq<SpecDefinition> {
    seq![
        SpecDefinition::Derived { name: "statuslinebg"@, parent: "mainbg"@, h: 0, s: 0, v: 50 },
        SpecDefinition::Derived { name: "statuslinefg"@, parent: "statuslinebg"@, h: 0, s: -50, v: 400 },
        SpecDefinition::Derived { name: "statuslinencbg"@, parent: "mainbg"@, h: 0, s: -30, v: 30 },
        SpecDefinition::Derived { name: "statuslinencfg"@, parent: "statuslinencbg"@, h: 0, s: 0, v: 200 },
        SpecDefinition::Alias { name: "tablineselbg"@, parent: "purple"@ },
        SpecDefinition::Alias { name: "tablineselfg"@, parent: "mainbg"@ },
        SpecDefinition::Derived { name: "searchbg"@, parent: "purple"@, h: 0, s: 200, v: 0 },
        SpecDefinition::Derived { name: "searchfg"@, parent: "searchbg"@, h: 200, s: -200, v: 150 },
        SpecDefinition::Derived { name: "incsearchbg"@, parent: "searchbg"@, h: 0, s: 80, v: -100 },
        SpecDefinition::Derived { name: "incsearchfg"@, parent: "searchfg"@, h: 100, s: 100, v: 150 },
        SpecDefinition::Derived { name: "matchparenbg"@, parent: "mainbg"@, h: 100, s: 0, v: 80 },
    ]
}

fn build_statusline() -> (v: Vec<Definition>)
    ensures
        defs_view(v@) == defs_statusline(),
{
    let mut v: Vec<Definition> = Vec::new();
    v.push(Definition::Derived { name: "statuslinebg", parent: "mainbg", h: 0, s: 0, v: 50 });
    v.push(Definition::Derived { name: "statuslinefg", parent: "statuslinebg", h: 0, s: -50, v: 400 });
    v.push(Definition::Derived { name: "statuslinencbg", parent: "mainbg", h: 0, s: -30, v: 30 });
    v.push(Definition::Derived { name: "statuslinencfg", parent: "statuslinencbg", h: 0, s: 0, v: 200 });
    v.push(Definition::Alias { name: "tablineselbg", parent: "purple" });
    v.push(Definition::Alias { name: "tablineselfg", parent: "mainbg" });
    v.push(Definition::Derived { name: "searchbg", parent: "purple", h: 0, s: 200, v: 0 });
    v.push(Definition::Derived { name: "searchfg", parent: "searchbg", h: 200, s: -200, v: 150 });
    v.push(Definition::Derived { name: "incsearchbg", parent: "searchbg", h: 0, s: 80, v: -100 });
    v.push(Definition::Derived { name: "incsearchfg", parent: "searchfg", h: 100, s: 100, v: 150 });
    v.push(Definition::Derived { name: "matchparenbg", parent: "mainbg", h: 100, s: 0, v: 80 });
    proof {
        assert(defs_view(v@) =~= defs_statusline());
    }
    v
}

/// The sixteen embedded-terminal colors.
pub open spec fn defs_terminal() -> Seq<SpecDefinition> {
    seq![
        SpecDefinition::Derived { name: "termblack"@, parent: "mainbg"@, h: 0, s: 0, v: -100 },
        SpecDefinition::Derived { name: "termmaroon"@, parent: "red"@, h: 0, s: 0, v: -100 },
        SpecDefinition::Derived { name: "termgreen"@, parent: "green"@, h: 0, s: 0, v: 0 },
        SpecDefinition::Derived { name: "termolive"@, parent: "yellow"@, h: 0, s: 0, v: -100 },
        SpecDefinition::Derived { name: "termnavy"@, parent: "blue"@, h: 0, s: 0, v: -100 },
        SpecDefinition::Derived { name: "termpurple"@, parent: "purple"@, h: 0, s: 100, v: -100 },
        SpecDefinition::Alias { name: "termteal"@, parent: "teal"@ },
        SpecDefinition::Alias { name: "termsilver"@, parent: "mainfg"@ },
        SpecDefinition::Alias { name: "termgray"@, parent: "weakfg"@ },
        SpecDefinition::Alias { name: "termred"@, parent: "pink"@ },
        SpecDefinition::Alias { name: "termlime"@, parent: "green"@ },
        SpecDefinition::Alias { name: "termyellow"@, parent: "yellow"@ },
        SpecDefinition::Alias { name: "termblue"@, parent: "blue"@ },
        SpecDefinition::Alias { name: "termfuchsia"@, parent: "purple"@ },
        SpecDefinition::Alias { name: "termaqua"@, parent: "cyan"@ },
        SpecDefinition::Alias { name: "termwhite"@, parent: "mainfg"@ },
    ]
}

fn build_terminal() -> (v: Vec<Definition>)
    ensures
        defs_view(v@) == defs_terminal(),
{
    let mut v: Vec<Definition> = Vec::new();
    v.push(Definition::Derived { name: "termblack", parent: "mainbg", h: 0, s: 0, v: -100 });
    v.push(Definition::Derived { name: "termmaroon", parent: "red", h: 0, s: 0, v: -100 });
    v.push(Definition::Derived { name: "termgreen", parent: "green", h: 0, s: 0, v: 0 });
    v.push(Definition::Derived { name: "termolive", parent: "yellow", h: 0, s: 0, v: -100 });
    v.push(Definition::Derived { name: "termnavy", parent: "blue", h: 0, s: 0, v: -100 });
    v.push(Definition::Derived { name: "termpurple", parent: "purple", h: 0, s: 100, v: -100 });
    v.push(Definition::Alias { name: "termteal", parent: "teal" });
    v.push(Definition::Alias { name: "termsilver", parent: "mainfg" });
    v.push(Definition::Alias { name: "termgray", parent: "weakfg" });
    v.push(Definition::Alias { name: "termred", parent: "pink" });
    v.push(Definition::Alias { name: "termlime", parent: "green" });
    v.push(Definition::Alias { name: "termyellow", parent: "yellow" });
    v.push(Definition::Alias { name: "termblue", parent: "blue" });
    v.push(Definition::Alias { name: "termfuchsia", parent: "purple" });
    v.push(Definition::Alias { name: "termaqua", parent: "cyan" });
    v.push(Definition::Alias { name: "termwhite", parent: "mainfg" });
    proof {
        assert(defs_view(v@) =~= defs_terminal());
    }
    v
}

/// Colors for the file-explorer icon set.
pub open spec fn defs_defx() -> Seq<SpecDefinition> {
    seq![
        SpecDefinition::Derived { name: "defxiconbrown"@, parent: "red"@, h: 0, s: 200, v: -200 },
        SpecDefinition::Derived { name: "defxiconaqua"@, parent: "cyan"@, h: 0, s: -100, v: -100 },
        SpecDefinition::Derived { name: "defxiconblue"@, parent: "blue"@, h: 0, s: -100, v: -100 },
        SpecDefinition::Derived { name: "defxicondarkblue"@, parent: "blue"@, h: 0, s: -200, v: -250 },
        SpecDefinition::Alias { name: "defxiconpurple"@, parent: "darkpurple"@ },
        SpecDefinition::Derived { name: "defxiconlightpurple"@, parent: "purple"@, h: 0, s: -100, v: -100 },
        SpecDefinition::Derived { name: "defxiconred"@, parent: "red"@, h: 0, s: 0, v: -100 },
        SpecDefinition::Derived { name: "defxiconbeige"@, parent: "yellow"@, h: 0, s: -200, v: -250 },
        SpecDefinition::Derived { name: "defxiconyellow"@, parent: "yellow"@, h: 0, s: 0, v: -100 },
        SpecDefinition::Derived { name: "defxiconorange"@, parent: "orange"@, h: 0, s: 0, v: 100 },
        SpecDefinition::Derived { name: "defxicondarkorange"@, parent: "orange"@, h: 0, s: 100, v: -200 },
        SpecDefinition::Derived { name: "defxiconpink"@, parent: "pink"@, h: 0, s: 0, v: -100 },
        SpecDefinition::Derived { name: "defxiconsalmon"@, parent: "pink"@, h: 0, s: 100, v: -50 },
        SpecDefinition::Derived { name: "defxicongreen"@, parent: "green"@, h: 0, s: 0, v: -150 },
        SpecDefinition::Derived { name: "defxiconlightgreen"@, parent: "green"@, h: 0, s: 100, v: -100 },
        SpecDefinition::Derived { name: "defxiconwhite"@, parent: "mainfg"@, h: 0, s: 0, v: -100 },
    ]
}

fn build_defx() -> (v: Vec<Definition>)
    ensures
        defs_view(v@) == defs_defx(),
{
    let mut v: Vec<Definition> = Vec::new();
    v.push(Definition::Derived { name: "defxiconbrown", parent: "red", h: 0, s: 200, v: -200 });
    v.push(Definition::Derived { name: "defxiconaqua", parent: "cyan", h: 0, s: -100, v: -100 });
    v.push(Definition::Derived { name: "defxiconblue", parent: "blue", h: 0, s: -100, v: -100 });
    v.push(Definition::Derived { name: "defxicondarkblue", parent: "blue", h: 0, s: -200, v: -250 });
    v.push(Definition::Alias { name: "defxiconpurple", parent: "darkpurple" });
    v.push(Definition::Derived { name: "defxiconlightpurple", parent: "purple", h: 0, s: -100, v: -100 });
    v.push(Definition::Derived { name: "defxiconred", parent: "red", h: 0, s: 0, v: -100 });
    v.push(Definition::Derived { name: "defxiconbeige", parent: "yellow", h: 0, s: -200, v: -250 });
    v.push(Definition::Derived { name: "defxiconyellow", parent: "yellow", h: 0, s: 0, v: -100 });
    v.push(Definition::Derived { name: "defxiconorange", parent: "orange", h: 0, s: 0, v: 100 });
    v.push(Definition::Derived { name: "defxicondarkorange", parent: "orange", h: 0, s: 100, v: -200 });
    v.push(Definition::Derived { name: "defxiconpink", parent: "pink", h: 0, s: 0, v: -100 });
    v.push(Definition::Derived { name: "defxiconsalmon", parent: "pink", h: 0, s: 100, v: -50 });
    v.push(Definition::Derived { name: "defxicongreen", parent: "green", h: 0, s: 0, v: -150 });
    v.push(Definition::Derived { name: "defxiconlightgreen", parent: "green", h: 0, s: 100, v: -100 });
    v.push(Definition::Derived { name: "defxiconwhite", parent: "mainfg", h: 0, s: 0, v: -100 });
    proof {
        assert(defs_view(v@) =~= defs_defx());
    }
    v
}

/// Colors the statusline theme mirrors.
pub open spec fn defs_xline() -> Seq<SpecDefinition> {
    seq![
        SpecDefinition::Alias { name: "xlinebg"@, parent: "statuslinencbg"@ },
        SpecDefinition::Alias { name: "xlinefg"@, parent: "statuslinencfg"@ },
        SpecDefinition::Alias { name: "xlineedgebg"@, parent: "statuslinebg"@ },
        SpecDefinition::Alias { name: "xlineedgefg"@, parent: "statuslinefg"@ },
        SpecDefinition::Alias { name: "xlinegradientbg"@, parent: "statuslinencbg"@ },
        SpecDefinition::Alias { name: "xlinegradientfg"@, parent: "statuslinencfg"@ },
    ]
}

fn build_xline() -> (v: Vec<Definition>)
    ensures
        defs_view(v@) == defs_xline(),
{
    let mut v: Vec<Definition> = Vec::new();
    v.push(Definition::Alias { name: "xlinebg", parent: "statuslinencbg" });
    v.push(Definition::Alias { name: "xlinefg", parent: "statuslinencfg" });
    v.push(Definition::Alias { name: "xlineedgebg", parent: "statuslinebg" });
    v.push(Definition::Alias { name: "xlineedgefg", parent: "statuslinefg" });
    v.push(Definition::Alias { name: "xlinegradientbg", parent: "statuslinencbg" });
    v.push(Definition::Alias { name: "xlinegradientfg", parent: "statuslinencfg" });
    proof {
        assert(defs_view(v@) =~= defs_xline());
    }
    v
}

/// Every color definition of the dogrun palette, in declaration order.
pub open spec fn palette_definitions() -> Seq<SpecDefinition> {
    defs_shades() + defs_neutral() + defs_messages() + defs_interface() + defs_diff() + defs_statusline() + defs_terminal() + defs_defx() + defs_xline()
}

/// Builds the full dogrun palette: every definition resolved in
/// declaration order. The result is exactly the fold of
/// `palette_definitions`, which cannot in fact fail: the definitions are
/// well-formed, every name is fresh and every reference points backward.
pub fn get_palette() -> (res: Result<Palette, PaletteError>)
    ensures
        match res {
            Ok(p) => spec_resolve(palette_definitions()) == Ok::<_, SpecPaletteError>(p@),
            Err(e) => spec_resolve(palette_definitions()) == Err::<Seq<SpecEntry>, _>(e@),
        },
{
    let mut defs = build_shades();
    let mut more_neutral = build_neutral();
    defs.append(&mut more_neutral);
    proof {
        assert(defs_view(defs@) =~= defs_shades() + defs_neutral());
    }
    let mut more_messages = build_messages();
    defs.append(&mut more_messages);
    proof {
        assert(defs_view(defs@) =~= defs_shades() + defs_neutral() + defs_messages());
    }
    let mut more_interface = build_interface();
    defs.append(&mut more_interface);
    proof {
        assert(defs_view(defs@) =~= defs_shades() + defs_neutral() + defs_messages() + defs_interface());
    }
    let mut more_diff = build_diff();
    defs.append(&mut more_diff);
    proof {
        assert(defs_view(defs@) =~= defs_shades() + defs_neutral() + defs_messages() + defs_interface() + defs_diff());
    }
    let mut more_statusline = build_statusline();
    defs.append(&mut more_statusline);
    proof {
        assert(defs_view(defs@) =~= defs_shades() + defs_neutral() + defs_messages() + defs_interface() + defs_diff() + defs_statusline());
    }
    let mut more_terminal = build_terminal();
    defs.append(&mut more_terminal);
    proof {
        assert(defs_view(defs@) =~= defs_shades() + defs_neutral() + defs_messages() + defs_interface() + defs_diff() + defs_statusline() + defs_terminal());
    }
    let mut more_defx = build_defx();
    defs.append(&mut more_defx);
    proof {
        assert(defs_view(defs@) =~= defs_shades() + defs_neutral() + defs_messages() + defs_interface() + defs_diff() + defs_statusline() + defs_terminal() + defs_defx());
    }
    let mut more_xline = build_xline();
    defs.append(&mut more_xline);
    proof {
        assert(defs_view(defs@) =~= defs_shades() + defs_neutral() + defs_messages() + defs_interface() + defs_diff() + defs_statusline() + defs_terminal() + defs_defx() + defs_xline());
    }
    resolve(&defs)
}


/// A symbolic color reference: the name of a palette entry, or the literal
/// name `NONE`, or nothing.
pub type ColorName = Option<&'static str>;

/// The text attribute of a highlight rule. `Nothing` emits no attribute at
/// all; `Clear` emits an explicit `NONE`, overriding any inherited attribute.
#[derive(Debug, Clone, Copy, PartialEq, Eq, Structural)]
pub enum HighlightAttr {
    Nothing,
    Clear,
    Bold,
    Italic,
    Underline,
    Strikethrough,
    Reverse,
}

/// Which hosts a highlight rule is emitted for.
#[derive(Debug, Clone, Copy, PartialEq, Eq, Structural)]
pub enum HighlightScope {
    All,
    Nvim,
    Nvim080OrLater,
}

/// One highlight rule: a group name and its symbolic foreground, background
/// and special colors, with an attribute and a scope.
#[derive(Debug)]
pub struct Highlight {
    pub name: &'static str,
    pub fg: ColorName,
    pub bg: ColorName,
    pub sp: ColorName,
    pub attr: HighlightAttr,
    pub scope: HighlightScope,
}

/// The mathematical form of a `Highlight`.
pub ghost struct SpecHighlight {
    pub name: Seq<char>,
    pub fg: Option<Seq<char>>,
    pub bg: Option<Seq<char>>,
    pub sp: Option<Seq<char>>,
    pub attr: HighlightAttr,
    pub scope: HighlightScope,
}

/// The view of a symbolic color reference.
pub open spec fn color_name_view(n: ColorName) -> Option<Seq<char>> {
    match n {
        Some(s) => Some(s@),
        None => None,
    }
}

impl View for Highlight {
    type V = SpecHighlight;

    open spec fn view(&self) -> SpecHighlight {
        SpecHighlight {
            name: self.name@,
            fg: color_name_view(self.fg),
            bg: color_name_view(self.bg),
            sp: color_name_view(self.sp),
            attr: self.attr,
            scope: self.scope,
        }
    }
}

/// The views of a sequence of highlight rules.
pub open spec fn highlights_view(s: Seq<Highlight>) -> Seq<SpecHighlight> {
    s.map_values(|h: Highlight| h@)
}

/// The rendered foreground or background arguments of one rule: nothing for
/// an absent reference, explicit `NONE` for the name `NONE`, and the resolved
/// GUI and terminal colors otherwise. A reference to an unknown name is the
/// build-breaking error.
pub open spec fn spec_color_args(
    p: Seq<SpecEntry>,
    name: Option<Seq<char>>,
    guikey: Seq<char>,
    ctermkey: Seq<char>,
) -> Result<Seq<char>, SpecPaletteError> {
    match name {
        None => Ok(Seq::empty()),
        Some(n) => if n == "NONE"@ {
            Ok(seq![' '] + guikey + "=NONE"@ + seq![' '] + ctermkey + "=NONE"@)
        } else {
            match lookup(p, n) {
                None => Err(SpecPaletteError::UndefinedColorReference(n)),
                Some(c) => Ok(
                    seq![' '] + guikey + seq!['='] + c.gui + seq![' '] + ctermkey + seq!['=']
                        + c.cterm,
                ),
            }
        },
    }
}

/// The rendered special-color argument of one rule.
pub open spec fn spec_sp_args(p: Seq<SpecEntry>, name: Option<Seq<char>>) -> Result<
    Seq<char>,
    SpecPaletteError,
> {
    match name {
        None => Ok(Seq::empty()),
        Some(n) => match lookup(p, n) {
            None => Err(SpecPaletteError::UndefinedColorReference(n)),
            Some(c) => Ok(" guisp="@ + c.gui),
        },
    }
}

/// The rendered attribute argument of one rule.
pub open spec fn spec_attr_args(attr: HighlightAttr) -> Seq<char> {
    match attr {
        HighlightAttr::Nothing => Seq::empty(),
        HighlightAttr::Clear => " gui=NONE cterm=NONE"@,
        HighlightAttr::Bold => " gui=bold cterm=bold"@,
        HighlightAttr::Italic => " gui=italic cterm=italic"@,
        HighlightAttr::Underline => " gui=underline cterm=underline"@,
        HighlightAttr::Strikethrough => " gui=strikethrough cterm=strikethrough"@,
        HighlightAttr::Reverse => " gui=reverse cterm=reverse"@,
    }
}

/// The full `hi` command line of one rule against a palette, or the error
/// naming the first unresolved color reference.
pub open spec fn spec_highlight_line(p: Seq<SpecEntry>, hl: SpecHighlight) -> Result<
    Seq<char>,
    SpecPaletteError,
> {
    match spec_color_args(p, hl.fg, "guifg"@, "ctermfg"@) {
        Err(e) => Err(e),
        Ok(fg) => match spec_color_args(p, hl.bg, "guibg"@, "ctermbg"@) {
            Err(e) => Err(e),
            Ok(bg) => match spec_sp_args(p, hl.sp) {
                Err(e) => Err(e),
                Ok(sp) => Ok("hi "@ + hl.name + fg + bg + sp + spec_attr_args(hl.attr)),
            },
        },
    }
}

/// Appends the foreground or background arguments of one rule.
fn push_color_args(
    out: &mut String,
    p: &Palette,
    name: Option<&'static str>,
    guikey: &'static str,
    ctermkey: &'static str,
) -> (res: Result<(), PaletteError>)
    ensures
        match res {
            Ok(()) => spec_color_args(p@, color_name_view(name), guikey@, ctermkey@) matches Ok(
                part,
            ) && final (out)@ == old(out)@ + part,
            Err(e) => spec_color_args(p@, color_name_view(name), guikey@, ctermkey@) == Err::<
                Seq<char>,
                _,
            >(e@),
        },
{
    proof {
        reveal_strlit(" ");
        reveal_strlit("=");
    }
    let n = match name {
        None => {
            return Ok(());
        },
        Some(n) => n,
    };
    if str_eq(n, "NONE") {
        out.append(" ");
        out.append(guikey);
        out.append("=NONE");
        out.append(" ");
        out.append(ctermkey);
        out.append("=NONE");
        proof {
            assert(out@ =~= old(out)@ + (seq![' '] + guikey@ + "=NONE"@ + seq![' '] + ctermkey@
                + "=NONE"@));
        }
        return Ok(());
    }
    let c = match p.get(n) {
        None => {
            return Err(PaletteError::UndefinedColorReference(String::from_str(n)));
        },
        Some(c) => c,
    };
    out.append(" ");
    out.append(guikey);
    out.append("=");
    out.append(c.gui.as_str());
    out.append(" ");
    out.append(ctermkey);
    out.append("=");
    out.append(c.cterm.as_str());
    proof {
        assert(out@ =~= old(out)@ + (seq![' '] + guikey@ + seq!['='] + c.gui@ + seq![' ']
            + ctermkey@ + seq!['='] + c.cterm@));
    }
    Ok(())
}

/// Renders one highlight rule as a vim `hi` command, resolving its color
/// references against the palette; fails on a reference to an unknown name,
/// naming it.
pub fn highlight(palette: &Palette, hl: &Highlight) -> (res: Result<String, PaletteError>)
    ensures
        match res {
            Ok(line) => spec_highlight_line(palette@, hl@) == Ok::<_, SpecPaletteError>(line@),
            Err(e) => spec_highlight_line(palette@, hl@) == Err::<Seq<char>, _>(e@),
        },
{
    let mut out = String::from_str("hi ");
    out.append(hl.name);
    match push_color_args(&mut out, palette, hl.fg, "guifg", "ctermfg") {
        Ok(()) => {},
        Err(e) => {
            return Err(e);
        },
    }
    match push_color_args(&mut out, palette, hl.bg, "guibg", "ctermbg") {
        Ok(()) => {},
        Err(e) => {
            return Err(e);
        },
    }
    match hl.sp {
        None => {},
        Some(n) => {
            let c = match palette.get(n) {
                None => {
                    return Err(PaletteError::UndefinedColorReference(String::from_str(n)));
                },
                Some(c) => c,
            };
            out.append(" guisp=");
            out.append(c.gui.as_str());
        },
    }
    match hl.attr {
        HighlightAttr::Nothing => {},
        HighlightAttr::Clear => out.append(" gui=NONE cterm=NONE"),
        HighlightAttr::Bold => out.append(" gui=bold cterm=bold"),
        HighlightAttr::Italic => out.append(" gui=italic cterm=italic"),
        HighlightAttr::Underline => out.append(" gui=underline cterm=underline"),
        HighlightAttr::Strikethrough => out.append(" gui=strikethrough cterm=strikethrough"),
        HighlightAttr::Reverse => out.append(" gui=reverse cterm=reverse"),
    }
    proof {
        assert(out@ =~= spec_highlight_line(palette@, hl@)->Ok_0);
    }
    Ok(out)
}

/// Whether every color reference of every rule resolves against the palette:
/// each named foreground and background is either the literal `NONE` or a
/// defined color, and each named special color is a defined color.
pub open spec fn all_references_resolve(p: Seq<SpecEntry>, hls: Seq<SpecHighlight>) -> bool {
    forall|i: int|
        0 <= i < hls.len() ==> spec_highlight_line(p, #[trigger] hls[i]) is Ok
}

/// Checks every rule of the catalogue against a palette: true exactly when
/// every color reference resolves.
pub fn validate_highlights(palette: &Palette, hls: &Vec<Highlight>) -> (r: bool)
    ensures
        r == all_references_resolve(palette@, highlights_view(hls@)),
{
    let mut i: usize = 0;
    while i < hls.len()
        invariant
            0 <= i <= hls.len(),
            forall|j: int|
                0 <= j < i ==> spec_highlight_line(palette@, #[trigger] highlights_view(hls@)[j])
                    is Ok,
        decreases hls.len() - i,
    {
        match highlight(palette, &hls[i]) {
            Ok(_) => {},
            Err(_) => {
                proof {
                    assert(highlights_view(hls@)[i as int] == hls@[i as int]@);
                }
                return false;
            },
        }
        i = i + 1;
    }
    true
}

/// Part of the highlight-rule catalogue.
pub open spec fn catalogue_a() -> Seq<SpecHighlight> {
    seq![
        SpecHighlight { name: "Normal"@, fg: Some("mainfg"@), bg: Some("mainbg"@), sp: None, attr: HighlightAttr::Nothing, scope: HighlightScope::All },
        SpecHighlight { name: "Delimiter"@, fg: Some("lightfg"@), bg: None, sp: None, attr: HighlightAttr::Nothing, scope: HighlightScope::All },
        SpecHighlight { name: "NonText"@, fg: Some("darkfg"@), bg: Some("NONE"@), sp: None, attr: HighlightAttr::Nothing, scope: HighlightScope::All },
        SpecHighlight { name: "VertSplit"@, fg: Some("weakbg"@), bg: Some("NONE"@), sp: None, attr: HighlightAttr::Clear, scope: HighlightScope::All },
        SpecHighlight { name: "LineNr"@, fg: Some("linenrfg"@), bg: Some("NONE"@), sp: None, attr: HighlightAttr::Clear, scope: HighlightScope::All },
        SpecHighlight { name: "EndOfBuffer"@, fg: Some("darkfg"@), bg: Some("NONE"@), sp: None, attr: HighlightAttr::Clear, scope: HighlightScope::All },
        SpecHighlight { name: "Comment"@, fg: Some("weakfg"@), bg: None, sp: None, attr: HighlightAttr::Clear, scope: HighlightScope::All },
        SpecHighlight { name: "Cursor"@, fg: Some("mainbg"@), bg: Some("mainfg"@), sp: None, attr: HighlightAttr::Nothing, scope: HighlightScope::All },
        SpecHighlight { name: "CursorIM"@, fg: Some("mainbg"@), bg: Some("mainfg"@), sp: None, attr: HighlightAttr::Nothing, scope: HighlightScope::All },
        SpecHighlight { name: "SignColumn"@, fg: Some("weakfg"@), bg: Some("NONE"@), sp: None, attr: HighlightAttr::Nothing, scope: HighlightScope::All },
        SpecHighlight { name: "ColorColumn"@, fg: None, bg: Some("cursorlinebg"@), sp: None, attr: HighlightAttr::Clear, scope: HighlightScope::All },
        SpecHighlight { name: "CursorColumn"@, fg: None, bg: Some("cursorlinebg"@), sp: None, attr: HighlightAttr::Clear, scope: HighlightScope::All },
        SpecHighlight { name: "CursorLine"@, fg: None, bg: Some("cursorlinebg"@), sp: None, attr: HighlightAttr::Clear, scope: HighlightScope::All },
        SpecHighlight { name: "CursorLineNr"@, fg: Some("cursorlinenrfg"@), bg: Some("NONE"@), sp: None, attr: HighlightAttr::Clear, scope: HighlightScope::All },
        SpecHighlight { name: "Conceal"@, fg: Some("orange"@), bg: Some("mainbg"@), sp: None, attr: HighlightAttr::Clear, scope: HighlightScope::All },
        SpecHighlight { name: "NormalFloat"@, fg: Some("lightfg"@), bg: Some("NONE"@), sp: None, attr: HighlightAttr::Clear, scope: HighlightScope::All },
        SpecHighlight { name: "FloatBorder"@, fg: Some("weakfg"@), bg: Some("NONE"@), sp: None, attr: HighlightAttr::Clear, scope: HighlightScope::All },
        SpecHighlight { name: "WinSeparator"@, fg: Some("darkfg"@), bg: Some("NONE"@), sp: None, attr: HighlightAttr::Clear, scope: HighlightScope::All },
        SpecHighlight { name: "Folded"@, fg: Some("foldfg"@), bg: Some("foldbg"@), sp: None, attr: HighlightAttr::Clear, scope: HighlightScope::All },
        SpecHighlight { name: "FoldColumn"@, fg: Some("linenrfg"@), bg: Some("NONE"@), sp: None, attr: HighlightAttr::Clear, scope: HighlightScope::All },
        SpecHighlight { name: "MatchParen"@, fg: None, bg: Some("matchparenbg"@), sp: None, attr: HighlightAttr::Nothing, scope: HighlightScope::All },
        SpecHighlight { name: "Directory"@, fg: Some("yellow"@), bg: None, sp: None, attr: HighlightAttr::Nothing, scope: HighlightScope::All },
        SpecHighlight { name: "Underlined"@, fg: None, bg: None, sp: None, attr: HighlightAttr::Underline, scope: HighlightScope::All },
        SpecHighlight { name: "String"@, fg: Some("green"@), bg: None, sp: None, attr: HighlightAttr::Nothing, scope: HighlightScope::All },
    ]
}

fn build_catalogue_a() -> (v: Vec<Highlight>)
    ensures
        highlights_view(v@) == catalogue_a(),
{
    let mut v: Vec<Highlight> = Vec::new();
    v.push(Highlight { name: "Normal", fg: Some("mainfg"), bg: Some("mainbg"), sp: None, attr: HighlightAttr::Nothing, scope: HighlightScope::All });
    v.push(Highlight { name: "Delimiter", fg: Some("lightfg"), bg: None, sp: None, attr: HighlightAttr::Nothing, scope: HighlightScope::All });
    v.push(Highlight { name: "NonText", fg: Some("darkfg"), bg: Some("NONE"), sp: None, attr: HighlightAttr::Nothing, scope: HighlightScope::All });
    v.push(Highlight { name: "VertSplit", fg: Some("weakbg"), bg: Some("NONE"), sp: None, attr: HighlightAttr::Clear, scope: HighlightScope::All });
    v.push(Highlight { name: "LineNr", fg: Some("linenrfg"), bg: Some("NONE"), sp: None, attr: HighlightAttr::Clear, scope: HighlightScope::All });
    v.push(Highlight { name: "EndOfBuffer", fg: Some("darkfg"), bg: Some("NONE"), sp: None, attr: HighlightAttr::Clear, scope: HighlightScope::All });
    v.push(Highlight { name: "Comment", fg: Some("weakfg"), bg: None, sp: None, attr: HighlightAttr::Clear, scope: HighlightScope::All });
    v.push(Highlight { name: "Cursor", fg: Some("mainbg"), bg: Some("mainfg"), sp: None, attr: HighlightAttr::Nothing, scope: HighlightScope::All });
    v.push(Highlight { name: "CursorIM", fg: Some("mainbg"), bg: Some("mainfg"), sp: None, attr: HighlightAttr::Nothing, scope: HighlightScope::All });
    v.push(Highlight { name: "SignColumn", fg: Some("weakfg"), bg: Some("NONE"), sp: None, attr: HighlightAttr::Nothing, scope: HighlightScope::All });
    v.push(Highlight { name: "ColorColumn", fg: None, bg: Some("cursorlinebg"), sp: None, attr: HighlightAttr::Clear, scope: HighlightScope::All });
    v.push(Highlight { name: "CursorColumn", fg: None, bg: Some("cursorlinebg"), sp: None, attr: HighlightAttr::Clear, scope: HighlightScope::All });
    v.push(Highlight { name: "CursorLine", fg: None, bg: Some("cursorlinebg"), sp: None, attr: HighlightAttr::Clear, scope: HighlightScope::All });
    v.push(Highlight { name: "CursorLineNr", fg: Some("cursorlinenrfg"), bg: Some("NONE"), sp: None, attr: HighlightAttr::Clear, scope: HighlightScope::All });
    v.push(Highlight { name: "Conceal", fg: Some("orange"), bg: Some("mainbg"), sp: None, attr: HighlightAttr::Clear, scope: HighlightScope::All });
    v.push(Highlight { name: "NormalFloat", fg: Some("lightfg"), bg: Some("NONE"), sp: None, attr: HighlightAttr::Clear, scope: HighlightScope::All });
    v.push(Highlight { name: "FloatBorder", fg: Some("weakfg"), bg: Some("NONE"), sp: None, attr: HighlightAttr::Clear, scope: HighlightScope::All });
    v.push(Highlight { name: "WinSeparator", fg: Some("darkfg"), bg: Some("NONE"), sp: None, attr: HighlightAttr::Clear, scope: HighlightScope::All });
    v.push(Highlight { name: "Folded", fg: Some("foldfg"), bg: Some("foldbg"), sp: None, attr: HighlightAttr::Clear, scope: HighlightScope::All });
    v.push(Highlight { name: "FoldColumn", fg: Some("linenrfg"), bg: Some("NONE"), sp: None, attr: HighlightAttr::Clear, scope: HighlightScope::All });
    v.push(Highlight { name: "MatchParen", fg: None, bg: Some("matchparenbg"), sp: None, attr: HighlightAttr::Nothing, scope: HighlightScope::All });
    v.push(Highlight { name: "Directory", fg: Some("yellow"), bg: None, sp: None, attr: HighlightAttr::Nothing, scope: HighlightScope::All });
    v.push(Highlight { name: "Underlined", fg: None, bg: None, sp: None, attr: HighlightAttr::Underline, scope: HighlightScope::All });
    v.push(Highlight { name: "String", fg: Some("green"), bg: None, sp: None, attr: HighlightAttr::Nothing, scope: HighlightScope::All });
    proof {
        assert(highlights_view(v@) =~= catalogue_a());
    }
    v
}

/// Part of the highlight-rule catalogue.
pub open spec fn catalogue_b() -> Seq<SpecHighlight> {
    seq![
        SpecHighlight { name: "Statement"@, fg: Some("purple"@), bg: None, sp: None, attr: HighlightAttr::Clear, scope: HighlightScope::All },
        SpecHighlight { name: "Label"@, fg: Some("purple"@), bg: None, sp: None, attr: HighlightAttr::Clear, scope: HighlightScope::All },
        SpecHighlight { name: "Function"@, fg: Some("purple"@), bg: None, sp: None, attr: HighlightAttr::Clear, scope: HighlightScope::All },
        SpecHighlight { name: "Constant"@, fg: Some("teal"@), bg: None, sp: None, attr: HighlightAttr::Nothing, scope: HighlightScope::All },
        SpecHighlight { name: "Boolean"@, fg: Some("teal"@), bg: None, sp: None, attr: HighlightAttr::Nothing, scope: HighlightScope::All },
        SpecHighlight { name: "Number"@, fg: Some("teal"@), bg: None, sp: None, attr: HighlightAttr::Nothing, scope: HighlightScope::All },
        SpecHighlight { name: "Float"@, fg: Some("teal"@), bg: None, sp: None, attr: HighlightAttr::Nothing, scope: HighlightScope::All },
        SpecHighlight { name: "Title"@, fg: Some("yellow"@), bg: None, sp: None, attr: HighlightAttr::Bold, scope: HighlightScope::All },
        SpecHighlight { name: "Keyword"@, fg: Some("orange"@), bg: None, sp: None, attr: HighlightAttr::Nothing, scope: HighlightScope::All },
        SpecHighlight { name: "Identifier"@, fg: Some("orange"@), bg: None, sp: None, attr: HighlightAttr::Nothing, scope: HighlightScope::All },
        SpecHighlight { name: "Exception"@, fg: Some("yellow"@), bg: None, sp: None, attr: HighlightAttr::Nothing, scope: HighlightScope::All },
        SpecHighlight { name: "Type"@, fg: Some("yellow"@), bg: None, sp: None, attr: HighlightAttr::Clear, scope: HighlightScope::All },
        SpecHighlight { name: "TypeDef"@, fg: Some("yellow"@), bg: None, sp: None, attr: HighlightAttr::Clear, scope: HighlightScope::All },
        SpecHighlight { name: "PreProc"@, fg: Some("purple"@), bg: None, sp: None, attr: HighlightAttr::Nothing, scope: HighlightScope::All },
        SpecHighlight { name: "Special"@, fg: Some("pink"@), bg: None, sp: None, attr: HighlightAttr::Nothing, scope: HighlightScope::All },
        SpecHighlight { name: "SpecialKey"@, fg: Some("pink"@), bg: None, sp: None, attr: HighlightAttr::Nothing, scope: HighlightScope::All },
        SpecHighlight { name: "SpecialChar"@, fg: Some("pink"@), bg: None, sp: None, attr: HighlightAttr::Nothing, scope: HighlightScope::All },
        SpecHighlight { name: "SpecialComment"@, fg: Some("pink"@), bg: None, sp: None, attr: HighlightAttr::Nothing, scope: HighlightScope::All },
        SpecHighlight { name: "Error"@, fg: Some("errorfg"@), bg: Some("errorbg"@), sp: None, attr: HighlightAttr::Bold, scope: HighlightScope::All },
        SpecHighlight { name: "ErrorMsg"@, fg: Some("errorfg"@), bg: Some("NONE"@), sp: None, attr: HighlightAttr::Bold, scope: HighlightScope::All },
        SpecHighlight { name: "WarningMsg"@, fg: Some("warningfg"@), bg: None, sp: None, attr: HighlightAttr::Bold, scope: HighlightScope::All },
        SpecHighlight { name: "MoreMsg"@, fg: Some("morefg"@), bg: None, sp: None, attr: HighlightAttr::Nothing, scope: HighlightScope::All },
        SpecHighlight { name: "Todo"@, fg: Some("yellow"@), bg: Some("NONE"@), sp: None, attr: HighlightAttr::Bold, scope: HighlightScope::All },
        SpecHighlight { name: "Pmenu"@, fg: Some("pmenufg"@), bg: Some("pmenubg"@), sp: None, attr: HighlightAttr::Nothing, scope: HighlightScope::All },
    ]
}

fn build_catalogue_b() -> (v: Vec<Highlight>)
    ensures
        highlights_view(v@) == catalogue_b(),
{
    let mut v: Vec<Highlight> = Vec::new();
    v.push(Highlight { name: "Statement", fg: Some("purple"), bg: None, sp: None, attr: HighlightAttr::Clear, scope: HighlightScope::All });
    v.push(Highlight { name: "Label", fg: Some("purple"), bg: None, sp: None, attr: HighlightAttr::Clear, scope: HighlightScope::All });
    v.push(Highlight { name: "Function", fg: Some("purple"), bg: None, sp: None, attr: HighlightAttr::Clear, scope: HighlightScope::All });
    v.push(Highlight { name: "Constant", fg: Some("teal"), bg: None, sp: None, attr: HighlightAttr::Nothing, scope: HighlightScope::All });
    v.push(Highlight { name: "Boolean", fg: Some("teal"), bg: None, sp: None, attr: HighlightAttr::Nothing, scope: HighlightScope::All });
    v.push(Highlight { name: "Number", fg: Some("teal"), bg: None, sp: None, attr: HighlightAttr::Nothing, scope: HighlightScope::All });
    v.push(Highlight { name: "Float", fg: Some("teal"), bg: None, sp: None, attr: HighlightAttr::Nothing, scope: HighlightScope::All });
    v.push(Highlight { name: "Title", fg: Some("yellow"), bg: None, sp: None, attr: HighlightAttr::Bold, scope: HighlightScope::All });
    v.push(Highlight { name: "Keyword", fg: Some("orange"), bg: None, sp: None, attr: HighlightAttr::Nothing, scope: HighlightScope::All });
    v.push(Highlight { name: "Identifier", fg: Some("orange"), bg: None, sp: None, attr: HighlightAttr::Nothing, scope: HighlightScope::All });
    v.push(Highlight { name: "Exception", fg: Some("yellow"), bg: None, sp: None, attr: HighlightAttr::Nothing, scope: HighlightScope::All });
    v.push(Highlight { name: "Type", fg: Some("yellow"), bg: None, sp: None, attr: HighlightAttr::Clear, scope: HighlightScope::All });
    v.push(Highlight { name: "TypeDef", fg: Some("yellow"), bg: None, sp: None, attr: HighlightAttr::Clear, scope: HighlightScope::All });
    v.push(Highlight { name: "PreProc", fg: Some("purple"), bg: None, sp: None, attr: HighlightAttr::Nothing, scope: HighlightScope::All });
    v.push(Highlight { name: "Special", fg: Some("pink"), bg: None, sp: None, attr: HighlightAttr::Nothing, scope: HighlightScope::All });
    v.push(Highlight { name: "SpecialKey", fg: Some("pink"), bg: None, sp: None, attr: HighlightAttr::Nothing, scope: HighlightScope::All });
    v.push(Highlight { name: "SpecialChar", fg: Some("pink"), bg: None, sp: None, attr: HighlightAttr::Nothing, scope: HighlightScope::All });
    v.push(Highlight { name: "SpecialComment", fg: Some("pink"), bg: None, sp: None, attr: HighlightAttr::Nothing, scope: HighlightScope::All });
    v.push(Highlight { name: "Error", fg: Some("errorfg"), bg: Some("errorbg"), sp: None, attr: HighlightAttr::Bold, scope: HighlightScope::All });
    v.push(Highlight { name: "ErrorMsg", fg: Some("errorfg"), bg: Some("NONE"), sp: None, attr: HighlightAttr::Bold, scope: HighlightScope::All });
    v.push(Highlight { name: "WarningMsg", fg: Some("warningfg"), bg: None, sp: None, attr: HighlightAttr::Bold, scope: HighlightScope::All });
    v.push(Highlight { name: "MoreMsg", fg: Some("morefg"), bg: None, sp: None, attr: HighlightAttr::Nothing, scope: HighlightScope::All });
    v.push(Highlight { name: "Todo", fg: Some("yellow"), bg: Some("NONE"), sp: None, attr: HighlightAttr::Bold, scope: HighlightScope::All });
    v.push(Highlight { name: "Pmenu", fg: Some("pmenufg"), bg: Some("pmenubg"), sp: None, attr: HighlightAttr::Nothing, scope: HighlightScope::All });
    proof {
        assert(highlights_view(v@) =~= catalogue_b());
    }
    v
}

/// Part of the highlight-rule catalogue.
pub open spec fn catalogue_c() -> Seq<SpecHighlight> {
    seq![
        SpecHighlight { name: "PmenuSel"@, fg: Some("pmenuselfg"@), bg: Some("pmenuselbg"@), sp: None, attr: HighlightAttr::Nothing, scope: HighlightScope::All },
        SpecHighlight { name: "PmenuSbar"@, fg: None, bg: Some("pmenubar"@), sp: None, attr: HighlightAttr::Nothing, scope: HighlightScope::All },
        SpecHighlight { name: "PmenuThumb"@, fg: None, bg: Some("pmenuthumb"@), sp: None, attr: HighlightAttr::Nothing, scope: HighlightScope::All },
        SpecHighlight { name: "Visual"@, fg: None, bg: Some("visualbg"@), sp: None, attr: HighlightAttr::Clear, scope: HighlightScope::All },
        SpecHighlight { name: "Search"@, fg: Some("searchfg"@), bg: Some("searchbg"@), sp: None, attr: HighlightAttr::Nothing, scope: HighlightScope::All },
        SpecHighlight { name: "IncSearch"@, fg: Some("incsearchfg"@), bg: Some("incsearchbg"@), sp: None, attr: HighlightAttr::Clear, scope: HighlightScope::All },
        SpecHighlight { name: "Question"@, fg: Some("teal"@), bg: None, sp: None, attr: HighlightAttr::Bold, scope: HighlightScope::All },
        SpecHighlight { name: "WildMenu"@, fg: Some("mainbg"@), bg: Some("purple"@), sp: None, attr: HighlightAttr::Nothing, scope: HighlightScope::All },
        SpecHighlight { name: "SpellBad"@, fg: Some("errorfg"@), bg: None, sp: None, attr: HighlightAttr::Underline, scope: HighlightScope::All },
        SpecHighlight { name: "SpellCap"@, fg: None, bg: None, sp: None, attr: HighlightAttr::Underline, scope: HighlightScope::All },
        SpecHighlight { name: "SpellLocal"@, fg: Some("errorfg"@), bg: None, sp: None, attr: HighlightAttr::Underline, scope: HighlightScope::All },
        SpecHighlight { name: "SpellRare"@, fg: Some("yellow"@), bg: None, sp: None, attr: HighlightAttr::Underline, scope: HighlightScope::All },
        SpecHighlight { name: "DiffAdd"@, fg: None, bg: Some("diffaddbg"@), sp: None, attr: HighlightAttr::Bold, scope: HighlightScope::All },
        SpecHighlight { name: "DiffChange"@, fg: None, bg: Some("diffchangebg"@), sp: None, attr: HighlightAttr::Bold, scope: HighlightScope::All },
        SpecHighlight { name: "DiffDelete"@, fg: Some("diffdeletefg"@), bg: Some("diffdeletebg"@), sp: None, attr: HighlightAttr::Bold, scope: HighlightScope::All },
        SpecHighlight { name: "DiffText"@, fg: None, bg: Some("difftextbg"@), sp: None, attr: HighlightAttr::Clear, scope: HighlightScope::All },
        SpecHighlight { name: "QuickFixLine"@, fg: Some("mainfg"@), bg: Some("visualbg"@), sp: None, attr: HighlightAttr::Nothing, scope: HighlightScope::All },
        SpecHighlight { name: "StatusLine"@, fg: Some("statuslinefg"@), bg: Some("statuslinebg"@), sp: None, attr: HighlightAttr::Bold, scope: HighlightScope::All },
        SpecHighlight { name: "StatusLineTerm"@, fg: Some("statuslinefg"@), bg: Some("statuslinebg"@), sp: None, attr: HighlightAttr::Bold, scope: HighlightScope::All },
        SpecHighlight { name: "StatusLineNC"@, fg: Some("statuslinencfg"@), bg: Some("statuslinencbg"@), sp: None, attr: HighlightAttr::Clear, scope: HighlightScope::All },
        SpecHighlight { name: "StatusLineTermNC"@, fg: Some("statuslinencfg"@), bg: Some("statuslinencbg"@), sp: None, attr: HighlightAttr::Clear, scope: HighlightScope::All },
        SpecHighlight { name: "TabLine"@, fg: Some("statuslinefg"@), bg: Some("statuslinebg"@), sp: None, attr: HighlightAttr::Clear, scope: HighlightScope::All },
        SpecHighlight { name: "TabLineFill"@, fg: Some("statuslinefg"@), bg: Some("statuslinebg"@), sp: None, attr: HighlightAttr::Clear, scope: HighlightScope::All },
        SpecHighlight { name: "TabLineSel"@, fg: Some("tablineselfg"@), bg: Some("tablineselbg"@), sp: None, attr: HighlightAttr::Bold, scope: HighlightScope::All },
    ]
}

fn build_catalogue_c() -> (v: Vec<Highlight>)
    ensures
        highlights_view(v@) == catalogue_c(),
{
    let mut v: Vec<Highlight> = Vec::new();
    v.push(Highlight { name: "PmenuSel", fg: Some("pmenuselfg"), bg: Some("pmenuselbg"), sp: None, attr: HighlightAttr::Nothing, scope: HighlightScope::All });
    v.push(Highlight { name: "PmenuSbar", fg: None, bg: Some("pmenubar"), sp: None, attr: HighlightAttr::Nothing, scope: HighlightScope::All });
    v.push(Highlight { name: "PmenuThumb", fg: None, bg: Some("pmenuthumb"), sp: None, attr: HighlightAttr::Nothing, scope: HighlightScope::All });
    v.push(Highlight { name: "Visual", fg: None, bg: Some("visualbg"), sp: None, attr: HighlightAttr::Clear, scope: HighlightScope::All });
    v.push(Highlight { name: "Search", fg: Some("searchfg"), bg: Some("searchbg"), sp: None, attr: HighlightAttr::Nothing, scope: HighlightScope::All });
    v.push(Highlight { name: "IncSearch", fg: Some("incsearchfg"), bg: Some("incsearchbg"), sp: None, attr: HighlightAttr::Clear, scope: HighlightScope::All });
    v.push(Highlight { name: "Question", fg: Some("teal"), bg: None, sp: None, attr: HighlightAttr::Bold, scope: HighlightScope::All });
    v.push(Highlight { name: "WildMenu", fg: Some("mainbg"), bg: Some("purple"), sp: None, attr: HighlightAttr::Nothing, scope: HighlightScope::All });
    v.push(Highlight { name: "SpellBad", fg: Some("errorfg"), bg: None, sp: None, attr: HighlightAttr::Underline, scope: HighlightScope::All });
    v.push(Highlight { name: "SpellCap", fg: None, bg: None, sp: None, attr: HighlightAttr::Underline, scope: HighlightScope::All });
    v.push(Highlight { name: "SpellLocal", fg: Some("errorfg"), bg: None, sp: None, attr: HighlightAttr::Underline, scope: HighlightScope::All });
    v.push(Highlight { name: "SpellRare", fg: Some("yellow"), bg: None, sp: None, attr: HighlightAttr::Underline, scope: HighlightScope::All });
    v.push(Highlight { name: "DiffAdd", fg: None, bg: Some("diffaddbg"), sp: None, attr: HighlightAttr::Bold, scope: HighlightScope::All });
    v.push(Highlight { name: "DiffChange", fg: None, bg: Some("diffchangebg"), sp: None, attr: HighlightAttr::Bold, scope: HighlightScope::All });
    v.push(Highlight { name: "DiffDelete", fg: Some("diffdeletefg"), bg: Some("diffdeletebg"), sp: None, attr: HighlightAttr::Bold, scope: HighlightScope::All });
    v.push(Highlight { name: "DiffText", fg: None, bg: Some("difftextbg"), sp: None, attr: HighlightAttr::Clear, scope: HighlightScope::All });
    v.push(Highlight { name: "QuickFixLine", fg: Some("mainfg"), bg: Some("visualbg"), sp: None, attr: HighlightAttr::Nothing, scope: HighlightScope::All });
    v.push(Highlight { name: "StatusLine", fg: Some("statuslinefg"), bg: Some("statuslinebg"), sp: None, attr: HighlightAttr::Bold, scope: HighlightScope::All });
    v.push(Highlight { name: "StatusLineTerm", fg: Some("statuslinefg"), bg: Some("statuslinebg"), sp: None, attr: HighlightAttr::Bold, scope: HighlightScope::All });
    v.push(Highlight { name: "StatusLineNC", fg: Some("statuslinencfg"), bg: Some("statuslinencbg"), sp: None, attr: HighlightAttr::Clear, scope: HighlightScope::All });
    v.push(Highlight { name: "StatusLineTermNC", fg: Some("statuslinencfg"), bg: Some("statuslinencbg"), sp: None, attr: HighlightAttr::Clear, scope: HighlightScope::All });
    v.push(Highlight { name: "TabLine", fg: Some("statuslinefg"), bg: Some("statuslinebg"), sp: None, attr: HighlightAttr::Clear, scope: HighlightScope::All });
    v.push(Highlight { name: "TabLineFill", fg: Some("statuslinefg"), bg: Some("statuslinebg"), sp: None, attr: HighlightAttr::Clear, scope: HighlightScope::All });
    v.push(Highlight { name: "TabLineSel", fg: Some("tablineselfg"), bg: Some("tablineselbg"), sp: None, attr: HighlightAttr::Bold, scope: HighlightScope::All });
    proof {
        assert(highlights_view(v@) =~= catalogue_c());
    }
    v
}

/// Part of the highlight-rule catalogue.
pub open spec fn catalogue_d() -> Seq<SpecHighlight> {
    seq![
        SpecHighlight { name: "qfFileName"@, fg: Some("teal"@), bg: None, sp: None, attr: HighlightAttr::Nothing, scope: HighlightScope::All },
        SpecHighlight { name: "qfLineNr"@, fg: Some("weakfg"@), bg: None, sp: None, attr: HighlightAttr::Nothing, scope: HighlightScope::All },
        SpecHighlight { name: "@string"@, fg: Some("green"@), bg: None, sp: None, attr: HighlightAttr::Nothing, scope: HighlightScope::Nvim080OrLater },
        SpecHighlight { name: "@string.regex"@, fg: Some("green"@), bg: None, sp: None, attr: HighlightAttr::Nothing, scope: HighlightScope::Nvim080OrLater },
        SpecHighlight { name: "@string.escape"@, fg: Some("pink"@), bg: None, sp: None, attr: HighlightAttr::Nothing, scope: HighlightScope::Nvim080OrLater },
        SpecHighlight { name: "@string.special.url"@, fg: Some("weakfg"@), bg: None, sp: None, attr: HighlightAttr::Nothing, scope: HighlightScope::Nvim080OrLater },
        SpecHighlight { name: "@text.title"@, fg: Some("yellow"@), bg: None, sp: None, attr: HighlightAttr::Bold, scope: HighlightScope::Nvim080OrLater },
        SpecHighlight { name: "@text.reference"@, fg: Some("purple"@), bg: None, sp: None, attr: HighlightAttr::Nothing, scope: HighlightScope::Nvim080OrLater },
        SpecHighlight { name: "@text.uri"@, fg: Some("weakfg"@), bg: None, sp: None, attr: HighlightAttr::Nothing, scope: HighlightScope::Nvim080OrLater },
        SpecHighlight { name: "@text.strong"@, fg: None, bg: None, sp: None, attr: HighlightAttr::Bold, scope: HighlightScope::Nvim080OrLater },
        SpecHighlight { name: "@text.literal"@, fg: Some("teal"@), bg: None, sp: None, attr: HighlightAttr::Nothing, scope: HighlightScope::Nvim080OrLater },
        SpecHighlight { name: "@parameter"@, fg: Some("purple"@), bg: None, sp: None, attr: HighlightAttr::Nothing, scope: HighlightScope::Nvim080OrLater },
        SpecHighlight { name: "@property"@, fg: Some("purple"@), bg: None, sp: None, attr: HighlightAttr::Nothing, scope: HighlightScope::Nvim080OrLater },
        SpecHighlight { name: "@keyword"@, fg: Some("pink"@), bg: None, sp: None, attr: HighlightAttr::Nothing, scope: HighlightScope::Nvim080OrLater },
        SpecHighlight { name: "@operator"@, fg: Some("purple"@), bg: None, sp: None, attr: HighlightAttr::Nothing, scope: HighlightScope::Nvim080OrLater },
        SpecHighlight { name: "@module"@, fg: Some("mainfg"@), bg: None, sp: None, attr: HighlightAttr::Nothing, scope: HighlightScope::Nvim080OrLater },
        SpecHighlight { name: "@type"@, fg: Some("orange"@), bg: None, sp: None, attr: HighlightAttr::Nothing, scope: HighlightScope::Nvim080OrLater },
        SpecHighlight { name: "@type.builtin"@, fg: Some("orange"@), bg: None, sp: None, attr: HighlightAttr::Nothing, scope: HighlightScope::Nvim080OrLater },
        SpecHighlight { name: "@function.tsx"@, fg: Some("mainfg"@), bg: None, sp: None, attr: HighlightAttr::Nothing, scope: HighlightScope::Nvim080OrLater },
        SpecHighlight { name: "@punctuation.special.typescript"@, fg: Some("lightfg"@), bg: None, sp: None, attr: HighlightAttr::Nothing, scope: HighlightScope::Nvim080OrLater },
        SpecHighlight { name: "@include"@, fg: Some("purple"@), bg: None, sp: None, attr: HighlightAttr::Nothing, scope: HighlightScope::Nvim080OrLater },
        SpecHighlight { name: "@variable"@, fg: Some("mainfg"@), bg: None, sp: None, attr: HighlightAttr::Nothing, scope: HighlightScope::Nvim080OrLater },
        SpecHighlight { name: "@variable.builtin"@, fg: Some("orange"@), bg: None, sp: None, attr: HighlightAttr::Nothing, scope: HighlightScope::Nvim080OrLater },
        SpecHighlight { name: "@constant.builtin"@, fg: Some("teal"@), bg: None, sp: None, attr: HighlightAttr::Nothing, scope: HighlightScope::Nvim080OrLater },
    ]
}

fn build_catalogue_d() -> (v: Vec<Highlight>)
    ensures
        highlights_view(v@) == catalogue_d(),
{
    let mut v: Vec<Highlight> = Vec::new();
    v.push(Highlight { name: "qfFileName", fg: Some("teal"), bg: None, sp: None, attr: HighlightAttr::Nothing, scope: HighlightScope::All });
    v.push(Highlight { name: "qfLineNr", fg: Some("weakfg"), bg: None, sp: None, attr: HighlightAttr::Nothing, scope: HighlightScope::All });
    v.push(Highlight { name: "@string", fg: Some("green"), bg: None, sp: None, attr: HighlightAttr::Nothing, scope: HighlightScope::Nvim080OrLater });
    v.push(Highlight { name: "@string.regex", fg: Some("green"), bg: None, sp: None, attr: HighlightAttr::Nothing, scope: HighlightScope::Nvim080OrLater });
    v.push(Highlight { name: "@string.escape", fg: Some("pink"), bg: None, sp: None, attr: HighlightAttr::Nothing, scope: HighlightScope::Nvim080OrLater });
    v.push(Highlight { name: "@string.special.url", fg: Some("weakfg"), bg: None, sp: None, attr: HighlightAttr::Nothing, scope: HighlightScope::Nvim080OrLater });
    v.push(Highlight { name: "@text.title", fg: Some("yellow"), bg: None, sp: None, attr: HighlightAttr::Bold, scope: HighlightScope::Nvim080OrLater });
    v.push(Highlight { name: "@text.reference", fg: Some("purple"), bg: None, sp: None, attr: HighlightAttr::Nothing, scope: HighlightScope::Nvim080OrLater });
    v.push(Highlight { name: "@text.uri", fg: Some("weakfg"), bg: None, sp: None, attr: HighlightAttr::Nothing, scope: HighlightScope::Nvim080OrLater });
    v.push(Highlight { name: "@text.strong", fg: None, bg: None, sp: None, attr: HighlightAttr::Bold, scope: HighlightScope::Nvim080OrLater });
    v.push(Highlight { name: "@text.literal", fg: Some("teal"), bg: None, sp: None, attr: HighlightAttr::Nothing, scope: HighlightScope::Nvim080OrLater });
    v.push(Highlight { name: "@parameter", fg: Some("purple"), bg: None, sp: None, attr: HighlightAttr::Nothing, scope: HighlightScope::Nvim080OrLater });
    v.push(Highlight { name: "@property", fg: Some("purple"), bg: None, sp: None, attr: HighlightAttr::Nothing, scope: HighlightScope::Nvim080OrLater });
    v.push(Highlight { name: "@keyword", fg: Some("pink"), bg: None, sp: None, attr: HighlightAttr::Nothing, scope: HighlightScope::Nvim080OrLater });
    v.push(Highlight { name: "@operator", fg: Some("purple"), bg: None, sp: None, attr: HighlightAttr::Nothing, scope: HighlightScope::Nvim080OrLater });
    v.push(Highlight { name: "@module", fg: Some("mainfg"), bg: None, sp: None, attr: HighlightAttr::Nothing, scope: HighlightScope::Nvim080OrLater });
    v.push(Highlight { name: "@type", fg: Some("orange"), bg: None, sp: None, attr: HighlightAttr::Nothing, scope: HighlightScope::Nvim080OrLater });
    v.push(Highlight { name: "@type.builtin", fg: Some("orange"), bg: None, sp: None, attr: HighlightAttr::Nothing, scope: HighlightScope::Nvim080OrLater });
    v.push(Highlight { name: "@function.tsx", fg: Some("mainfg"), bg: None, sp: None, attr: HighlightAttr::Nothing, scope: HighlightScope::Nvim080OrLater });
    v.push(Highlight { name: "@punctuation.special.typescript", fg: Some("lightfg"), bg: None, sp: None, attr: HighlightAttr::Nothing, scope: HighlightScope::Nvim080OrLater });
    v.push(Highlight { name: "@include", fg: Some("purple"), bg: None, sp: None, attr: HighlightAttr::Nothing, scope: HighlightScope::Nvim080OrLater });
    v.push(Highlight { name: "@variable", fg: Some("mainfg"), bg: None, sp: None, attr: HighlightAttr::Nothing, scope: HighlightScope::Nvim080OrLater });
    v.push(Highlight { name: "@variable.builtin", fg: Some("orange"), bg: None, sp: None, attr: HighlightAttr::Nothing, scope: HighlightScope::Nvim080OrLater });
    v.push(Highlight { name: "@constant.builtin", fg: Some("teal"), bg: None, sp: None, attr: HighlightAttr::Nothing, scope: HighlightScope::Nvim080OrLater });
    proof {
        assert(highlights_view(v@) =~= catalogue_d());
    }
    v
}

/// Part of the highlight-rule catalogue.
pub open spec fn catalogue_e() -> Seq<SpecHighlight> {
    seq![
        SpecHighlight { name: "@constructor"@, fg: Some("mainfg"@), bg: None, sp: None, attr: HighlightAttr::Nothing, scope: HighlightScope::Nvim080OrLater },
        SpecHighlight { name: "@tag"@, fg: Some("mainfg"@), bg: None, sp: None, attr: HighlightAttr::Nothing, scope: HighlightScope::Nvim080OrLater },
        SpecHighlight { name: "@tag.delimiter"@, fg: Some("purple"@), bg: None, sp: None, attr: HighlightAttr::Nothing, scope: HighlightScope::Nvim080OrLater },
        SpecHighlight { name: "@tag.attribute"@, fg: Some("purple"@), bg: None, sp: None, attr: HighlightAttr::Nothing, scope: HighlightScope::Nvim080OrLater },
        SpecHighlight { name: "@tag.builtin.tsx"@, fg: Some("mainfg"@), bg: None, sp: None, attr: HighlightAttr::Nothing, scope: HighlightScope::Nvim080OrLater },
        SpecHighlight { name: "@markup.heading"@, fg: Some("yellow"@), bg: None, sp: None, attr: HighlightAttr::Bold, scope: HighlightScope::Nvim080OrLater },
        SpecHighlight { name: "@markup.strong"@, fg: None, bg: None, sp: None, attr: HighlightAttr::Bold, scope: HighlightScope::Nvim080OrLater },
        SpecHighlight { name: "@markup.list"@, fg: Some("weakfg"@), bg: None, sp: None, attr: HighlightAttr::Nothing, scope: HighlightScope::Nvim080OrLater },
        SpecHighlight { name: "@markup.raw"@, fg: Some("teal"@), bg: None, sp: None, attr: HighlightAttr::Nothing, scope: HighlightScope::Nvim080OrLater },
        SpecHighlight { name: "@markup.link"@, fg: Some("purple"@), bg: None, sp: None, attr: HighlightAttr::Nothing, scope: HighlightScope::Nvim080OrLater },
        SpecHighlight { name: "@markup.link.url"@, fg: Some("lightfg"@), bg: None, sp: None, attr: HighlightAttr::Nothing, scope: HighlightScope::Nvim080OrLater },
        SpecHighlight { name: "@markup.quote"@, fg: Some("weakfg"@), bg: None, sp: None, attr: HighlightAttr::Nothing, scope: HighlightScope::Nvim080OrLater },
        SpecHighlight { name: "@lsp.type.class"@, fg: Some("mainfg"@), bg: None, sp: None, attr: HighlightAttr::Nothing, scope: HighlightScope::Nvim080OrLater },
        SpecHighlight { name: "@lsp.type.interface"@, fg: Some("orange"@), bg: None, sp: None, attr: HighlightAttr::Nothing, scope: HighlightScope::Nvim080OrLater },
        SpecHighlight { name: "@lsp.type.parameter"@, fg: Some("purple"@), bg: None, sp: None, attr: HighlightAttr::Nothing, scope: HighlightScope::Nvim080OrLater },
        SpecHighlight { name: "@lsp.type.property"@, fg: Some("purple"@), bg: None, sp: None, attr: HighlightAttr::Nothing, scope: HighlightScope::Nvim080OrLater },
        SpecHighlight { name: "@lsp.type.struct"@, fg: Some("mainfg"@), bg: None, sp: None, attr: HighlightAttr::Nothing, scope: HighlightScope::Nvim080OrLater },
        SpecHighlight { name: "@lsp.type.type"@, fg: Some("orange"@), bg: None, sp: None, attr: HighlightAttr::Nothing, scope: HighlightScope::Nvim080OrLater },
        SpecHighlight { name: "@lsp.type.typeParameter"@, fg: Some("mainfg"@), bg: None, sp: None, attr: HighlightAttr::Nothing, scope: HighlightScope::Nvim080OrLater },
        SpecHighlight { name: "@lsp.type.variable"@, fg: Some("mainfg"@), bg: None, sp: None, attr: HighlightAttr::Nothing, scope: HighlightScope::Nvim080OrLater },
        SpecHighlight { name: "@lsp.type.member"@, fg: Some("purple"@), bg: None, sp: None, attr: HighlightAttr::Nothing, scope: HighlightScope::Nvim080OrLater },
        SpecHighlight { name: "@lsp.type.namespace"@, fg: Some("mainfg"@), bg: None, sp: None, attr: HighlightAttr::Nothing, scope: HighlightScope::Nvim080OrLater },
        SpecHighlight { name: "DiagnosticError"@, fg: Some("errorfg"@), bg: None, sp: None, attr: HighlightAttr::Nothing, scope: HighlightScope::All },
        SpecHighlight { name: "DiagnosticVirtualTextError"@, fg: Some("errorfg"@), bg: None, sp: None, attr: HighlightAttr::Bold, scope: HighlightScope::All },
    ]
}

fn build_catalogue_e() -> (v: Vec<Highlight>)
    ensures
        highlights_view(v@) == catalogue_e(),
{
    let mut v: Vec<Highlight> = Vec::new();
    v.push(Highlight { name: "@constructor", fg: Some("mainfg"), bg: None, sp: None, attr: HighlightAttr::Nothing, scope: HighlightScope::Nvim080OrLater });
    v.push(Highlight { name: "@tag", fg: Some("mainfg"), bg: None, sp: None, attr: HighlightAttr::Nothing, scope: HighlightScope::Nvim080OrLater });
    v.push(Highlight { name: "@tag.delimiter", fg: Some("purple"), bg: None, sp: None, attr: HighlightAttr::Nothing, scope: HighlightScope::Nvim080OrLater });
    v.push(Highlight { name: "@tag.attribute", fg: Some("purple"), bg: None, sp: None, attr: HighlightAttr::Nothing, scope: HighlightScope::Nvim080OrLater });
    v.push(Highlight { name: "@tag.builtin.tsx", fg: Some("mainfg"), bg: None, sp: None, attr: HighlightAttr::Nothing, scope: HighlightScope::Nvim080OrLater });
    v.push(Highlight { name: "@markup.heading", fg: Some("yellow"), bg: None, sp: None, attr: HighlightAttr::Bold, scope: HighlightScope::Nvim080OrLater });
    v.push(Highlight { name: "@markup.strong", fg: None, bg: None, sp: None, attr: HighlightAttr::Bold, scope: HighlightScope::Nvim080OrLater });
    v.push(Highlight { name: "@markup.list", fg: Some("weakfg"), bg: None, sp: None, attr: HighlightAttr::Nothing, scope: HighlightScope::Nvim080OrLater });
    v.push(Highlight { name: "@markup.raw", fg: Some("teal"), bg: None, sp: None, attr: HighlightAttr::Nothing, scope: HighlightScope::Nvim080OrLater });
    v.push(Highlight { name: "@markup.link", fg: Some("purple"), bg: None, sp: None, attr: HighlightAttr::Nothing, scope: HighlightScope::Nvim080OrLater });
    v.push(Highlight { name: "@markup.link.url", fg: Some("lightfg"), bg: None, sp: None, attr: HighlightAttr::Nothing, scope: HighlightScope::Nvim080OrLater });
    v.push(Highlight { name: "@markup.quote", fg: Some("weakfg"), bg: None, sp: None, attr: HighlightAttr::Nothing, scope: HighlightScope::Nvim080OrLater });
    v.push(Highlight { name: "@lsp.type.class", fg: Some("mainfg"), bg: None, sp: None, attr: HighlightAttr::Nothing, scope: HighlightScope::Nvim080OrLater });
    v.push(Highlight { name: "@lsp.type.interface", fg: Some("orange"), bg: None, sp: None, attr: HighlightAttr::Nothing, scope: HighlightScope::Nvim080OrLater });
    v.push(Highlight { name: "@lsp.type.parameter", fg: Some("purple"), bg: None, sp: None, attr: HighlightAttr::Nothing, scope: HighlightScope::Nvim080OrLater });
    v.push(Highlight { name: "@lsp.type.property", fg: Some("purple"), bg: None, sp: None, attr: HighlightAttr::Nothing, scope: HighlightScope::Nvim080OrLater });
    v.push(Highlight { name: "@lsp.type.struct", fg: Some("mainfg"), bg: None, sp: None, attr: HighlightAttr::Nothing, scope: HighlightScope::Nvim080OrLater });
    v.push(Highlight { name: "@lsp.type.type", fg: Some("orange"), bg: None, sp: None, attr: HighlightAttr::Nothing, scope: HighlightScope::Nvim080OrLater });
    v.push(Highlight { name: "@lsp.type.typeParameter", fg: Some("mainfg"), bg: None, sp: None, attr: HighlightAttr::Nothing, scope: HighlightScope::Nvim080OrLater });
    v.push(Highlight { name: "@lsp.type.variable", fg: Some("mainfg"), bg: None, sp: None, attr: HighlightAttr::Nothing, scope: HighlightScope::Nvim080OrLater });
    v.push(Highlight { name: "@lsp.type.member", fg: Some("purple"), bg: None, sp: None, attr: HighlightAttr::Nothing, scope: HighlightScope::Nvim080OrLater });
    v.push(Highlight { name: "@lsp.type.namespace", fg: Some("mainfg"), bg: None, sp: None, attr: HighlightAttr::Nothing, scope: HighlightScope::Nvim080OrLater });
    v.push(Highlight { name: "DiagnosticError", fg: Some("errorfg"), bg: None, sp: None, attr: HighlightAttr::Nothing, scope: HighlightScope::All });
    v.push(Highlight { name: "DiagnosticVirtualTextError", fg: Some("errorfg"), bg: None, sp: None, attr: HighlightAttr::Bold, scope: HighlightScope::All });
    proof {
        assert(highlights_view(v@) =~= catalogue_e());
    }
    v
}

/// Part of the highlight-rule catalogue.
pub open spec fn catalogue_f() -> Seq<SpecHighlight> {
    seq![
        SpecHighlight { name: "DiagnosticUnderlineError"@, fg: Some("errorfg"@), bg: None, sp: None, attr: HighlightAttr::Underline, scope: HighlightScope::All },
        SpecHighlight { name: "DiagnosticWarn"@, fg: Some("warningfg"@), bg: None, sp: None, attr: HighlightAttr::Nothing, scope: HighlightScope::All },
        SpecHighlight { name: "DiagnosticVirtualTextWarn"@, fg: Some("warningfg"@), bg: None, sp: None, attr: HighlightAttr::Bold, scope: HighlightScope::All },
        SpecHighlight { name: "DiagnosticUnderlineWarn"@, fg: Some("warningfg"@), bg: None, sp: None, attr: HighlightAttr::Underline, scope: HighlightScope::All },
        SpecHighlight { name: "DiagnosticInfo"@, fg: Some("infofg"@), bg: None, sp: None, attr: HighlightAttr::Nothing, scope: HighlightScope::All },
        SpecHighlight { name: "DiagnosticVirtualTextInfo"@, fg: Some("weakfg"@), bg: None, sp: None, attr: HighlightAttr::Bold, scope: HighlightScope::All },
        SpecHighlight { name: "DiagnosticUnderlineInfo"@, fg: None, bg: None, sp: None, attr: HighlightAttr::Underline, scope: HighlightScope::All },
        SpecHighlight { name: "DiagnosticHint"@, fg: Some("infofg"@), bg: None, sp: None, attr: HighlightAttr::Nothing, scope: HighlightScope::All },
        SpecHighlight { name: "DiagnosticVirtualTextHint"@, fg: Some("weakfg"@), bg: None, sp: None, attr: HighlightAttr::Bold, scope: HighlightScope::All },
        SpecHighlight { name: "DiagnosticUnderlineHint"@, fg: None, bg: None, sp: None, attr: HighlightAttr::Underline, scope: HighlightScope::All },
        SpecHighlight { name: "LspSignatureActiveParameter"@, fg: None, bg: None, sp: None, attr: HighlightAttr::Italic, scope: HighlightScope::All },
        SpecHighlight { name: "LspReferenceText"@, fg: None, bg: Some("matchparenbg"@), sp: None, attr: HighlightAttr::Nothing, scope: HighlightScope::All },
        SpecHighlight { name: "LspReferenceRead"@, fg: None, bg: Some("matchparenbg"@), sp: None, attr: HighlightAttr::Nothing, scope: HighlightScope::All },
        SpecHighlight { name: "LspReferenceWrite"@, fg: None, bg: Some("matchparenbg"@), sp: None, attr: HighlightAttr::Nothing, scope: HighlightScope::All },
        SpecHighlight { name: "htmlTag"@, fg: Some("lightfg"@), bg: None, sp: None, attr: HighlightAttr::Nothing, scope: HighlightScope::All },
        SpecHighlight { name: "htmlEndTag"@, fg: Some("lightfg"@), bg: None, sp: None, attr: HighlightAttr::Nothing, scope: HighlightScope::All },
        SpecHighlight { name: "htmlSpecialTagName"@, fg: Some("orange"@), bg: None, sp: None, attr: HighlightAttr::Nothing, scope: HighlightScope::All },
        SpecHighlight { name: "htmlArg"@, fg: Some("lightfg"@), bg: None, sp: None, attr: HighlightAttr::Nothing, scope: HighlightScope::All },
        SpecHighlight { name: "jsonQuote"@, fg: Some("lightfg"@), bg: None, sp: None, attr: HighlightAttr::Nothing, scope: HighlightScope::All },
        SpecHighlight { name: "yamlBlockMappingKey"@, fg: Some("purple"@), bg: None, sp: None, attr: HighlightAttr::Nothing, scope: HighlightScope::All },
        SpecHighlight { name: "yamlAnchor"@, fg: Some("pink"@), bg: None, sp: None, attr: HighlightAttr::Nothing, scope: HighlightScope::All },
        SpecHighlight { name: "pythonStatement"@, fg: Some("orange"@), bg: None, sp: None, attr: HighlightAttr::Nothing, scope: HighlightScope::All },
        SpecHighlight { name: "pythonBuiltin"@, fg: Some("cyan"@), bg: None, sp: None, attr: HighlightAttr::Nothing, scope: HighlightScope::All },
        SpecHighlight { name: "pythonRepeat"@, fg: Some("orange"@), bg: None, sp: None, attr: HighlightAttr::Nothing, scope: HighlightScope::All },
    ]
}

fn build_catalogue_f() -> (v: Vec<Highlight>)
    ensures
        highlights_view(v@) == catalogue_f(),
{
    let mut v: Vec<Highlight> = Vec::new();
    v.push(Highlight { name: "DiagnosticUnderlineError", fg: Some("errorfg"), bg: None, sp: None, attr: HighlightAttr::Underline, scope: HighlightScope::All });
    v.push(Highlight { name: "DiagnosticWarn", fg: Some("warningfg"), bg: None, sp: None, attr: HighlightAttr::Nothing, scope: HighlightScope::All });
    v.push(Highlight { name: "DiagnosticVirtualTextWarn", fg: Some("warningfg"), bg: None, sp: None, attr: HighlightAttr::Bold, scope: HighlightScope::All });
    v.push(Highlight { name: "DiagnosticUnderlineWarn", fg: Some("warningfg"), bg: None, sp: None, attr: HighlightAttr::Underline, scope: HighlightScope::All });
    v.push(Highlight { name: "DiagnosticInfo", fg: Some("infofg"), bg: None, sp: None, attr: HighlightAttr::Nothing, scope: HighlightScope::All });
    v.push(Highlight { name: "DiagnosticVirtualTextInfo", fg: Some("weakfg"), bg: None, sp: None, attr: HighlightAttr::Bold, scope: HighlightScope::All });
    v.push(Highlight { name: "DiagnosticUnderlineInfo", fg: None, bg: None, sp: None, attr: HighlightAttr::Underline, scope: HighlightScope::All });
    v.push(Highlight { name: "DiagnosticHint", fg: Some("infofg"), bg: None, sp: None, attr: HighlightAttr::Nothing, scope: HighlightScope::All });
    v.push(Highlight { name: "DiagnosticVirtualTextHint", fg: Some("weakfg"), bg: None, sp: None, attr: HighlightAttr::Bold, scope: HighlightScope::All });
    v.push(Highlight { name: "DiagnosticUnderlineHint", fg: None, bg: None, sp: None, attr: HighlightAttr::Underline, scope: HighlightScope::All });
    v.push(Highlight { name: "LspSignatureActiveParameter", fg: None, bg: None, sp: None, attr: HighlightAttr::Italic, scope: HighlightScope::All });
    v.push(Highlight { name: "LspReferenceText", fg: None, bg: Some("matchparenbg"), sp: None, attr: HighlightAttr::Nothing, scope: HighlightScope::All });
    v.push(Highlight { name: "LspReferenceRead", fg: None, bg: Some("matchparenbg"), sp: None, attr: HighlightAttr::Nothing, scope: HighlightScope::All });
    v.push(Highlight { name: "LspReferenceWrite", fg: None, bg: Some("matchparenbg"), sp: None, attr: HighlightAttr::Nothing, scope: HighlightScope::All });
    v.push(Highlight { name: "htmlTag", fg: Some("lightfg"), bg: None, sp: None, attr: HighlightAttr::Nothing, scope: HighlightScope::All });
    v.push(Highlight { name: "htmlEndTag", fg: Some("lightfg"), bg: None, sp: None, attr: HighlightAttr::Nothing, scope: HighlightScope::All });
    v.push(Highlight { name: "htmlSpecialTagName", fg: Some("orange"), bg: None, sp: None, attr: HighlightAttr::Nothing, scope: HighlightScope::All });
    v.push(Highlight { name: "htmlArg", fg: Some("lightfg"), bg: None, sp: None, attr: HighlightAttr::Nothing, scope: HighlightScope::All });
    v.push(Highlight { name: "jsonQuote", fg: Some("lightfg"), bg: None, sp: None, attr: HighlightAttr::Nothing, scope: HighlightScope::All });
    v.push(Highlight { name: "yamlBlockMappingKey", fg: Some("purple"), bg: None, sp: None, attr: HighlightAttr::Nothing, scope: HighlightScope::All });
    v.push(Highlight { name: "yamlAnchor", fg: Some("pink"), bg: None, sp: None, attr: HighlightAttr::Nothing, scope: HighlightScope::All });
    v.push(Highlight { name: "pythonStatement", fg: Some("orange"), bg: None, sp: None, attr: HighlightAttr::Nothing, scope: HighlightScope::All });
    v.push(Highlight { name: "pythonBuiltin", fg: Some("cyan"), bg: None, sp: None, attr: HighlightAttr::Nothing, scope: HighlightScope::All });
    v.push(Highlight { name: "pythonRepeat", fg: Some("orange"), bg: None, sp: None, attr: HighlightAttr::Nothing, scope: HighlightScope::All });
    proof {
        assert(highlights_view(v@) =~= catalogue_f());
    }
    v
}

/// Part of the highlight-rule catalogue.
pub open spec fn catalogue_g() -> Seq<SpecHighlight> {
    seq![
        SpecHighlight { name: "pythonOperator"@, fg: Some("orange"@), bg: None, sp: None, attr: HighlightAttr::Nothing, scope: HighlightScope::All },
        SpecHighlight { name: "pythonDecorator"@, fg: Some("pink"@), bg: None, sp: None, attr: HighlightAttr::Nothing, scope: HighlightScope::All },
        SpecHighlight { name: "pythonDecoratorName"@, fg: Some("pink"@), bg: None, sp: None, attr: HighlightAttr::Nothing, scope: HighlightScope::All },
        SpecHighlight { name: "zshVariableDef"@, fg: Some("purple"@), bg: None, sp: None, attr: HighlightAttr::Nothing, scope: HighlightScope::All },
        SpecHighlight { name: "zshFunction"@, fg: Some("purple"@), bg: None, sp: None, attr: HighlightAttr::Nothing, scope: HighlightScope::All },
        SpecHighlight { name: "zshKSHFunction"@, fg: Some("purple"@), bg: None, sp: None, attr: HighlightAttr::Nothing, scope: HighlightScope::All },
        SpecHighlight { name: "cPreCondit"@, fg: Some("orange"@), bg: None, sp: None, attr: HighlightAttr::Nothing, scope: HighlightScope::All },
        SpecHighlight { name: "cIncluded"@, fg: Some("pink"@), bg: None, sp: None, attr: HighlightAttr::Nothing, scope: HighlightScope::All },
        SpecHighlight { name: "cStorageClass"@, fg: Some("orange"@), bg: None, sp: None, attr: HighlightAttr::Nothing, scope: HighlightScope::All },
        SpecHighlight { name: "cppStructure"@, fg: Some("pink"@), bg: None, sp: None, attr: HighlightAttr::Nothing, scope: HighlightScope::All },
        SpecHighlight { name: "cppSTLnamespace"@, fg: Some("orange"@), bg: None, sp: None, attr: HighlightAttr::Nothing, scope: HighlightScope::All },
        SpecHighlight { name: "csStorage"@, fg: Some("orange"@), bg: None, sp: None, attr: HighlightAttr::Nothing, scope: HighlightScope::All },
        SpecHighlight { name: "csModifier"@, fg: Some("purple"@), bg: None, sp: None, attr: HighlightAttr::Nothing, scope: HighlightScope::All },
        SpecHighlight { name: "csClass"@, fg: Some("purple"@), bg: None, sp: None, attr: HighlightAttr::Nothing, scope: HighlightScope::All },
        SpecHighlight { name: "csClassType"@, fg: Some("pink"@), bg: None, sp: None, attr: HighlightAttr::Nothing, scope: HighlightScope::All },
        SpecHighlight { name: "csNewType"@, fg: Some("orange"@), bg: None, sp: None, attr: HighlightAttr::Nothing, scope: HighlightScope::All },
        SpecHighlight { name: "rubyConstant"@, fg: Some("orange"@), bg: None, sp: None, attr: HighlightAttr::Nothing, scope: HighlightScope::All },
        SpecHighlight { name: "rubySymbol"@, fg: Some("purple"@), bg: None, sp: None, attr: HighlightAttr::Nothing, scope: HighlightScope::All },
        SpecHighlight { name: "rubyBlockParameter"@, fg: Some("purple"@), bg: None, sp: None, attr: HighlightAttr::Nothing, scope: HighlightScope::All },
        SpecHighlight { name: "rubyClassName"@, fg: Some("pink"@), bg: None, sp: None, attr: HighlightAttr::Nothing, scope: HighlightScope::All },
        SpecHighlight { name: "rubyInstanceVariable"@, fg: Some("pink"@), bg: None, sp: None, attr: HighlightAttr::Nothing, scope: HighlightScope::All },
        SpecHighlight { name: "typescriptImport"@, fg: Some("purple"@), bg: None, sp: None, attr: HighlightAttr::Nothing, scope: HighlightScope::All },
        SpecHighlight { name: "typescriptDocRef"@, fg: Some("weakfg"@), bg: None, sp: None, attr: HighlightAttr::Underline, scope: HighlightScope::All },
        SpecHighlight { name: "mkdHeading"@, fg: Some("weakfg"@), bg: None, sp: None, attr: HighlightAttr::Nothing, scope: HighlightScope::All },
    ]
}

fn build_catalogue_g() -> (v: Vec<Highlight>)
    ensures
        highlights_view(v@) == catalogue_g(),
{
    let mut v: Vec<Highlight> = Vec::new();
    v.push(Highlight { name: "pythonOperator", fg: Some("orange"), bg: None, sp: None, attr: HighlightAttr::Nothing, scope: HighlightScope::All });
    v.push(Highlight { name: "pythonDecorator", fg: Some("pink"), bg: None, sp: None, attr: HighlightAttr::Nothing, scope: HighlightScope::All });
    v.push(Highlight { name: "pythonDecoratorName", fg: Some("pink"), bg: None, sp: None, attr: HighlightAttr::Nothing, scope: HighlightScope::All });
    v.push(Highlight { name: "zshVariableDef", fg: Some("purple"), bg: None, sp: None, attr: HighlightAttr::Nothing, scope: HighlightScope::All });
    v.push(Highlight { name: "zshFunction", fg: Some("purple"), bg: None, sp: None, attr: HighlightAttr::Nothing, scope: HighlightScope::All });
    v.push(Highlight { name: "zshKSHFunction", fg: Some("purple"), bg: None, sp: None, attr: HighlightAttr::Nothing, scope: HighlightScope::All });
    v.push(Highlight { name: "cPreCondit", fg: Some("orange"), bg: None, sp: None, attr: HighlightAttr::Nothing, scope: HighlightScope::All });
    v.push(Highlight { name: "cIncluded", fg: Some("pink"), bg: None, sp: None, attr: HighlightAttr::Nothing, scope: HighlightScope::All });
    v.push(Highlight { name: "cStorageClass", fg: Some("orange"), bg: None, sp: None, attr: HighlightAttr::Nothing, scope: HighlightScope::All });
    v.push(Highlight { name: "cppStructure", fg: Some("pink"), bg: None, sp: None, attr: HighlightAttr::Nothing, scope: HighlightScope::All });
    v.push(Highlight { name: "cppSTLnamespace", fg: Some("orange"), bg: None, sp: None, attr: HighlightAttr::Nothing, scope: HighlightScope::All });
    v.push(Highlight { name: "csStorage", fg: Some("orange"), bg: None, sp: None, attr: HighlightAttr::Nothing, scope: HighlightScope::All });
    v.push(Highlight { name: "csModifier", fg: Some("purple"), bg: None, sp: None, attr: HighlightAttr::Nothing, scope: HighlightScope::All });
    v.push(Highlight { name: "csClass", fg: Some("purple"), bg: None, sp: None, attr: HighlightAttr::Nothing, scope: HighlightScope::All });
    v.push(Highlight { name: "csClassType", fg: Some("pink"), bg: None, sp: None, attr: HighlightAttr::Nothing, scope: HighlightScope::All });
    v.push(Highlight { name: "csNewType", fg: Some("orange"), bg: None, sp: None, attr: HighlightAttr::Nothing, scope: HighlightScope::All });
    v.push(Highlight { name: "rubyConstant", fg: Some("orange"), bg: None, sp: None, attr: HighlightAttr::Nothing, scope: HighlightScope::All });
    v.push(Highlight { name: "rubySymbol", fg: Some("purple"), bg: None, sp: None, attr: HighlightAttr::Nothing, scope: HighlightScope::All });
    v.push(Highlight { name: "rubyBlockParameter", fg: Some("purple"), bg: None, sp: None, attr: HighlightAttr::Nothing, scope: HighlightScope::All });
    v.push(Highlight { name: "rubyClassName", fg: Some("pink"), bg: None, sp: None, attr: HighlightAttr::Nothing, scope: HighlightScope::All });
    v.push(Highlight { name: "rubyInstanceVariable", fg: Some("pink"), bg: None, sp: None, attr: HighlightAttr::Nothing, scope: HighlightScope::All });
    v.push(Highlight { name: "typescriptImport", fg: Some("purple"), bg: None, sp: None, attr: HighlightAttr::Nothing, scope: HighlightScope::All });
    v.push(Highlight { name: "typescriptDocRef", fg: Some("weakfg"), bg: None, sp: None, attr: HighlightAttr::Underline, scope: HighlightScope::All });
    v.push(Highlight { name: "mkdHeading", fg: Some("weakfg"), bg: None, sp: None, attr: HighlightAttr::Nothing, scope: HighlightScope::All });
    proof {
        assert(highlights_view(v@) =~= catalogue_g());
    }
    v
}

/// Part of the highlight-rule catalogue.
pub open spec fn catalogue_h() -> Seq<SpecHighlight> {
    seq![
        SpecHighlight { name: "mkdLink"@, fg: Some("purple"@), bg: None, sp: None, attr: HighlightAttr::Nothing, scope: HighlightScope::All },
        SpecHighlight { name: "mkdCode"@, fg: Some("purple"@), bg: None, sp: None, attr: HighlightAttr::Nothing, scope: HighlightScope::All },
        SpecHighlight { name: "mkdCodeStart"@, fg: Some("purple"@), bg: None, sp: None, attr: HighlightAttr::Nothing, scope: HighlightScope::All },
        SpecHighlight { name: "mkdCodeEnd"@, fg: Some("purple"@), bg: None, sp: None, attr: HighlightAttr::Nothing, scope: HighlightScope::All },
        SpecHighlight { name: "mkdCodeDelimiter"@, fg: Some("purple"@), bg: None, sp: None, attr: HighlightAttr::Nothing, scope: HighlightScope::All },
        SpecHighlight { name: "tomlTable"@, fg: Some("purple"@), bg: None, sp: None, attr: HighlightAttr::Nothing, scope: HighlightScope::All },
        SpecHighlight { name: "rustModPath"@, fg: Some("purple"@), bg: None, sp: None, attr: HighlightAttr::Nothing, scope: HighlightScope::All },
        SpecHighlight { name: "rustTypedef"@, fg: Some("purple"@), bg: None, sp: None, attr: HighlightAttr::Nothing, scope: HighlightScope::All },
        SpecHighlight { name: "rustStructure"@, fg: Some("purple"@), bg: None, sp: None, attr: HighlightAttr::Nothing, scope: HighlightScope::All },
        SpecHighlight { name: "rustMacro"@, fg: Some("purple"@), bg: None, sp: None, attr: HighlightAttr::Nothing, scope: HighlightScope::All },
        SpecHighlight { name: "rustExternCrate"@, fg: Some("purple"@), bg: None, sp: None, attr: HighlightAttr::Nothing, scope: HighlightScope::All },
        SpecHighlight { name: "graphqlStructure"@, fg: Some("pink"@), bg: None, sp: None, attr: HighlightAttr::Nothing, scope: HighlightScope::All },
        SpecHighlight { name: "graphqlDirective"@, fg: Some("pink"@), bg: None, sp: None, attr: HighlightAttr::Nothing, scope: HighlightScope::All },
        SpecHighlight { name: "graphqlName"@, fg: Some("purple"@), bg: None, sp: None, attr: HighlightAttr::Nothing, scope: HighlightScope::All },
        SpecHighlight { name: "graphqlTemplateString"@, fg: Some("mainfg"@), bg: None, sp: None, attr: HighlightAttr::Nothing, scope: HighlightScope::All },
        SpecHighlight { name: "vimfilerOpenedFile"@, fg: Some("darkpurple"@), bg: None, sp: None, attr: HighlightAttr::Nothing, scope: HighlightScope::All },
        SpecHighlight { name: "vimfilerClosedFile"@, fg: Some("darkpurple"@), bg: None, sp: None, attr: HighlightAttr::Nothing, scope: HighlightScope::All },
        SpecHighlight { name: "vimfilerNonMark"@, fg: Some("teal"@), bg: None, sp: None, attr: HighlightAttr::Nothing, scope: HighlightScope::All },
        SpecHighlight { name: "vimfilerLeaf"@, fg: Some("teal"@), bg: None, sp: None, attr: HighlightAttr::Nothing, scope: HighlightScope::All },
        SpecHighlight { name: "DefxIconsMarkIcon"@, fg: Some("darkpurple"@), bg: None, sp: None, attr: HighlightAttr::Clear, scope: HighlightScope::All },
        SpecHighlight { name: "DefxIconsDirectory"@, fg: Some("darkpurple"@), bg: None, sp: None, attr: HighlightAttr::Clear, scope: HighlightScope::All },
        SpecHighlight { name: "DefxIconsParentDirectory"@, fg: Some("darkpurple"@), bg: None, sp: None, attr: HighlightAttr::Clear, scope: HighlightScope::All },
        SpecHighlight { name: "DefxIconsSymlinkDirectory"@, fg: Some("teal"@), bg: None, sp: None, attr: HighlightAttr::Clear, scope: HighlightScope::All },
        SpecHighlight { name: "DefxIconsOpenedTreeIcon"@, fg: Some("darkpurple"@), bg: None, sp: None, attr: HighlightAttr::Clear, scope: HighlightScope::All },
    ]
}

fn build_catalogue_h() -> (v: Vec<Highlight>)
    ensures
        highlights_view(v@) == catalogue_h(),
{
    let mut v: Vec<Highlight> = Vec::new();
    v.push(Highlight { name: "mkdLink", fg: Some("purple"), bg: None, sp: None, attr: HighlightAttr::Nothing, scope: HighlightScope::All });
    v.push(Highlight { name: "mkdCode", fg: Some("purple"), bg: None, sp: None, attr: HighlightAttr::Nothing, scope: HighlightScope::All });
    v.push(Highlight { name: "mkdCodeStart", fg: Some("purple"), bg: None, sp: None, attr: HighlightAttr::Nothing, scope: HighlightScope::All });
    v.push(Highlight { name: "mkdCodeEnd", fg: Some("purple"), bg: None, sp: None, attr: HighlightAttr::Nothing, scope: HighlightScope::All });
    v.push(Highlight { name: "mkdCodeDelimiter", fg: Some("purple"), bg: None, sp: None, attr: HighlightAttr::Nothing, scope: HighlightScope::All });
    v.push(Highlight { name: "tomlTable", fg: Some("purple"), bg: None, sp: None, attr: HighlightAttr::Nothing, scope: HighlightScope::All });
    v.push(Highlight { name: "rustModPath", fg: Some("purple"), bg: None, sp: None, attr: HighlightAttr::Nothing, scope: HighlightScope::All });
    v.push(Highlight { name: "rustTypedef", fg: Some("purple"), bg: None, sp: None, attr: HighlightAttr::Nothing, scope: HighlightScope::All });
    v.push(Highlight { name: "rustStructure", fg: Some("purple"), bg: None, sp: None, attr: HighlightAttr::Nothing, scope: HighlightScope::All });
    v.push(Highlight { name: "rustMacro", fg: Some("purple"), bg: None, sp: None, attr: HighlightAttr::Nothing, scope: HighlightScope::All });
    v.push(Highlight { name: "rustExternCrate", fg: Some("purple"), bg: None, sp: None, attr: HighlightAttr::Nothing, scope: HighlightScope::All });
    v.push(Highlight { name: "graphqlStructure", fg: Some("pink"), bg: None, sp: None, attr: HighlightAttr::Nothing, scope: HighlightScope::All });
    v.push(Highlight { name: "graphqlDirective", fg: Some("pink"), bg: None, sp: None, attr: HighlightAttr::Nothing, scope: HighlightScope::All });
    v.push(Highlight { name: "graphqlName", fg: Some("purple"), bg: None, sp: None, attr: HighlightAttr::Nothing, scope: HighlightScope::All });
    v.push(Highlight { name: "graphqlTemplateString", fg: Some("mainfg"), bg: None, sp: None, attr: HighlightAttr::Nothing, scope: HighlightScope::All });
    v.push(Highlight { name: "vimfilerOpenedFile", fg: Some("darkpurple"), bg: None, sp: None, attr: HighlightAttr::Nothing, scope: HighlightScope::All });
    v.push(Highlight { name: "vimfilerClosedFile", fg: Some("darkpurple"), bg: None, sp: None, attr: HighlightAttr::Nothing, scope: HighlightScope::All });
    v.push(Highlight { name: "vimfilerNonMark", fg: Some("teal"), bg: None, sp: None, attr: HighlightAttr::Nothing, scope: HighlightScope::All });
    v.push(Highlight { name: "vimfilerLeaf", fg: Some("teal"), bg: None, sp: None, attr: HighlightAttr::Nothing, scope: HighlightScope::All });
    v.push(Highlight { name: "DefxIconsMarkIcon", fg: Some("darkpurple"), bg: None, sp: None, attr: HighlightAttr::Clear, scope: HighlightScope::All });
    v.push(Highlight { name: "DefxIconsDirectory", fg: Some("darkpurple"), bg: None, sp: None, attr: HighlightAttr::Clear, scope: HighlightScope::All });
    v.push(Highlight { name: "DefxIconsParentDirectory", fg: Some("darkpurple"), bg: None, sp: None, attr: HighlightAttr::Clear, scope: HighlightScope::All });
    v.push(Highlight { name: "DefxIconsSymlinkDirectory", fg: Some("teal"), bg: None, sp: None, attr: HighlightAttr::Clear, scope: HighlightScope::All });
    v.push(Highlight { name: "DefxIconsOpenedTreeIcon", fg: Some("darkpurple"), bg: None, sp: None, attr: HighlightAttr::Clear, scope: HighlightScope::All });
    proof {
        assert(highlights_view(v@) =~= catalogue_h());
    }
    v
}

/// Part of the highlight-rule catalogue.
pub open spec fn catalogue_i() -> Seq<SpecHighlight> {
    seq![
        SpecHighlight { name: "DefxIconsNestedTreeIcon"@, fg: Some("darkpurple"@), bg: None, sp: None, attr: HighlightAttr::Clear, scope: HighlightScope::All },
        SpecHighlight { name: "DefxIconsClosedTreeIcon"@, fg: Some("darkpurple"@), bg: None, sp: None, attr: HighlightAttr::Clear, scope: HighlightScope::All },
        SpecHighlight { name: "Defx_git_Untracked"@, fg: Some("purple"@), bg: None, sp: None, attr: HighlightAttr::Clear, scope: HighlightScope::All },
        SpecHighlight { name: "Defx_git_Ignored"@, fg: Some("weakfg"@), bg: None, sp: None, attr: HighlightAttr::Clear, scope: HighlightScope::All },
        SpecHighlight { name: "Defx_git_Unknown"@, fg: Some("weakfg"@), bg: None, sp: None, attr: HighlightAttr::Clear, scope: HighlightScope::All },
        SpecHighlight { name: "Defx_git_Renamed"@, fg: Some("diffchangebg"@), bg: None, sp: None, attr: HighlightAttr::Nothing, scope: HighlightScope::All },
        SpecHighlight { name: "Defx_git_Modified"@, fg: Some("diffchangebg"@), bg: None, sp: None, attr: HighlightAttr::Nothing, scope: HighlightScope::All },
        SpecHighlight { name: "Defx_git_Unmerged"@, fg: Some("pink"@), bg: None, sp: None, attr: HighlightAttr::Nothing, scope: HighlightScope::All },
        SpecHighlight { name: "Defx_git_Deleted"@, fg: Some("diffdeletebg"@), bg: None, sp: None, attr: HighlightAttr::Nothing, scope: HighlightScope::All },
        SpecHighlight { name: "Defx_git_Staged"@, fg: Some("teal"@), bg: None, sp: None, attr: HighlightAttr::Nothing, scope: HighlightScope::All },
        SpecHighlight { name: "NvimTreeSymlink"@, fg: Some("darkteal"@), bg: None, sp: None, attr: HighlightAttr::Clear, scope: HighlightScope::All },
        SpecHighlight { name: "NvimTreeSymlinkFolderName"@, fg: Some("darkteal"@), bg: None, sp: None, attr: HighlightAttr::Clear, scope: HighlightScope::All },
        SpecHighlight { name: "NvimTreeFolderName"@, fg: Some("purple"@), bg: None, sp: None, attr: HighlightAttr::Clear, scope: HighlightScope::All },
        SpecHighlight { name: "NvimTreeRootFolder"@, fg: Some("darkestpurple"@), bg: None, sp: None, attr: HighlightAttr::Bold, scope: HighlightScope::All },
        SpecHighlight { name: "NvimTreeFolderIcon"@, fg: Some("darkpurple"@), bg: None, sp: None, attr: HighlightAttr::Clear, scope: HighlightScope::All },
        SpecHighlight { name: "NvimTreeFileIcon"@, fg: Some("darkpurple"@), bg: None, sp: None, attr: HighlightAttr::Clear, scope: HighlightScope::All },
        SpecHighlight { name: "NvimTreeEmptyFolderName"@, fg: Some("weakfg"@), bg: None, sp: None, attr: HighlightAttr::Clear, scope: HighlightScope::All },
        SpecHighlight { name: "NvimTreeOpenedFolderName"@, fg: Some("purple"@), bg: None, sp: None, attr: HighlightAttr::Clear, scope: HighlightScope::All },
        SpecHighlight { name: "NvimTreeExecFile"@, fg: Some("lightfg"@), bg: None, sp: None, attr: HighlightAttr::Clear, scope: HighlightScope::All },
        SpecHighlight { name: "NvimTreeOpenedHL"@, fg: Some("lightfg"@), bg: None, sp: None, attr: HighlightAttr::Clear, scope: HighlightScope::All },
        SpecHighlight { name: "NvimTreeSpecialFile"@, fg: Some("lightfg"@), bg: None, sp: None, attr: HighlightAttr::Bold, scope: HighlightScope::All },
        SpecHighlight { name: "NvimTreeImageFile"@, fg: Some("lightfg"@), bg: None, sp: None, attr: HighlightAttr::Clear, scope: HighlightScope::All },
        SpecHighlight { name: "NvimTreeIndentMarker"@, fg: Some("darkestpurple"@), bg: None, sp: None, attr: HighlightAttr::Clear, scope: HighlightScope::All },
        SpecHighlight { name: "NvimTreeModifiedIcon"@, fg: Some("mainfg"@), bg: None, sp: None, attr: HighlightAttr::Clear, scope: HighlightScope::All },
    ]
}

fn build_catalogue_i() -> (v: Vec<Highlight>)
    ensures
        highlights_view(v@) == catalogue_i(),
{
    let mut v: Vec<Highlight> = Vec::new();
    v.push(Highlight { name: "DefxIconsNestedTreeIcon", fg: Some("darkpurple"), bg: None, sp: None, attr: HighlightAttr::Clear, scope: HighlightScope::All });
    v.push(Highlight { name: "DefxIconsClosedTreeIcon", fg: Some("darkpurple"), bg: None, sp: None, attr: HighlightAttr::Clear, scope: HighlightScope::All });
    v.push(Highlight { name: "Defx_git_Untracked", fg: Some("purple"), bg: None, sp: None, attr: HighlightAttr::Clear, scope: HighlightScope::All });
    v.push(Highlight { name: "Defx_git_Ignored", fg: Some("weakfg"), bg: None, sp: None, attr: HighlightAttr::Clear, scope: HighlightScope::All });
    v.push(Highlight { name: "Defx_git_Unknown", fg: Some("weakfg"), bg: None, sp: None, attr: HighlightAttr::Clear, scope: HighlightScope::All });
    v.push(Highlight { name: "Defx_git_Renamed", fg: Some("diffchangebg"), bg: None, sp: None, attr: HighlightAttr::Nothing, scope: HighlightScope::All });
    v.push(Highlight { name: "Defx_git_Modified", fg: Some("diffchangebg"), bg: None, sp: None, attr: HighlightAttr::Nothing, scope: HighlightScope::All });
    v.push(Highlight { name: "Defx_git_Unmerged", fg: Some("pink"), bg: None, sp: None, attr: HighlightAttr::Nothing, scope: HighlightScope::All });
    v.push(Highlight { name: "Defx_git_Deleted", fg: Some("diffdeletebg"), bg: None, sp: None, attr: HighlightAttr::Nothing, scope: HighlightScope::All });
    v.push(Highlight { name: "Defx_git_Staged", fg: Some("teal"), bg: None, sp: None, attr: HighlightAttr::Nothing, scope: HighlightScope::All });
    v.push(Highlight { name: "NvimTreeSymlink", fg: Some("darkteal"), bg: None, sp: None, attr: HighlightAttr::Clear, scope: HighlightScope::All });
    v.push(Highlight { name: "NvimTreeSymlinkFolderName", fg: Some("darkteal"), bg: None, sp: None, attr: HighlightAttr::Clear, scope: HighlightScope::All });
    v.push(Highlight { name: "NvimTreeFolderName", fg: Some("purple"), bg: None, sp: None, attr: HighlightAttr::Clear, scope: HighlightScope::All });
    v.push(Highlight { name: "NvimTreeRootFolder", fg: Some("darkestpurple"), bg: None, sp: None, attr: HighlightAttr::Bold, scope: HighlightScope::All });
    v.push(Highlight { name: "NvimTreeFolderIcon", fg: Some("darkpurple"), bg: None, sp: None, attr: HighlightAttr::Clear, scope: HighlightScope::All });
    v.push(Highlight { name: "NvimTreeFileIcon", fg: Some("darkpurple"), bg: None, sp: None, attr: HighlightAttr::Clear, scope: HighlightScope::All });
    v.push(Highlight { name: "NvimTreeEmptyFolderName", fg: Some("weakfg"), bg: None, sp: None, attr: HighlightAttr::Clear, scope: HighlightScope::All });
    v.push(Highlight { name: "NvimTreeOpenedFolderName", fg: Some("purple"), bg: None, sp: None, attr: HighlightAttr::Clear, scope: HighlightScope::All });
    v.push(Highlight { name: "NvimTreeExecFile", fg: Some("lightfg"), bg: None, sp: None, attr: HighlightAttr::Clear, scope: HighlightScope::All });
    v.push(Highlight { name: "NvimTreeOpenedHL", fg: Some("lightfg"), bg: None, sp: None, attr: HighlightAttr::Clear, scope: HighlightScope::All });
    v.push(Highlight { name: "NvimTreeSpecialFile", fg: Some("lightfg"), bg: None, sp: None, attr: HighlightAttr::Bold, scope: HighlightScope::All });
    v.push(Highlight { name: "NvimTreeImageFile", fg: Some("lightfg"), bg: None, sp: None, attr: HighlightAttr::Clear, scope: HighlightScope::All });
    v.push(Highlight { name: "NvimTreeIndentMarker", fg: Some("darkestpurple"), bg: None, sp: None, attr: HighlightAttr::Clear, scope: HighlightScope::All });
    v.push(Highlight { name: "NvimTreeModifiedIcon", fg: Some("mainfg"), bg: None, sp: None, attr: HighlightAttr::Clear, scope: HighlightScope::All });
    proof {
        assert(highlights_view(v@) =~= catalogue_i());
    }
    v
}

/// Part of the highlight-rule catalogue.
pub open spec fn catalogue_j() -> Seq<SpecHighlight> {
    seq![
        SpecHighlight { name: "NvimTreeGitDirtyIcon"@, fg: Some("yellow"@), bg: None, sp: None, attr: HighlightAttr::Clear, scope: HighlightScope::All },
        SpecHighlight { name: "NvimTreeGitStagedIcon"@, fg: Some("green"@), bg: None, sp: None, attr: HighlightAttr::Clear, scope: HighlightScope::All },
        SpecHighlight { name: "NvimTreeGitMergeIcon"@, fg: Some("yellow"@), bg: None, sp: None, attr: HighlightAttr::Clear, scope: HighlightScope::All },
        SpecHighlight { name: "NvimTreeGitRenamedIcon"@, fg: Some("yellow"@), bg: None, sp: None, attr: HighlightAttr::Clear, scope: HighlightScope::All },
        SpecHighlight { name: "NvimTreeGitNewIcon"@, fg: Some("teal"@), bg: None, sp: None, attr: HighlightAttr::Clear, scope: HighlightScope::All },
        SpecHighlight { name: "NvimTreeGitDeletedIcon"@, fg: Some("difftextbg"@), bg: None, sp: None, attr: HighlightAttr::Clear, scope: HighlightScope::All },
        SpecHighlight { name: "NvimTreeWindowPicker"@, fg: Some("tablineselfg"@), bg: Some("tablineselbg"@), sp: None, attr: HighlightAttr::Bold, scope: HighlightScope::All },
        SpecHighlight { name: "NvimTreeNormal"@, fg: Some("lightfg"@), bg: None, sp: None, attr: HighlightAttr::Clear, scope: HighlightScope::All },
        SpecHighlight { name: "NvimTreeLiveFilterPrefix"@, fg: Some("darkteal"@), bg: None, sp: None, attr: HighlightAttr::Clear, scope: HighlightScope::All },
        SpecHighlight { name: "NvimTreeLiveFilterValue"@, fg: Some("teal"@), bg: None, sp: None, attr: HighlightAttr::Clear, scope: HighlightScope::All },
        SpecHighlight { name: "NvimTreeBookmarkIcon"@, fg: Some("yellow"@), bg: None, sp: None, attr: HighlightAttr::Clear, scope: HighlightScope::All },
        SpecHighlight { name: "FernBranchSymbol"@, fg: Some("darkpurple"@), bg: None, sp: None, attr: HighlightAttr::Clear, scope: HighlightScope::All },
        SpecHighlight { name: "FernBranchText"@, fg: Some("purple"@), bg: None, sp: None, attr: HighlightAttr::Clear, scope: HighlightScope::All },
        SpecHighlight { name: "FernLeafSymbol"@, fg: Some("darkteal"@), bg: None, sp: None, attr: HighlightAttr::Clear, scope: HighlightScope::All },
        SpecHighlight { name: "FernLeafText"@, fg: Some("mainfg"@), bg: None, sp: None, attr: HighlightAttr::Clear, scope: HighlightScope::All },
        SpecHighlight { name: "FernMarked"@, fg: Some("cyan"@), bg: None, sp: None, attr: HighlightAttr::Clear, scope: HighlightScope::All },
        SpecHighlight { name: "GitSignsAdd"@, fg: Some("green"@), bg: None, sp: None, attr: HighlightAttr::Nothing, scope: HighlightScope::All },
        SpecHighlight { name: "GitSignsChange"@, fg: Some("yellow"@), bg: None, sp: None, attr: HighlightAttr::Nothing, scope: HighlightScope::All },
        SpecHighlight { name: "GitSignsDelete"@, fg: Some("pink"@), bg: None, sp: None, attr: HighlightAttr::Nothing, scope: HighlightScope::All },
        SpecHighlight { name: "GitSignsChangeDelete"@, fg: Some("difftextbg"@), bg: None, sp: None, attr: HighlightAttr::Nothing, scope: HighlightScope::All },
        SpecHighlight { name: "GitGutterAdd"@, fg: Some("green"@), bg: None, sp: None, attr: HighlightAttr::Nothing, scope: HighlightScope::All },
        SpecHighlight { name: "GitGutterChange"@, fg: Some("yellow"@), bg: None, sp: None, attr: HighlightAttr::Nothing, scope: HighlightScope::All },
        SpecHighlight { name: "GitGutterDelete"@, fg: Some("pink"@), bg: None, sp: None, attr: HighlightAttr::Nothing, scope: HighlightScope::All },
        SpecHighlight { name: "GitGutterChangeDelete"@, fg: Some("difftextbg"@), bg: None, sp: None, attr: HighlightAttr::Nothing, scope: HighlightScope::All },
    ]
}

fn build_catalogue_j() -> (v: Vec<Highlight>)
    ensures
        highlights_view(v@) == catalogue_j(),
{
    let mut v: Vec<Highlight> = Vec::new();
    v.push(Highlight { name: "NvimTreeGitDirtyIcon", fg: Some("yellow"), bg: None, sp: None, attr: HighlightAttr::Clear, scope: HighlightScope::All });
    v.push(Highlight { name: "NvimTreeGitStagedIcon", fg: Some("green"), bg: None, sp: None, attr: HighlightAttr::Clear, scope: HighlightScope::All });
    v.push(Highlight { name: "NvimTreeGitMergeIcon", fg: Some("yellow"), bg: None, sp: None, attr: HighlightAttr::Clear, scope: HighlightScope::All });
    v.push(Highlight { name: "NvimTreeGitRenamedIcon", fg: Some("yellow"), bg: None, sp: None, attr: HighlightAttr::Clear, scope: HighlightScope::All });
    v.push(Highlight { name: "NvimTreeGitNewIcon", fg: Some("teal"), bg: None, sp: None, attr: HighlightAttr::Clear, scope: HighlightScope::All });
    v.push(Highlight { name: "NvimTreeGitDeletedIcon", fg: Some("difftextbg"), bg: None, sp: None, attr: HighlightAttr::Clear, scope: HighlightScope::All });
    v.push(Highlight { name: "NvimTreeWindowPicker", fg: Some("tablineselfg"), bg: Some("tablineselbg"), sp: None, attr: HighlightAttr::Bold, scope: HighlightScope::All });
    v.push(Highlight { name: "NvimTreeNormal", fg: Some("lightfg"), bg: None, sp: None, attr: HighlightAttr::Clear, scope: HighlightScope::All });
    v.push(Highlight { name: "NvimTreeLiveFilterPrefix", fg: Some("darkteal"), bg: None, sp: None, attr: HighlightAttr::Clear, scope: HighlightScope::All });
    v.push(Highlight { name: "NvimTreeLiveFilterValue", fg: Some("teal"), bg: None, sp: None, attr: HighlightAttr::Clear, scope: HighlightScope::All });
    v.push(Highlight { name: "NvimTreeBookmarkIcon", fg: Some("yellow"), bg: None, sp: None, attr: HighlightAttr::Clear, scope: HighlightScope::All });
    v.push(Highlight { name: "FernBranchSymbol", fg: Some("darkpurple"), bg: None, sp: None, attr: HighlightAttr::Clear, scope: HighlightScope::All });
    v.push(Highlight { name: "FernBranchText", fg: Some("purple"), bg: None, sp: None, attr: HighlightAttr::Clear, scope: HighlightScope::All });
    v.push(Highlight { name: "FernLeafSymbol", fg: Some("darkteal"), bg: None, sp: None, attr: HighlightAttr::Clear, scope: HighlightScope::All });
    v.push(Highlight { name: "FernLeafText", fg: Some("mainfg"), bg: None, sp: None, attr: HighlightAttr::Clear, scope: HighlightScope::All });
    v.push(Highlight { name: "FernMarked", fg: Some("cyan"), bg: None, sp: None, attr: HighlightAttr::Clear, scope: HighlightScope::All });
    v.push(Highlight { name: "GitSignsAdd", fg: Some("green"), bg: None, sp: None, attr: HighlightAttr::Nothing, scope: HighlightScope::All });
    v.push(Highlight { name: "GitSignsChange", fg: Some("yellow"), bg: None, sp: None, attr: HighlightAttr::Nothing, scope: HighlightScope::All });
    v.push(Highlight { name: "GitSignsDelete", fg: Some("pink"), bg: None, sp: None, attr: HighlightAttr::Nothing, scope: HighlightScope::All });
    v.push(Highlight { name: "GitSignsChangeDelete", fg: Some("difftextbg"), bg: None, sp: None, attr: HighlightAttr::Nothing, scope: HighlightScope::All });
    v.push(Highlight { name: "GitGutterAdd", fg: Some("green"), bg: None, sp: None, attr: HighlightAttr::Nothing, scope: HighlightScope::All });
    v.push(Highlight { name: "GitGutterChange", fg: Some("yellow"), bg: None, sp: None, attr: HighlightAttr::Nothing, scope: HighlightScope::All });
    v.push(Highlight { name: "GitGutterDelete", fg: Some("pink"), bg: None, sp: None, attr: HighlightAttr::Nothing, scope: HighlightScope::All });
    v.push(Highlight { name: "GitGutterChangeDelete", fg: Some("difftextbg"), bg: None, sp: None, attr: HighlightAttr::Nothing, scope: HighlightScope::All });
    proof {
        assert(highlights_view(v@) =~= catalogue_j());
    }
    v
}

/// Part of the highlight-rule catalogue.
pub open spec fn catalogue_k() -> Seq<SpecHighlight> {
    seq![
        SpecHighlight { name: "fugitiveHeader"@, fg: Some("teal"@), bg: None, sp: None, attr: HighlightAttr::Bold, scope: HighlightScope::All },
        SpecHighlight { name: "DiffviewDim1"@, fg: Some("weakfg"@), bg: None, sp: None, attr: HighlightAttr::Nothing, scope: HighlightScope::All },
        SpecHighlight { name: "DiffviewPrimary"@, fg: Some("purple"@), bg: None, sp: None, attr: HighlightAttr::Nothing, scope: HighlightScope::All },
        SpecHighlight { name: "DiffviewSecondary"@, fg: Some("pink"@), bg: None, sp: None, attr: HighlightAttr::Nothing, scope: HighlightScope::All },
        SpecHighlight { name: "DiffviewStatusAdded"@, fg: Some("blue"@), bg: None, sp: None, attr: HighlightAttr::Nothing, scope: HighlightScope::All },
        SpecHighlight { name: "DiffviewStatusUntracked"@, fg: Some("yellow"@), bg: None, sp: None, attr: HighlightAttr::Nothing, scope: HighlightScope::All },
        SpecHighlight { name: "DiffviewStatusModified"@, fg: Some("teal"@), bg: None, sp: None, attr: HighlightAttr::Nothing, scope: HighlightScope::All },
        SpecHighlight { name: "DiffviewStatusRenamed"@, fg: Some("teal"@), bg: None, sp: None, attr: HighlightAttr::Nothing, scope: HighlightScope::All },
        SpecHighlight { name: "DiffviewStatusCopied"@, fg: Some("teal"@), bg: None, sp: None, attr: HighlightAttr::Nothing, scope: HighlightScope::All },
        SpecHighlight { name: "DiffviewStatusTypeChanged"@, fg: Some("teal"@), bg: None, sp: None, attr: HighlightAttr::Nothing, scope: HighlightScope::All },
        SpecHighlight { name: "DiffviewStatusUnmerged"@, fg: Some("pink"@), bg: None, sp: None, attr: HighlightAttr::Nothing, scope: HighlightScope::All },
        SpecHighlight { name: "DiffviewStatusUnknown"@, fg: Some("yellow"@), bg: None, sp: None, attr: HighlightAttr::Nothing, scope: HighlightScope::All },
        SpecHighlight { name: "DiffviewStatusDeleted"@, fg: Some("lightfg"@), bg: None, sp: None, attr: HighlightAttr::Nothing, scope: HighlightScope::All },
        SpecHighlight { name: "DiffviewStatusBroken"@, fg: Some("pink"@), bg: None, sp: None, attr: HighlightAttr::Nothing, scope: HighlightScope::All },
        SpecHighlight { name: "DiffviewStatusIgnored"@, fg: Some("yellow"@), bg: None, sp: None, attr: HighlightAttr::Nothing, scope: HighlightScope::All },
        SpecHighlight { name: "DiffviewFilePanelRootPath"@, fg: Some("darkpurple"@), bg: None, sp: None, attr: HighlightAttr::Nothing, scope: HighlightScope::All },
        SpecHighlight { name: "DiffviewFilePanelTitle"@, fg: Some("purple"@), bg: None, sp: None, attr: HighlightAttr::Bold, scope: HighlightScope::All },
        SpecHighlight { name: "DiffviewFilePanelCounter"@, fg: Some("lightfg"@), bg: None, sp: None, attr: HighlightAttr::Bold, scope: HighlightScope::All },
        SpecHighlight { name: "DiffviewFilePanelFileName"@, fg: Some("mainfg"@), bg: None, sp: None, attr: HighlightAttr::Nothing, scope: HighlightScope::All },
        SpecHighlight { name: "DiffviewFilePanelPath"@, fg: Some("weakfg"@), bg: None, sp: None, attr: HighlightAttr::Bold, scope: HighlightScope::All },
        SpecHighlight { name: "DiffviewFilePanelSelected"@, fg: Some("yellow"@), bg: None, sp: None, attr: HighlightAttr::Nothing, scope: HighlightScope::All },
        SpecHighlight { name: "DiffviewFilePanelInsertions"@, fg: Some("teal"@), bg: None, sp: None, attr: HighlightAttr::Nothing, scope: HighlightScope::All },
        SpecHighlight { name: "DiffviewFilePanelDeletions"@, fg: Some("pink"@), bg: None, sp: None, attr: HighlightAttr::Nothing, scope: HighlightScope::All },
        SpecHighlight { name: "DiffviewFilePanelConflicts"@, fg: Some("warningfg"@), bg: None, sp: None, attr: HighlightAttr::Nothing, scope: HighlightScope::All },
    ]
}

fn build_catalogue_k() -> (v: Vec<Highlight>)
    ensures
        highlights_view(v@) == catalogue_k(),
{
    let mut v: Vec<Highlight> = Vec::new();
    v.push(Highlight { name: "fugitiveHeader", fg: Some("teal"), bg: None, sp: None, attr: HighlightAttr::Bold, scope: HighlightScope::All });
    v.push(Highlight { name: "DiffviewDim1", fg: Some("weakfg"), bg: None, sp: None, attr: HighlightAttr::Nothing, scope: HighlightScope::All });
    v.push(Highlight { name: "DiffviewPrimary", fg: Some("purple"), bg: None, sp: None, attr: HighlightAttr::Nothing, scope: HighlightScope::All });
    v.push(Highlight { name: "DiffviewSecondary", fg: Some("pink"), bg: None, sp: None, attr: HighlightAttr::Nothing, scope: HighlightScope::All });
    v.push(Highlight { name: "DiffviewStatusAdded", fg: Some("blue"), bg: None, sp: None, attr: HighlightAttr::Nothing, scope: HighlightScope::All });
    v.push(Highlight { name: "DiffviewStatusUntracked", fg: Some("yellow"), bg: None, sp: None, attr: HighlightAttr::Nothing, scope: HighlightScope::All });
    v.push(Highlight { name: "DiffviewStatusModified", fg: Some("teal"), bg: None, sp: None, attr: HighlightAttr::Nothing, scope: HighlightScope::All });
    v.push(Highlight { name: "DiffviewStatusRenamed", fg: Some("teal"), bg: None, sp: None, attr: HighlightAttr::Nothing, scope: HighlightScope::All });
    v.push(Highlight { name: "DiffviewStatusCopied", fg: Some("teal"), bg: None, sp: None, attr: HighlightAttr::Nothing, scope: HighlightScope::All });
    v.push(Highlight { name: "DiffviewStatusTypeChanged", fg: Some("teal"), bg: None, sp: None, attr: HighlightAttr::Nothing, scope: HighlightScope::All });
    v.push(Highlight { name: "DiffviewStatusUnmerged", fg: Some("pink"), bg: None, sp: None, attr: HighlightAttr::Nothing, scope: HighlightScope::All });
    v.push(Highlight { name: "DiffviewStatusUnknown", fg: Some("yellow"), bg: None, sp: None, attr: HighlightAttr::Nothing, scope: HighlightScope::All });
    v.push(Highlight { name: "DiffviewStatusDeleted", fg: Some("lightfg"), bg: None, sp: None, attr: HighlightAttr::Nothing, scope: HighlightScope::All });
    v.push(Highlight { name: "DiffviewStatusBroken", fg: Some("pink"), bg: None, sp: None, attr: HighlightAttr::Nothing, scope: HighlightScope::All });
    v.push(Highlight { name: "DiffviewStatusIgnored", fg: Some("yellow"), bg: None, sp: None, attr: HighlightAttr::Nothing, scope: HighlightScope::All });
    v.push(Highlight { name: "DiffviewFilePanelRootPath", fg: Some("darkpurple"), bg: None, sp: None, attr: HighlightAttr::Nothing, scope: HighlightScope::All });
    v.push(Highlight { name: "DiffviewFilePanelTitle", fg: Some("purple"), bg: None, sp: None, attr: HighlightAttr::Bold, scope: HighlightScope::All });
    v.push(Highlight { name: "DiffviewFilePanelCounter", fg: Some("lightfg"), bg: None, sp: None, attr: HighlightAttr::Bold, scope: HighlightScope::All });
    v.push(Highlight { name: "DiffviewFilePanelFileName", fg: Some("mainfg"), bg: None, sp: None, attr: HighlightAttr::Nothing, scope: HighlightScope::All });
    v.push(Highlight { name: "DiffviewFilePanelPath", fg: Some("weakfg"), bg: None, sp: None, attr: HighlightAttr::Bold, scope: HighlightScope::All });
    v.push(Highlight { name: "DiffviewFilePanelSelected", fg: Some("yellow"), bg: None, sp: None, attr: HighlightAttr::Nothing, scope: HighlightScope::All });
    v.push(Highlight { name: "DiffviewFilePanelInsertions", fg: Some("teal"), bg: None, sp: None, attr: HighlightAttr::Nothing, scope: HighlightScope::All });
    v.push(Highlight { name: "DiffviewFilePanelDeletions", fg: Some("pink"), bg: None, sp: None, attr: HighlightAttr::Nothing, scope: HighlightScope::All });
    v.push(Highlight { name: "DiffviewFilePanelConflicts", fg: Some("warningfg"), bg: None, sp: None, attr: HighlightAttr::Nothing, scope: HighlightScope::All });
    proof {
        assert(highlights_view(v@) =~= catalogue_k());
    }
    v
}

/// Part of the highlight-rule catalogue.
pub open spec fn catalogue_l() -> Seq<SpecHighlight> {
    seq![
        SpecHighlight { name: "DiffviewHash"@, fg: Some("darkpurple"@), bg: None, sp: None, attr: HighlightAttr::Nothing, scope: HighlightScope::All },
        SpecHighlight { name: "ALEWarningSign"@, fg: Some("warningfg"@), bg: None, sp: None, attr: HighlightAttr::Bold, scope: HighlightScope::All },
        SpecHighlight { name: "ALEInfoSign"@, fg: Some("infofg"@), bg: None, sp: None, attr: HighlightAttr::Clear, scope: HighlightScope::All },
        SpecHighlight { name: "NullLsInfoBorder"@, fg: Some("weakfg"@), bg: Some("mainbg"@), sp: None, attr: HighlightAttr::Clear, scope: HighlightScope::All },
        SpecHighlight { name: "CocErrorSign"@, fg: Some("errorfg"@), bg: None, sp: None, attr: HighlightAttr::Bold, scope: HighlightScope::All },
        SpecHighlight { name: "CocWarningSign"@, fg: Some("warningfg"@), bg: None, sp: None, attr: HighlightAttr::Bold, scope: HighlightScope::All },
        SpecHighlight { name: "CocInfoSign"@, fg: Some("infofg"@), bg: None, sp: None, attr: HighlightAttr::Bold, scope: HighlightScope::All },
        SpecHighlight { name: "CocHintSign"@, fg: Some("infofg"@), bg: None, sp: None, attr: HighlightAttr::Bold, scope: HighlightScope::All },
        SpecHighlight { name: "LspError"@, fg: Some("errorfg"@), bg: None, sp: None, attr: HighlightAttr::Nothing, scope: HighlightScope::All },
        SpecHighlight { name: "LspErrorText"@, fg: Some("errorfg"@), bg: None, sp: None, attr: HighlightAttr::Bold, scope: HighlightScope::All },
        SpecHighlight { name: "LspErrorHighlight"@, fg: None, bg: None, sp: None, attr: HighlightAttr::Underline, scope: HighlightScope::All },
        SpecHighlight { name: "LspErrorVirtualText"@, fg: Some("errorfg"@), bg: None, sp: None, attr: HighlightAttr::Bold, scope: HighlightScope::All },
        SpecHighlight { name: "LspWarning"@, fg: Some("warningfg"@), bg: None, sp: None, attr: HighlightAttr::Nothing, scope: HighlightScope::All },
        SpecHighlight { name: "LspWarningText"@, fg: Some("warningfg"@), bg: None, sp: None, attr: HighlightAttr::Bold, scope: HighlightScope::All },
        SpecHighlight { name: "LspWarningHighlight"@, fg: None, bg: None, sp: None, attr: HighlightAttr::Underline, scope: HighlightScope::All },
        SpecHighlight { name: "LspWarningVirtualText"@, fg: Some("warningfg"@), bg: None, sp: None, attr: HighlightAttr::Bold, scope: HighlightScope::All },
        SpecHighlight { name: "LspInformation"@, fg: Some("infofg"@), bg: None, sp: None, attr: HighlightAttr::Nothing, scope: HighlightScope::All },
        SpecHighlight { name: "LspInformationText"@, fg: Some("infofg"@), bg: None, sp: None, attr: HighlightAttr::Bold, scope: HighlightScope::All },
        SpecHighlight { name: "LspInformationHighlight"@, fg: None, bg: None, sp: None, attr: HighlightAttr::Underline, scope: HighlightScope::All },
        SpecHighlight { name: "LspInformationVirtualText"@, fg: Some("weakfg"@), bg: None, sp: None, attr: HighlightAttr::Bold, scope: HighlightScope::All },
        SpecHighlight { name: "LspHint"@, fg: Some("infofg"@), bg: None, sp: None, attr: HighlightAttr::Nothing, scope: HighlightScope::All },
        SpecHighlight { name: "LspHintText"@, fg: Some("infofg"@), bg: None, sp: None, attr: HighlightAttr::Bold, scope: HighlightScope::All },
        SpecHighlight { name: "LspHintHighlight"@, fg: None, bg: None, sp: None, attr: HighlightAttr::Underline, scope: HighlightScope::All },
        SpecHighlight { name: "LspHintVirtualText"@, fg: Some("weakfg"@), bg: None, sp: None, attr: HighlightAttr::Bold, scope: HighlightScope::All },
    ]
}

fn build_catalogue_l() -> (v: Vec<Highlight>)
    ensures
        highlights_view(v@) == catalogue_l(),
{
    let mut v: Vec<Highlight> = Vec::new();
    v.push(Highlight { name: "DiffviewHash", fg: Some("darkpurple"), bg: None, sp: None, attr: HighlightAttr::Nothing, scope: HighlightScope::All });
    v.push(Highlight { name: "ALEWarningSign", fg: Some("warningfg"), bg: None, sp: None, attr: HighlightAttr::Bold, scope: HighlightScope::All });
    v.push(Highlight { name: "ALEInfoSign", fg: Some("infofg"), bg: None, sp: None, attr: HighlightAttr::Clear, scope: HighlightScope::All });
    v.push(Highlight { name: "NullLsInfoBorder", fg: Some("weakfg"), bg: Some("mainbg"), sp: None, attr: HighlightAttr::Clear, scope: HighlightScope::All });
    v.push(Highlight { name: "CocErrorSign", fg: Some("errorfg"), bg: None, sp: None, attr: HighlightAttr::Bold, scope: HighlightScope::All });
    v.push(Highlight { name: "CocWarningSign", fg: Some("warningfg"), bg: None, sp: None, attr: HighlightAttr::Bold, scope: HighlightScope::All });
    v.push(Highlight { name: "CocInfoSign", fg: Some("infofg"), bg: None, sp: None, attr: HighlightAttr::Bold, scope: HighlightScope::All });
    v.push(Highlight { name: "CocHintSign", fg: Some("infofg"), bg: None, sp: None, attr: HighlightAttr::Bold, scope: HighlightScope::All });
    v.push(Highlight { name: "LspError", fg: Some("errorfg"), bg: None, sp: None, attr: HighlightAttr::Nothing, scope: HighlightScope::All });
    v.push(Highlight { name: "LspErrorText", fg: Some("errorfg"), bg: None, sp: None, attr: HighlightAttr::Bold, scope: HighlightScope::All });
    v.push(Highlight { name: "LspErrorHighlight", fg: None, bg: None, sp: None, attr: HighlightAttr::Underline, scope: HighlightScope::All });
    v.push(Highlight { name: "LspErrorVirtualText", fg: Some("errorfg"), bg: None, sp: None, attr: HighlightAttr::Bold, scope: HighlightScope::All });
    v.push(Highlight { name: "LspWarning", fg: Some("warningfg"), bg: None, sp: None, attr: HighlightAttr::Nothing, scope: HighlightScope::All });
    v.push(Highlight { name: "LspWarningText", fg: Some("warningfg"), bg: None, sp: None, attr: HighlightAttr::Bold, scope: HighlightScope::All });
    v.push(Highlight { name: "LspWarningHighlight", fg: None, bg: None, sp: None, attr: HighlightAttr::Underline, scope: HighlightScope::All });
    v.push(Highlight { name: "LspWarningVirtualText", fg: Some("warningfg"), bg: None, sp: None, attr: HighlightAttr::Bold, scope: HighlightScope::All });
    v.push(Highlight { name: "LspInformation", fg: Some("infofg"), bg: None, sp: None, attr: HighlightAttr::Nothing, scope: HighlightScope::All });
    v.push(Highlight { name: "LspInformationText", fg: Some("infofg"), bg: None, sp: None, attr: HighlightAttr::Bold, scope: HighlightScope::All });
    v.push(Highlight { name: "LspInformationHighlight", fg: None, bg: None, sp: None, attr: HighlightAttr::Underline, scope: HighlightScope::All });
    v.push(Highlight { name: "LspInformationVirtualText", fg: Some("weakfg"), bg: None, sp: None, attr: HighlightAttr::Bold, scope: HighlightScope::All });
    v.push(Highlight { name: "LspHint", fg: Some("infofg"), bg: None, sp: None, attr: HighlightAttr::Nothing, scope: HighlightScope::All });
    v.push(Highlight { name: "LspHintText", fg: Some("infofg"), bg: None, sp: None, attr: HighlightAttr::Bold, scope: HighlightScope::All });
    v.push(Highlight { name: "LspHintHighlight", fg: None, bg: None, sp: None, attr: HighlightAttr::Underline, scope: HighlightScope::All });
    v.push(Highlight { name: "LspHintVirtualText", fg: Some("weakfg"), bg: None, sp: None, attr: HighlightAttr::Bold, scope: HighlightScope::All });
    proof {
        assert(highlights_view(v@) =~= catalogue_l());
    }
    v
}

/// Part of the highlight-rule catalogue.
pub open spec fn catalogue_m() -> Seq<SpecHighlight> {
    seq![
        SpecHighlight { name: "LspCodeActionText"@, fg: Some("darkpurple"@), bg: None, sp: None, attr: HighlightAttr::Bold, scope: HighlightScope::All },
        SpecHighlight { name: "CmpItemAbbr"@, fg: Some("mainfg"@), bg: None, sp: None, attr: HighlightAttr::Nothing, scope: HighlightScope::All },
        SpecHighlight { name: "CmpItemAbbrMatch"@, fg: Some("purple"@), bg: None, sp: None, attr: HighlightAttr::Bold, scope: HighlightScope::All },
        SpecHighlight { name: "CmpItemAbbrMatchFuzzy"@, fg: Some("purple"@), bg: None, sp: None, attr: HighlightAttr::Bold, scope: HighlightScope::All },
        SpecHighlight { name: "CmpItemKind"@, fg: Some("lightfg"@), bg: None, sp: None, attr: HighlightAttr::Nothing, scope: HighlightScope::All },
        SpecHighlight { name: "CmpItemKindDefault"@, fg: Some("lightfg"@), bg: None, sp: None, attr: HighlightAttr::Nothing, scope: HighlightScope::All },
        SpecHighlight { name: "CmpItemKindText"@, fg: Some("lightfg"@), bg: None, sp: None, attr: HighlightAttr::Nothing, scope: HighlightScope::All },
        SpecHighlight { name: "CmpItemKindVariable"@, fg: Some("lightfg"@), bg: None, sp: None, attr: HighlightAttr::Nothing, scope: HighlightScope::All },
        SpecHighlight { name: "CmpItemKindKeyword"@, fg: Some("lightfg"@), bg: None, sp: None, attr: HighlightAttr::Nothing, scope: HighlightScope::All },
        SpecHighlight { name: "CmpItemKindInterface"@, fg: Some("lightfg"@), bg: None, sp: None, attr: HighlightAttr::Nothing, scope: HighlightScope::All },
        SpecHighlight { name: "CmpItemKindFunction"@, fg: Some("lightfg"@), bg: None, sp: None, attr: HighlightAttr::Nothing, scope: HighlightScope::All },
        SpecHighlight { name: "CmpItemKindMethod"@, fg: Some("lightfg"@), bg: None, sp: None, attr: HighlightAttr::Nothing, scope: HighlightScope::All },
        SpecHighlight { name: "CmpItemKindProperty"@, fg: Some("lightfg"@), bg: None, sp: None, attr: HighlightAttr::Nothing, scope: HighlightScope::All },
        SpecHighlight { name: "CmpItemKindUnit"@, fg: Some("lightfg"@), bg: None, sp: None, attr: HighlightAttr::Nothing, scope: HighlightScope::All },
        SpecHighlight { name: "FloatTitle"@, fg: Some("purple"@), bg: Some("mainbg"@), sp: None, attr: HighlightAttr::Clear, scope: HighlightScope::All },
        SpecHighlight { name: "TelescopeNormal"@, fg: Some("lightfg"@), bg: None, sp: None, attr: HighlightAttr::Nothing, scope: HighlightScope::All },
        SpecHighlight { name: "TelescopeTitle"@, fg: Some("purple"@), bg: None, sp: None, attr: HighlightAttr::Nothing, scope: HighlightScope::All },
        SpecHighlight { name: "TelescopeMatching"@, fg: Some("emphasisfg"@), bg: None, sp: None, attr: HighlightAttr::Bold, scope: HighlightScope::All },
        SpecHighlight { name: "TelescopeBorder"@, fg: Some("weakfg"@), bg: None, sp: None, attr: HighlightAttr::Nothing, scope: HighlightScope::All },
        SpecHighlight { name: "TelescopePromptPrefix"@, fg: Some("teal"@), bg: None, sp: None, attr: HighlightAttr::Nothing, scope: HighlightScope::All },
        SpecHighlight { name: "TelescopePromptCounter"@, fg: Some("weakfg"@), bg: None, sp: None, attr: HighlightAttr::Nothing, scope: HighlightScope::All },
        SpecHighlight { name: "TelescopeMultiIcon"@, fg: Some("yellow"@), bg: None, sp: None, attr: HighlightAttr::Nothing, scope: HighlightScope::All },
        SpecHighlight { name: "TelescopeMultiSelection"@, fg: Some("yellow"@), bg: None, sp: None, attr: HighlightAttr::Nothing, scope: HighlightScope::All },
        SpecHighlight { name: "CopilotSuggestion"@, fg: Some("weakfg"@), bg: None, sp: None, attr: HighlightAttr::Nothing, scope: HighlightScope::All },
    ]
}

fn build_catalogue_m() -> (v: Vec<Highlight>)
    ensures
        highlights_view(v@) == catalogue_m(),
{
    let mut v: Vec<Highlight> = Vec::new();
    v.push(Highlight { name: "LspCodeActionText", fg: Some("darkpurple"), bg: None, sp: None, attr: HighlightAttr::Bold, scope: HighlightScope::All });
    v.push(Highlight { name: "CmpItemAbbr", fg: Some("mainfg"), bg: None, sp: None, attr: HighlightAttr::Nothing, scope: HighlightScope::All });
    v.push(Highlight { name: "CmpItemAbbrMatch", fg: Some("purple"), bg: None, sp: None, attr: HighlightAttr::Bold, scope: HighlightScope::All });
    v.push(Highlight { name: "CmpItemAbbrMatchFuzzy", fg: Some("purple"), bg: None, sp: None, attr: HighlightAttr::Bold, scope: HighlightScope::All });
    v.push(Highlight { name: "CmpItemKind", fg: Some("lightfg"), bg: None, sp: None, attr: HighlightAttr::Nothing, scope: HighlightScope::All });
    v.push(Highlight { name: "CmpItemKindDefault", fg: Some("lightfg"), bg: None, sp: None, attr: HighlightAttr::Nothing, scope: HighlightScope::All });
    v.push(Highlight { name: "CmpItemKindText", fg: Some("lightfg"), bg: None, sp: None, attr: HighlightAttr::Nothing, scope: HighlightScope::All });
    v.push(Highlight { name: "CmpItemKindVariable", fg: Some("lightfg"), bg: None, sp: None, attr: HighlightAttr::Nothing, scope: HighlightScope::All });
    v.push(Highlight { name: "CmpItemKindKeyword", fg: Some("lightfg"), bg: None, sp: None, attr: HighlightAttr::Nothing, scope: HighlightScope::All });
    v.push(Highlight { name: "CmpItemKindInterface", fg: Some("lightfg"), bg: None, sp: None, attr: HighlightAttr::Nothing, scope: HighlightScope::All });
    v.push(Highlight { name: "CmpItemKindFunction", fg: Some("lightfg"), bg: None, sp: None, attr: HighlightAttr::Nothing, scope: HighlightScope::All });
    v.push(Highlight { name: "CmpItemKindMethod", fg: Some("lightfg"), bg: None, sp: None, attr: HighlightAttr::Nothing, scope: HighlightScope::All });
    v.push(Highlight { name: "CmpItemKindProperty", fg: Some("lightfg"), bg: None, sp: None, attr: HighlightAttr::Nothing, scope: HighlightScope::All });
    v.push(Highlight { name: "CmpItemKindUnit", fg: Some("lightfg"), bg: None, sp: None, attr: HighlightAttr::Nothing, scope: HighlightScope::All });
    v.push(Highlight { name: "FloatTitle", fg: Some("purple"), bg: Some("mainbg"), sp: None, attr: HighlightAttr::Clear, scope: HighlightScope::All });
    v.push(Highlight { name: "TelescopeNormal", fg: Some("lightfg"), bg: None, sp: None, attr: HighlightAttr::Nothing, scope: HighlightScope::All });
    v.push(Highlight { name: "TelescopeTitle", fg: Some("purple"), bg: None, sp: None, attr: HighlightAttr::Nothing, scope: HighlightScope::All });
    v.push(Highlight { name: "TelescopeMatching", fg: Some("emphasisfg"), bg: None, sp: None, attr: HighlightAttr::Bold, scope: HighlightScope::All });
    v.push(Highlight { name: "TelescopeBorder", fg: Some("weakfg"), bg: None, sp: None, attr: HighlightAttr::Nothing, scope: HighlightScope::All });
    v.push(Highlight { name: "TelescopePromptPrefix", fg: Some("teal"), bg: None, sp: None, attr: HighlightAttr::Nothing, scope: HighlightScope::All });
    v.push(Highlight { name: "TelescopePromptCounter", fg: Some("weakfg"), bg: None, sp: None, attr: HighlightAttr::Nothing, scope: HighlightScope::All });
    v.push(Highlight { name: "TelescopeMultiIcon", fg: Some("yellow"), bg: None, sp: None, attr: HighlightAttr::Nothing, scope: HighlightScope::All });
    v.push(Highlight { name: "TelescopeMultiSelection", fg: Some("yellow"), bg: None, sp: None, attr: HighlightAttr::Nothing, scope: HighlightScope::All });
    v.push(Highlight { name: "CopilotSuggestion", fg: Some("weakfg"), bg: None, sp: None, attr: HighlightAttr::Nothing, scope: HighlightScope::All });
    proof {
        assert(highlights_view(v@) =~= catalogue_m());
    }
    v
}

/// Part of the highlight-rule catalogue.
pub open spec fn catalogue_n() -> Seq<SpecHighlight> {
    seq![
        SpecHighlight { name: "CleverFChar"@, fg: Some("searchfg"@), bg: Some("searchbg"@), sp: None, attr: HighlightAttr::Underline, scope: HighlightScope::All },
        SpecHighlight { name: "ConflictMarkerBegin"@, fg: None, bg: Some("darkteal"@), sp: None, attr: HighlightAttr::Bold, scope: HighlightScope::All },
        SpecHighlight { name: "ConflictMarkerOurs"@, fg: None, bg: Some("darkestteal"@), sp: None, attr: HighlightAttr::Clear, scope: HighlightScope::All },
        SpecHighlight { name: "ConflictMarkerTheirs"@, fg: None, bg: Some("darkestblue"@), sp: None, attr: HighlightAttr::Clear, scope: HighlightScope::All },
        SpecHighlight { name: "ConflictMarkerEnd"@, fg: None, bg: Some("darkblue"@), sp: None, attr: HighlightAttr::Bold, scope: HighlightScope::All },
        SpecHighlight { name: "ConflictMarkerSeparator"@, fg: Some("darkfg"@), bg: None, sp: None, attr: HighlightAttr::Bold, scope: HighlightScope::All },
        SpecHighlight { name: "EasyMotionTarget"@, fg: Some("yellow"@), bg: None, sp: None, attr: HighlightAttr::Bold, scope: HighlightScope::All },
        SpecHighlight { name: "EasyMotionShade"@, fg: Some("weakfg"@), bg: Some("mainbg"@), sp: None, attr: HighlightAttr::Nothing, scope: HighlightScope::All },
        SpecHighlight { name: "EasyMotionIncCursor"@, fg: Some("mainfg"@), bg: Some("mainbg"@), sp: None, attr: HighlightAttr::Nothing, scope: HighlightScope::All },
        SpecHighlight { name: "FlashPrompt"@, fg: Some("purple"@), bg: None, sp: None, attr: HighlightAttr::Bold, scope: HighlightScope::All },
        SpecHighlight { name: "FlashPromptIcon"@, fg: Some("teal"@), bg: None, sp: None, attr: HighlightAttr::Bold, scope: HighlightScope::All },
        SpecHighlight { name: "FlashLabel"@, fg: Some("teal"@), bg: None, sp: None, attr: HighlightAttr::Bold, scope: HighlightScope::All },
        SpecHighlight { name: "FidgetTitle"@, fg: Some("teal"@), bg: None, sp: None, attr: HighlightAttr::Bold, scope: HighlightScope::All },
        SpecHighlight { name: "FidgetTask"@, fg: Some("weakfg"@), bg: None, sp: None, attr: HighlightAttr::Nothing, scope: HighlightScope::All },
    ]
}

fn build_catalogue_n() -> (v: Vec<Highlight>)
    ensures
        highlights_view(v@) == catalogue_n(),
{
    let mut v: Vec<Highlight> = Vec::new();
    v.push(Highlight { name: "CleverFChar", fg: Some("searchfg"), bg: Some("searchbg"), sp: None, attr: HighlightAttr::Underline, scope: HighlightScope::All });
    v.push(Highlight { name: "ConflictMarkerBegin", fg: None, bg: Some("darkteal"), sp: None, attr: HighlightAttr::Bold, scope: HighlightScope::All });
    v.push(Highlight { name: "ConflictMarkerOurs", fg: None, bg: Some("darkestteal"), sp: None, attr: HighlightAttr::Clear, scope: HighlightScope::All });
    v.push(Highlight { name: "ConflictMarkerTheirs", fg: None, bg: Some("darkestblue"), sp: None, attr: HighlightAttr::Clear, scope: HighlightScope::All });
    v.push(Highlight { name: "ConflictMarkerEnd", fg: None, bg: Some("darkblue"), sp: None, attr: HighlightAttr::Bold, scope: HighlightScope::All });
    v.push(Highlight { name: "ConflictMarkerSeparator", fg: Some("darkfg"), bg: None, sp: None, attr: HighlightAttr::Bold, scope: HighlightScope::All });
    v.push(Highlight { name: "EasyMotionTarget", fg: Some("yellow"), bg: None, sp: None, attr: HighlightAttr::Bold, scope: HighlightScope::All });
    v.push(Highlight { name: "EasyMotionShade", fg: Some("weakfg"), bg: Some("mainbg"), sp: None, attr: HighlightAttr::Nothing, scope: HighlightScope::All });
    v.push(Highlight { name: "EasyMotionIncCursor", fg: Some("mainfg"), bg: Some("mainbg"), sp: None, attr: HighlightAttr::Nothing, scope: HighlightScope::All });
    v.push(Highlight { name: "FlashPrompt", fg: Some("purple"), bg: None, sp: None, attr: HighlightAttr::Bold, scope: HighlightScope::All });
    v.push(Highlight { name: "FlashPromptIcon", fg: Some("teal"), bg: None, sp: None, attr: HighlightAttr::Bold, scope: HighlightScope::All });
    v.push(Highlight { name: "FlashLabel", fg: Some("teal"), bg: None, sp: None, attr: HighlightAttr::Bold, scope: HighlightScope::All });
    v.push(Highlight { name: "FidgetTitle", fg: Some("teal"), bg: None, sp: None, attr: HighlightAttr::Bold, scope: HighlightScope::All });
    v.push(Highlight { name: "FidgetTask", fg: Some("weakfg"), bg: None, sp: None, attr: HighlightAttr::Nothing, scope: HighlightScope::All });
    proof {
        assert(highlights_view(v@) =~= catalogue_n());
    }
    v
}

/// The full highlight-rule catalogue, in declaration order: pure data,
/// consumed by the rendering layer as a list of symbolic color references.
pub open spec fn highlight_catalogue() -> Seq<SpecHighlight> {
    catalogue_a() + catalogue_b() + catalogue_c() + catalogue_d() + catalogue_e() + catalogue_f() + catalogue_g() + catalogue_h() + catalogue_i() + catalogue_j() + catalogue_k() + catalogue_l() + catalogue_m() + catalogue_n()
}

/// Builds the full highlight-rule catalogue.
pub fn get_highlights() -> (res: Vec<Highlight>)
    ensures
        highlights_view(res@) == highlight_catalogue(),
{
    let mut hls = build_catalogue_a();
    let mut more_b = build_catalogue_b();
    hls.append(&mut more_b);
    proof {
        assert(highlights_view(hls@) =~= catalogue_a() + catalogue_b());
    }
    let mut more_c = build_catalogue_c();
    hls.append(&mut more_c);
    proof {
        assert(highlights_view(hls@) =~= catalogue_a() + catalogue_b() + catalogue_c());
    }
    let mut more_d = build_catalogue_d();
    hls.append(&mut more_d);
    proof {
        assert(highlights_view(hls@) =~= catalogue_a() + catalogue_b() + catalogue_c() + catalogue_d());
    }
    let mut more_e = build_catalogue_e();
    hls.append(&mut more_e);
    proof {
        assert(highlights_view(hls@) =~= catalogue_a() + catalogue_b() + catalogue_c() + catalogue_d() + catalogue_e());
    }
    let mut more_f = build_catalogue_f();
    hls.append(&mut more_f);
    proof {
        assert(highlights_view(hls@) =~= catalogue_a() + catalogue_b() + catalogue_c() + catalogue_d() + catalogue_e() + catalogue_f());
    }
    let mut more_g = build_catalogue_g();
    hls.append(&mut more_g);
    proof {
        assert(highlights_view(hls@) =~= catalogue_a() + catalogue_b() + catalogue_c() + catalogue_d() + catalogue_e() + catalogue_f() + catalogue_g());
    }
    let mut more_h = build_catalogue_h();
    hls.append(&mut more_h);
    proof {
        assert(highlights_view(hls@) =~= catalogue_a() + catalogue_b() + catalogue_c() + catalogue_d() + catalogue_e() + catalogue_f() + catalogue_g() + catalogue_h());
    }
    let mut more_i = build_catalogue_i();
    hls.append(&mut more_i);
    proof {
        assert(highlights_view(hls@) =~= catalogue_a() + catalogue_b() + catalogue_c() + catalogue_d() + catalogue_e() + catalogue_f() + catalogue_g() + catalogue_h() + catalogue_i());
    }
    let mut more_j = build_catalogue_j();
    hls.append(&mut more_j);
    proof {
        assert(highlights_view(hls@) =~= catalogue_a() + catalogue_b() + catalogue_c() + catalogue_d() + catalogue_e() + catalogue_f() + catalogue_g() + catalogue_h() + catalogue_i() + catalogue_j());
    }
    let mut more_k = build_catalogue_k();
    hls.append(&mut more_k);
    proof {
        assert(highlights_view(hls@) =~= catalogue_a() + catalogue_b() + catalogue_c() + catalogue_d() + catalogue_e() + catalogue_f() + catalogue_g() + catalogue_h() + catalogue_i() + catalogue_j() + catalogue_k());
    }
    let mut more_l = build_catalogue_l();
    hls.append(&mut more_l);
    proof {
        assert(highlights_view(hls@) =~= catalogue_a() + catalogue_b() + catalogue_c() + catalogue_d() + catalogue_e() + catalogue_f() + catalogue_g() + catalogue_h() + catalogue_i() + catalogue_j() + catalogue_k() + catalogue_l());
    }
    let mut more_m = build_catalogue_m();
    hls.append(&mut more_m);
    proof {
        assert(highlights_view(hls@) =~= catalogue_a() + catalogue_b() + catalogue_c() + catalogue_d() + catalogue_e() + catalogue_f() + catalogue_g() + catalogue_h() + catalogue_i() + catalogue_j() + catalogue_k() + catalogue_l() + catalogue_m());
    }
    let mut more_n = build_catalogue_n();
    hls.append(&mut more_n);
    proof {
        assert(highlights_view(hls@) =~= catalogue_a() + catalogue_b() + catalogue_c() + catalogue_d() + catalogue_e() + catalogue_f() + catalogue_g() + catalogue_h() + catalogue_i() + catalogue_j() + catalogue_k() + catalogue_l() + catalogue_m() + catalogue_n());
    }
    hls
}

} // verus!
