//! Color model: hex strings, RGB channels, and the HSV-based derivation
//! operators (hue rotation, saturation, lightness), computed in exact
//! fixed-point arithmetic.

use vstd::prelude::*;

verus! {

/// An RGB color: three 8-bit channels.
#[derive(Clone, Copy, Debug, PartialEq, Eq, Structural)]
pub struct Rgb {
    pub r: u8,
    pub g: u8,
    pub b: u8,
}

/// The value of one hex digit, or -1 for any other character.
/// Both cases are accepted on input: `a`..`f` and `A`..`F`.
pub open spec fn hex_digit_value(c: char) -> int {
    if '0' <= c && c <= '9' {
        c as int - '0' as int
    } else if 'a' <= c && c <= 'f' {
        10 + c as int - 'a' as int
    } else if 'A' <= c && c <= 'F' {
        10 + c as int - 'A' as int
    } else {
        -1
    }
}

/// A well-formed color string: `#` and six hex digits.
pub open spec fn valid_hex(s: Seq<char>) -> bool {
    &&& s.len() == 7
    &&& s[0] == '#'
    &&& forall|i: int| 1 <= i < 7 ==> hex_digit_value(#[trigger] s[i]) >= 0
}

/// The value of one hex digit, executable form.
fn hex_digit(c: char) -> (v: Option<u8>)
    ensures
        match v {
            Some(d) => hex_digit_value(c) == d as int && d < 16,
            None => hex_digit_value(c) < 0,
        },
{
    if '0' <= c && c <= '9' {
        Some((c as u8) - ('0' as u8))
    } else if 'a' <= c && c <= 'f' {
        Some(10 + (c as u8) - ('a' as u8))
    } else if 'A' <= c && c <= 'F' {
        Some(10 + (c as u8) - ('A' as u8))
    } else {
        None
    }
}

/// The color a well-formed `#rrggbb` string denotes; `None` on any other string.
pub open spec fn parse_hex(s: Seq<char>) -> Option<Rgb> {
    if valid_hex(s) {
        Some(
            Rgb {
                r: (16 * hex_digit_value(s[1]) + hex_digit_value(s[2])) as u8,
                g: (16 * hex_digit_value(s[3]) + hex_digit_value(s[4])) as u8,
                b: (16 * hex_digit_value(s[5]) + hex_digit_value(s[6])) as u8,
            },
        )
    } else {
        None
    }
}

/// The canonical lowercase character of one hex digit value.
pub open spec fn hex_char_of(v: int) -> char {
    if v == 0 { '0' } else if v == 1 { '1' } else if v == 2 { '2' } else if v == 3 { '3' }
    else if v == 4 { '4' } else if v == 5 { '5' } else if v == 6 { '6' } else if v == 7 { '7' }
    else if v == 8 { '8' } else if v == 9 { '9' } else if v == 10 { 'a' } else if v == 11 { 'b' }
    else if v == 12 { 'c' } else if v == 13 { 'd' } else if v == 14 { 'e' } else { 'f' }
}

/// The canonical lowercase `#rrggbb` form of three channel values.
pub open spec fn hex_of_rgb(c: Rgb) -> Seq<char> {
    seq![
        '#',
        hex_char_of(c.r as int / 16),
        hex_char_of(c.r as int % 16),
        hex_char_of(c.g as int / 16),
        hex_char_of(c.g as int % 16),
        hex_char_of(c.b as int / 16),
        hex_char_of(c.b as int % 16),
    ]
}

/// The canonical lowercase character of one hex digit value, executable form.
pub(crate) fn hex_char_str(v: u8) -> (c: &'static str)
    requires
        v < 16,
    ensures
        c@ =~= seq![hex_char_of(v as int)],
{
    proof {
        reveal_strlit("0");
        reveal_strlit("1");
        reveal_strlit("2");
        reveal_strlit("3");
        reveal_strlit("4");
        reveal_strlit("5");
        reveal_strlit("6");
        reveal_strlit("7");
        reveal_strlit("8");
        reveal_strlit("9");
        reveal_strlit("a");
        reveal_strlit("b");
        reveal_strlit("c");
        reveal_strlit("d");
        reveal_strlit("e");
        reveal_strlit("f");
    }
    match v {
        0 => "0",
        1 => "1",
        2 => "2",
        3 => "3",
        4 => "4",
        5 => "5",
        6 => "6",
        7 => "7",
        8 => "8",
        9 => "9",
        10 => "a",
        11 => "b",
        12 => "c",
        13 => "d",
        14 => "e",
        _ => "f",
    }
}

/// Parses a `#rrggbb` string, case-insensitive on the digits.
pub fn from_hex(hex: &str) -> (res: Result<Rgb, crate::PaletteError>)
    ensures
        match res {
            Ok(c) => parse_hex(hex@) == Some(c),
            Err(e) => parse_hex(hex@) is None && (e matches crate::PaletteError::InvalidColorFormat(
                s,
            ) && s@ == hex@),
        },
{
    let n = hex.unicode_len();
    if n != 7 {
        return Err(crate::PaletteError::InvalidColorFormat(String::from_str(hex)));
    }
    let head = hex.get_char(0);
    if head != '#' {
        return Err(crate::PaletteError::InvalidColorFormat(String::from_str(hex)));
    }
    let d1 = hex_digit(hex.get_char(1));
    let d2 = hex_digit(hex.get_char(2));
    let d3 = hex_digit(hex.get_char(3));
    let d4 = hex_digit(hex.get_char(4));
    let d5 = hex_digit(hex.get_char(5));
    let d6 = hex_digit(hex.get_char(6));
    match (d1, d2, d3, d4, d5, d6) {
        (Some(a), Some(b), Some(c), Some(d), Some(e), Some(f)) => {
            let col = Rgb { r: 16 * a + b, g: 16 * c + d, b: 16 * e + f };
            proof {
                assert(valid_hex(hex@)) by {
                    assert forall|i: int| 1 <= i < 7 implies hex_digit_value(
                        #[trigger] hex@[i],
                    ) >= 0 by {
                        if i == 1 {
                        } else if i == 2 {
                        } else if i == 3 {
                        } else if i == 4 {
                        } else if i == 5 {
                        } else {
                            assert(i == 6);
                        }
                    }
                }
            }
            Ok(col)
        },
        _ => Err(crate::PaletteError::InvalidColorFormat(String::from_str(hex))),
    }
}

/// Formats a color as its canonical lowercase `#rrggbb` string.
pub fn to_hex(c: Rgb) -> (res: String)
    ensures
        res@ == hex_of_rgb(c),
{
    proof {
        reveal_strlit("#");
    }
    let mut out = String::from_str("#");
    out.append(hex_char_str(c.r / 16));
    out.append(hex_char_str(c.r % 16));
    out.append(hex_char_str(c.g / 16));
    out.append(hex_char_str(c.g % 16));
    out.append(hex_char_str(c.b / 16));
    out.append(hex_char_str(c.b % 16));
    proof {
        assert(out@ =~= hex_of_rgb(c));
    }
    out
}

/// An exact hue/saturation/value triple. Each component is a fraction:
/// hue `hn/hd` in `[0, 360)` degrees, saturation `sn/sd` and value `vn/vd`
/// each in `[0, 1]`. Keeping exact fractions makes the conversion back to
/// RGB an exact inverse, where floating point would drift.
pub ghost struct HsvFrac {
    pub hn: int,
    pub hd: int,
    pub sn: int,
    pub sd: int,
    pub vn: int,
    pub vd: int,
}

/// A well-formed HSV fraction triple.
pub open spec fn wf_hsv(x: HsvFrac) -> bool {
    &&& x.hd > 0
    &&& x.sd > 0
    &&& x.vd > 0
    &&& 0 <= x.hn < 360 * x.hd
    &&& 0 <= x.sn <= x.sd
    &&& 0 <= x.vn <= x.vd
}

pub open spec fn max3(a: int, b: int, c: int) -> int {
    if a >= b && a >= c {
        a
    } else if b >= c {
        b
    } else {
        c
    }
}

pub open spec fn min3(a: int, b: int, c: int) -> int {
    if a <= b && a <= c {
        a
    } else if b <= c {
        b
    } else {
        c
    }
}

/// The hue numerator over denominator `chroma` (`max - min`), already wrapped
/// into `[0, 360 * chroma)`: 60 degrees per sextant of the color hexagon.
pub open spec fn hue_num(r: int, g: int, b: int) -> int {
    let mx = max3(r, g, b);
    let d = mx - min3(r, g, b);
    if mx == r && g >= b {
        60 * (g - b)
    } else if mx == r {
        360 * d - 60 * (b - g)
    } else if mx == g {
        (120 * d + 60 * b) - 60 * r
    } else {
        (240 * d + 60 * r) - 60 * g
    }
}

/// The exact HSV form of an RGB color: value `max/255`, saturation
/// `(max-min)/max`, hue by the standard hexagon formula with denominator
/// `max - min`. Gray colors take hue 0 and zero saturation.
pub open spec fn rgb_to_hsv(c: Rgb) -> HsvFrac {
    let r = c.r as int;
    let g = c.g as int;
    let b = c.b as int;
    let mx = max3(r, g, b);
    let d = mx - min3(r, g, b);
    HsvFrac {
        hn: if d == 0 {
            0
        } else {
            hue_num(r, g, b)
        },
        hd: if d == 0 {
            1
        } else {
            d
        },
        sn: if mx == 0 {
            0
        } else {
            d
        },
        sd: if mx == 0 {
            1
        } else {
            mx
        },
        vn: mx,
        vd: 255,
    }
}

/// One 8-bit output channel of the HSV-to-RGB conversion:
/// `255 * v * (1 - s * (1 - w/td))`, rounded down, written as one exact
/// integer division. `w` ranges over `0`, `tn`, `td - tn`, `td`.
pub open spec fn channel(vn: int, vd: int, sn: int, sd: int, td: int, w: int) -> int {
    (255 * vn * (sd * td - sn * (td - w))) / (vd * sd * td)
}

/// The RGB form of an exact HSV triple: the standard sextant construction,
/// each channel quantized to 8 bits by rounding down.
pub open spec fn hsv_to_rgb(x: HsvFrac) -> Rgb {
    let td = 60 * x.hd;
    let k = x.hn / td;
    let tn = x.hn % td;
    let hi = channel(x.vn, x.vd, x.sn, x.sd, td, td) as u8;
    let lo = channel(x.vn, x.vd, x.sn, x.sd, td, 0) as u8;
    let up = channel(x.vn, x.vd, x.sn, x.sd, td, tn) as u8;
    let down = channel(x.vn, x.vd, x.sn, x.sd, td, td - tn) as u8;
    if k == 0 {
        Rgb { r: hi, g: up, b: lo }
    } else if k == 1 {
        Rgb { r: down, g: hi, b: lo }
    } else if k == 2 {
        Rgb { r: lo, g: hi, b: up }
    } else if k == 3 {
        Rgb { r: lo, g: down, b: hi }
    } else if k == 4 {
        Rgb { r: up, g: lo, b: hi }
    } else {
        Rgb { r: hi, g: lo, b: down }
    }
}

/// An exact HSV triple in executable form; the fractions of `HsvFrac`, held
/// as 64-bit numerators and denominators.
#[derive(Clone, Copy, Debug)]
pub struct Hsv {
    pub hn: u64,
    pub hd: u64,
    pub sn: u64,
    pub sd: u64,
    pub vn: u64,
    pub vd: u64,
}

impl Hsv {
    /// The fraction triple this value holds.
    pub open spec fn view_frac(self) -> HsvFrac {
        HsvFrac {
            hn: self.hn as int,
            hd: self.hd as int,
            sn: self.sn as int,
            sd: self.sd as int,
            vn: self.vn as int,
            vd: self.vd as int,
        }
    }
}

/// Converts a color to its exact HSV form.
pub fn to_hsv(c: Rgb) -> (x: Hsv)
    ensures
        x.view_frac() == rgb_to_hsv(c),
        wf_hsv(x.view_frac()),
        x.hd <= 255,
        x.sd <= 255,
        x.vd == 255,
{
    let r = c.r as u64;
    let g = c.g as u64;
    let b = c.b as u64;
    let mx = if r >= g && r >= b {
        r
    } else if g >= b {
        g
    } else {
        b
    };
    let mn = if r <= g && r <= b {
        r
    } else if g <= b {
        g
    } else {
        b
    };
    let d = mx - mn;
    let hn: u64 = if d == 0 {
        0
    } else if mx == r && g >= b {
        60 * (g - b)
    } else if mx == r {
        360 * d - 60 * (b - g)
    } else if mx == g {
        (120 * d + 60 * b) - 60 * r
    } else {
        (240 * d + 60 * r) - 60 * g
    };
    let hd: u64 = if d == 0 {
        1
    } else {
        d
    };
    let sn: u64 = if mx == 0 {
        0
    } else {
        d
    };
    let sd: u64 = if mx == 0 {
        1
    } else {
        mx
    };
    Hsv { hn, hd, sn, sd, vn: mx, vd: 255 }
}

/// One output channel, computed exactly in 128-bit intermediates.
fn channel_exec(vn: u64, vd: u64, sn: u64, sd: u64, td: u64, w: u64) -> (ch: u8)
    requires
        0 < vd <= 0x40000,
        0 < sd <= 0x40000,
        0 < td <= 0x1000000,
        vn <= vd,
        sn <= sd,
        w <= td,
    ensures
        ch as int == channel(vn as int, vd as int, sn as int, sd as int, td as int, w as int),
        channel(vn as int, vd as int, sn as int, sd as int, td as int, w as int) <= 255,
{
    let vn_: u128 = vn as u128;
    let vd_: u128 = vd as u128;
    let sn_: u128 = sn as u128;
    let sd_: u128 = sd as u128;
    let td_: u128 = td as u128;
    let w_: u128 = w as u128;
    proof {
        assert(sn_ * (td_ - w_) <= sd_ * td_) by (nonlinear_arith)
            requires
                sn_ <= sd_,
                w_ <= td_,
        ;
        assert(sd_ * td_ <= 0x40000000000) by (nonlinear_arith)
            requires
                sd_ <= 0x40000,
                td_ <= 0x1000000,
        ;
        assert(vn_ * (sd_ * td_ - sn_ * (td_ - w_)) <= vd_ * (sd_ * td_)) by (nonlinear_arith)
            requires
                vn_ <= vd_,
                0 <= sn_ * (td_ - w_) <= sd_ * td_,
        ;
        assert(vd_ * (sd_ * td_) <= 0x40000 * 0x40000000000) by (nonlinear_arith)
            requires
                vd_ <= 0x40000,
                sd_ * td_ <= 0x40000000000,
        ;
        assert(vd_ * (sd_ * td_) >= 1) by (nonlinear_arith)
            requires
                vd_ >= 1,
                sd_ >= 1,
                td_ >= 1,
        ;
    }
    let num: u128 = 255 * (vn_ * (sd_ * td_ - sn_ * (td_ - w_)));
    let den: u128 = vd_ * (sd_ * td_);
    let q: u128 = num / den;
    proof {
        assert(num <= 255 * den) by (nonlinear_arith)
            requires
                vn_ * (sd_ * td_ - sn_ * (td_ - w_)) <= vd_ * (sd_ * td_),
                den == vd_ * (sd_ * td_),
                num == 255 * (vn_ * (sd_ * td_ - sn_ * (td_ - w_))),
        ;
        assert(q <= 255) by {
            vstd::arithmetic::div_mod::lemma_div_multiples_vanish(255, den as int);
            vstd::arithmetic::div_mod::lemma_div_is_ordered(num as int, 255 * den, den as int);
        }
        assert(q == channel(vn as int, vd as int, sn as int, sd as int, td as int, w as int)) by {
            assert(num == 255 * (vn as int) * ((sd as int) * (td as int) - (sn as int) * ((td as int)
                - (w as int)))) by (nonlinear_arith)
                requires
                    num == 255 * (vn_ * (sd_ * td_ - sn_ * (td_ - w_))),
                    vn_ == vn as int,
                    sd_ == sd as int,
                    td_ == td as int,
                    sn_ == sn as int,
                    w_ == w as int,
                    w_ <= td_,
                    sn_ * (td_ - w_) <= sd_ * td_,
            ;
            assert(den == (vd as int) * (sd as int) * (td as int)) by (nonlinear_arith)
                requires
                    den == vd_ * (sd_ * td_),
                    vd_ == vd as int,
                    sd_ == sd as int,
                    td_ == td as int,
            ;
        }
    }
    q as u8
}

/// Converts an exact HSV triple back to a color. The denominators are bounded
/// so the arithmetic fits 128-bit intermediates.
pub fn from_hsv(x: Hsv) -> (c: Rgb)
    requires
        wf_hsv(x.view_frac()),
        x.hd <= 0x40000,
        x.sd <= 0x40000,
        x.vd <= 0x40000,
    ensures
        c == hsv_to_rgb(x.view_frac()),
{
    let td: u64 = 60 * x.hd;
    let k: u64 = x.hn / td;
    let tn: u64 = x.hn % td;
    proof {
        assert(x.hn < 6 * td);
        assert(k < 6) by {
            vstd::arithmetic::div_mod::lemma_multiply_divide_lt(x.hn as int, td as int, 6);
        }
        assert(tn < td) by {
            vstd::arithmetic::div_mod::lemma_mod_bound(x.hn as int, td as int);
        }
    }
    let hi = channel_exec(x.vn, x.vd, x.sn, x.sd, td, td);
    let lo = channel_exec(x.vn, x.vd, x.sn, x.sd, td, 0);
    let up = channel_exec(x.vn, x.vd, x.sn, x.sd, td, tn);
    let down = channel_exec(x.vn, x.vd, x.sn, x.sd, td, td - tn);
    if k == 0 {
        Rgb { r: hi, g: up, b: lo }
    } else if k == 1 {
        Rgb { r: down, g: hi, b: lo }
    } else if k == 2 {
        Rgb { r: lo, g: hi, b: up }
    } else if k == 3 {
        Rgb { r: lo, g: down, b: hi }
    } else if k == 4 {
        Rgb { r: up, g: lo, b: hi }
    } else {
        Rgb { r: hi, g: lo, b: down }
    }
}

/// `x` forced into `[0, hi]`.
pub open spec fn clamp(x: int, hi: int) -> int {
    if x < 0 {
        0
    } else if x > hi {
        hi
    } else {
        x
    }
}

/// Hue rotated by `a` thousandths of a degree, wrapping modulo 360 degrees;
/// saturation and value unchanged.
pub open spec fn frac_hue(x: HsvFrac, a: int) -> HsvFrac {
    HsvFrac { hn: (1000 * x.hn + a * x.hd) % (360000 * x.hd), hd: 1000 * x.hd, ..x }
}

/// Saturation moved by `a` thousandths, clamped into `[0, 1]`; hue and value
/// unchanged.
pub open spec fn frac_saturate(x: HsvFrac, a: int) -> HsvFrac {
    HsvFrac { sn: clamp(1000 * x.sn + a * x.sd, 1000 * x.sd), sd: 1000 * x.sd, ..x }
}

/// Value moved by `a` thousandths, clamped into `[0, 1]`; hue and saturation
/// unchanged.
pub open spec fn frac_value(x: HsvFrac, a: int) -> HsvFrac {
    HsvFrac { vn: clamp(1000 * x.vn + a * x.vd, 1000 * x.vd), vd: 1000 * x.vd, ..x }
}

/// The color with hue rotated by `a` thousandths of a degree.
pub open spec fn hue_shift(c: Rgb, a: int) -> Rgb {
    hsv_to_rgb(frac_hue(rgb_to_hsv(c), a))
}

/// The color with saturation moved by `a` thousandths.
pub open spec fn sat_shift(c: Rgb, a: int) -> Rgb {
    hsv_to_rgb(frac_saturate(rgb_to_hsv(c), a))
}

/// The color with value moved by `a` thousandths.
pub open spec fn val_shift(c: Rgb, a: int) -> Rgb {
    hsv_to_rgb(frac_value(rgb_to_hsv(c), a))
}

/// What `hue` returns on a well-formed color string; `None` on any other.
pub open spec fn spec_hue(s: Seq<char>, a: int) -> Option<Seq<char>> {
    match parse_hex(s) {
        Some(c) => Some(hex_of_rgb(hue_shift(c, a))),
        None => None,
    }
}

/// What `saturate` returns on a well-formed color string.
pub open spec fn spec_saturate(s: Seq<char>, a: int) -> Option<Seq<char>> {
    match parse_hex(s) {
        Some(c) => Some(hex_of_rgb(sat_shift(c, a))),
        None => None,
    }
}

/// What `darken` returns on a well-formed color string.
pub open spec fn spec_darken(s: Seq<char>, a: int) -> Option<Seq<char>> {
    match parse_hex(s) {
        Some(c) => Some(hex_of_rgb(val_shift(c, -a))),
        None => None,
    }
}

/// What `lighten` returns on a well-formed color string.
pub open spec fn spec_lighten(s: Seq<char>, a: int) -> Option<Seq<char>> {
    spec_darken(s, -a)
}

/// The HSV form of any color is well-formed, with small denominators.
pub proof fn lemma_rgb_to_hsv_wf(c: Rgb)
    ensures
        wf_hsv(rgb_to_hsv(c)),
        rgb_to_hsv(c).hd <= 255,
        rgb_to_hsv(c).sd <= 255,
        rgb_to_hsv(c).vd == 255,
{
}

/// Scaling numerator and denominator together changes neither quotient nor
/// (up to the same scale) remainder.
proof fn lemma_scale_div_mod(a: int, b: int, q: int)
    requires
        a >= 0,
        b >= 1,
        q >= 1,
    ensures
        (q * a) / (q * b) == a / b,
        (q * a) % (q * b) == q * (a % b),
{
    vstd::arithmetic::div_mod::lemma_fundamental_div_mod(a, b);
    vstd::arithmetic::div_mod::lemma_mod_bound(a, b);
    let k = a / b;
    let r = a % b;
    assert(q * a == k * (q * b) + q * r) by (nonlinear_arith)
        requires
            a == b * k + r,
    ;
    assert(0 <= q * r && q * r < q * b) by (nonlinear_arith)
        requires
            0 <= r < b,
            q >= 1,
    ;
    vstd::arithmetic::div_mod::lemma_fundamental_div_mod_converse(q * a, q * b, k, q * r);
}

/// A channel whose numerator is an exact multiple of the denominator.
proof fn lemma_channel_value(vn: int, vd: int, sn: int, sd: int, td: int, w: int, val: int)
    requires
        vd >= 1,
        sd >= 1,
        td >= 1,
        255 * vn * (sd * td - sn * (td - w)) == val * (vd * sd * td),
    ensures
        channel(vn, vd, sn, sd, td, w) == val,
{
    let den = vd * sd * td;
    assert(den >= 1) by (nonlinear_arith)
        requires
            vd >= 1,
            sd >= 1,
            td >= 1,
            den == vd * sd * td,
    ;
    assert(val * den == den * val) by (nonlinear_arith);
    vstd::arithmetic::div_mod::lemma_div_multiples_vanish(val, den);
}

/// The channel of the HSV form of a color, at sextant offset `w == 60 * z`:
/// exactly `min + z`, where `min` is `mx - d`.
proof fn lemma_channel_chromatic(mx: int, d: int, z: int)
    requires
        0 < mx <= 255,
        0 < d <= mx,
        0 <= z <= d,
    ensures
        channel(mx, 255, d, mx, 60 * d, 60 * z) == mx - d + z,
{
    assert(255 * mx * (mx * (60 * d) - d * ((60 * d) - (60 * z))) == (mx - d + z) * (255 * mx * (60
        * d))) by (nonlinear_arith);
    lemma_channel_value(mx, 255, d, mx, 60 * d, 60 * z, mx - d + z);
}

/// The channel of a gray color (zero saturation): exactly the value `mx`.
proof fn lemma_channel_gray(mx: int, sd: int, w: int)
    requires
        0 <= mx <= 255,
        sd >= 1,
    ensures
        channel(mx, 255, 0, sd, 60, w) == mx,
{
    assert(255 * mx * (sd * 60 - 0 * (60 - w)) == mx * (255 * sd * 60)) by (nonlinear_arith);
    lemma_channel_value(mx, 255, 0, sd, 60, w, mx);
}

/// The non-negativity and positivity facts every channel-scaling proof needs.
proof fn lemma_channel_parts(vn: int, vd: int, sn: int, sd: int, td: int, w: int)
    requires
        vd >= 1,
        sd >= 1,
        td >= 1,
        0 <= vn,
        0 <= sn <= sd,
        0 <= w <= td,
    ensures
        255 * vn * (sd * td - sn * (td - w)) >= 0,
        vd * sd * td >= 1,
{
    assert(sn * (td - w) <= sd * td) by (nonlinear_arith)
        requires
            0 <= sn <= sd,
            0 <= w <= td,
    ;
    assert(255 * vn * (sd * td - sn * (td - w)) >= 0) by (nonlinear_arith)
        requires
            0 <= vn,
            sn * (td - w) <= sd * td,
    ;
    assert(vd * sd * td >= 1) by (nonlinear_arith)
        requires
            vd >= 1,
            sd >= 1,
            td >= 1,
    ;
}

/// Rescaling the hue fraction by 1000 leaves a channel unchanged.
proof fn lemma_channel_scale_h(vn: int, vd: int, sn: int, sd: int, td: int, w: int)
    requires
        vd >= 1,
        sd >= 1,
        td >= 1,
        0 <= vn,
        0 <= sn <= sd,
        0 <= w <= td,
    ensures
        channel(vn, vd, sn, sd, 1000 * td, 1000 * w) == channel(vn, vd, sn, sd, td, w),
{
    lemma_channel_parts(vn, vd, sn, sd, td, w);
    let num = 255 * vn * (sd * td - sn * (td - w));
    let den = vd * sd * td;
    assert(sd * (1000 * td) == 1000 * (sd * td)) by (nonlinear_arith);
    assert(sn * ((1000 * td) - (1000 * w)) == 1000 * (sn * (td - w))) by (nonlinear_arith);
    assert(255 * vn * (1000 * (sd * td) - 1000 * (sn * (td - w))) == 1000 * num) by (nonlinear_arith)
        requires
            num == 255 * vn * (sd * td - sn * (td - w)),
    ;
    assert(vd * sd * (1000 * td) == 1000 * den) by (nonlinear_arith)
        requires
            den == vd * sd * td,
    ;
    lemma_scale_div_mod(num, den, 1000);
}

/// Rescaling the saturation fraction by 1000 leaves a channel unchanged.
proof fn lemma_channel_scale_s(vn: int, vd: int, sn: int, sd: int, td: int, w: int)
    requires
        vd >= 1,
        sd >= 1,
        td >= 1,
        0 <= vn,
        0 <= sn <= sd,
        0 <= w <= td,
    ensures
        channel(vn, vd, 1000 * sn, 1000 * sd, td, w) == channel(vn, vd, sn, sd, td, w),
{
    lemma_channel_parts(vn, vd, sn, sd, td, w);
    let num = 255 * vn * (sd * td - sn * (td - w));
    let den = vd * sd * td;
    assert((1000 * sd) * td == 1000 * (sd * td)) by (nonlinear_arith);
    assert((1000 * sn) * (td - w) == 1000 * (sn * (td - w))) by (nonlinear_arith);
    assert(255 * vn * (1000 * (sd * td) - 1000 * (sn * (td - w))) == 1000 * num) by (nonlinear_arith)
        requires
            num == 255 * vn * (sd * td - sn * (td - w)),
    ;
    assert(vd * (1000 * sd) * td == 1000 * den) by (nonlinear_arith)
        requires
            den == vd * sd * td,
    ;
    lemma_scale_div_mod(num, den, 1000);
}

/// Rescaling the value fraction by 1000 leaves a channel unchanged.
proof fn lemma_channel_scale_v(vn: int, vd: int, sn: int, sd: int, td: int, w: int)
    requires
        vd >= 1,
        sd >= 1,
        td >= 1,
        0 <= vn,
        0 <= sn <= sd,
        0 <= w <= td,
    ensures
        channel(1000 * vn, 1000 * vd, sn, sd, td, w) == channel(vn, vd, sn, sd, td, w),
{
    lemma_channel_parts(vn, vd, sn, sd, td, w);
    let num = 255 * vn * (sd * td - sn * (td - w));
    let den = vd * sd * td;
    assert(255 * (1000 * vn) * (sd * td - sn * (td - w)) == 1000 * num) by (nonlinear_arith)
        requires
            num == 255 * vn * (sd * td - sn * (td - w)),
    ;
    assert((1000 * vd) * sd * td == 1000 * den) by (nonlinear_arith)
        requires
            den == vd * sd * td,
    ;
    lemma_scale_div_mod(num, den, 1000);
}

/// Which of the three fractions of an HSV triple is rescaled by 1000.
#[allow(dead_code)]
ghost enum ScaledPart {
    Hue,
    Sat,
    Val,
}

/// The given HSV triple with one fraction rescaled by 1000.
spec fn scale_1000(x: HsvFrac, part: ScaledPart) -> HsvFrac {
    match part {
        ScaledPart::Hue => HsvFrac { hn: 1000 * x.hn, hd: 1000 * x.hd, ..x },
        ScaledPart::Sat => HsvFrac { sn: 1000 * x.sn, sd: 1000 * x.sd, ..x },
        ScaledPart::Val => HsvFrac { vn: 1000 * x.vn, vd: 1000 * x.vd, ..x },
    }
}

/// Rescaling one fraction of a well-formed HSV triple by 1000 does not change
/// the color it converts to.
proof fn lemma_hsv_scale_1000(x: HsvFrac, part: ScaledPart)
    requires
        wf_hsv(x),
    ensures
        hsv_to_rgb(scale_1000(x, part)) == hsv_to_rgb(x),
{
    let td = 60 * x.hd;
    let tn = x.hn % td;
    vstd::arithmetic::div_mod::lemma_mod_bound(x.hn, td);
    match part {
        ScaledPart::Hue => {
            lemma_scale_div_mod(x.hn, td, 1000);
            lemma_channel_scale_h(x.vn, x.vd, x.sn, x.sd, td, td);
            lemma_channel_scale_h(x.vn, x.vd, x.sn, x.sd, td, 0);
            lemma_channel_scale_h(x.vn, x.vd, x.sn, x.sd, td, tn);
            lemma_channel_scale_h(x.vn, x.vd, x.sn, x.sd, td, td - tn);
        },
        ScaledPart::Sat => {
            lemma_channel_scale_s(x.vn, x.vd, x.sn, x.sd, td, td);
            lemma_channel_scale_s(x.vn, x.vd, x.sn, x.sd, td, 0);
            lemma_channel_scale_s(x.vn, x.vd, x.sn, x.sd, td, tn);
            lemma_channel_scale_s(x.vn, x.vd, x.sn, x.sd, td, td - tn);
        },
        ScaledPart::Val => {
            lemma_channel_scale_v(x.vn, x.vd, x.sn, x.sd, td, td);
            lemma_channel_scale_v(x.vn, x.vd, x.sn, x.sd, td, 0);
            lemma_channel_scale_v(x.vn, x.vd, x.sn, x.sd, td, tn);
            lemma_channel_scale_v(x.vn, x.vd, x.sn, x.sd, td, td - tn);
        },
    }
}

/// Converting a color to its exact HSV form and back returns the color
/// unchanged: the conversion pair loses nothing.
pub proof fn lemma_hsv_round_trip(c: Rgb)
    ensures
        hsv_to_rgb(rgb_to_hsv(c)) == c,
{
    let r = c.r as int;
    let g = c.g as int;
    let b = c.b as int;
    let mx = max3(r, g, b);
    let mn = min3(r, g, b);
    let d = mx - mn;
    let x = rgb_to_hsv(c);
    if d == 0 {
        vstd::arithmetic::div_mod::lemma_fundamental_div_mod_converse(0, 60, 0, 0);
        lemma_channel_gray(mx, x.sd, 60);
        lemma_channel_gray(mx, x.sd, 0);
    } else {
        let td = 60 * d;
        if mx == r && g >= b {
            if g - b < d {
                vstd::arithmetic::div_mod::lemma_fundamental_div_mod_converse(
                    x.hn,
                    td,
                    0,
                    60 * (g - b),
                );
                lemma_channel_chromatic(mx, d, d);
                lemma_channel_chromatic(mx, d, g - b);
                lemma_channel_chromatic(mx, d, 0);
            } else {
                vstd::arithmetic::div_mod::lemma_fundamental_div_mod_converse(x.hn, td, 1, 0);
                lemma_channel_chromatic(mx, d, d);
                lemma_channel_chromatic(mx, d, 0);
            }
        } else if mx == r {
            vstd::arithmetic::div_mod::lemma_fundamental_div_mod_converse(
                x.hn,
                td,
                5,
                60 * (d - (b - g)),
            );
            lemma_channel_chromatic(mx, d, d);
            lemma_channel_chromatic(mx, d, b - g);
            lemma_channel_chromatic(mx, d, 0);
        } else if mx == g {
            if b < r {
                vstd::arithmetic::div_mod::lemma_fundamental_div_mod_converse(
                    x.hn,
                    td,
                    1,
                    60 * (d - (r - b)),
                );
                lemma_channel_chromatic(mx, d, d);
                lemma_channel_chromatic(mx, d, r - b);
                lemma_channel_chromatic(mx, d, 0);
            } else if b - r < d {
                vstd::arithmetic::div_mod::lemma_fundamental_div_mod_converse(
                    x.hn,
                    td,
                    2,
                    60 * (b - r),
                );
                lemma_channel_chromatic(mx, d, d);
                lemma_channel_chromatic(mx, d, b - r);
                lemma_channel_chromatic(mx, d, 0);
            } else {
                vstd::arithmetic::div_mod::lemma_fundamental_div_mod_converse(x.hn, td, 3, 0);
                lemma_channel_chromatic(mx, d, d);
                lemma_channel_chromatic(mx, d, 0);
            }
        } else {
            if r < g {
                vstd::arithmetic::div_mod::lemma_fundamental_div_mod_converse(
                    x.hn,
                    td,
                    3,
                    60 * (d - (g - r)),
                );
                lemma_channel_chromatic(mx, d, d);
                lemma_channel_chromatic(mx, d, g - r);
                lemma_channel_chromatic(mx, d, 0);
            } else if r - g < d {
                vstd::arithmetic::div_mod::lemma_fundamental_div_mod_converse(
                    x.hn,
                    td,
                    4,
                    60 * (r - g),
                );
                lemma_channel_chromatic(mx, d, d);
                lemma_channel_chromatic(mx, d, r - g);
                lemma_channel_chromatic(mx, d, 0);
            } else {
                vstd::arithmetic::div_mod::lemma_fundamental_div_mod_converse(x.hn, td, 5, 0);
                lemma_channel_chromatic(mx, d, d);
                lemma_channel_chromatic(mx, d, 0);
            }
        }
    }
}

/// The canonical form of a well-formed color string: every hex digit
/// lowercased, the leading `#` kept.
pub open spec fn canonical_hex(s: Seq<char>) -> Seq<char> {
    Seq::new(
        s.len(),
        |i: int|
            if i == 0 {
                s[0]
            } else {
                hex_char_of(hex_digit_value(s[i]))
            },
    )
}

/// Each hex digit value comes back from its canonical character.
proof fn lemma_hex_digit_char_inverse(v: int)
    requires
        0 <= v < 16,
    ensures
        hex_digit_value(hex_char_of(v)) == v,
{
}

/// Parsing a well-formed color string and formatting the result returns the
/// same string with its digits lowercased: the codec loses nothing.
pub proof fn lemma_hex_round_trip(s: Seq<char>)
    requires
        valid_hex(s),
    ensures
        parse_hex(s) matches Some(c) && hex_of_rgb(c) == canonical_hex(s),
{
    let v1 = hex_digit_value(s[1]);
    let v2 = hex_digit_value(s[2]);
    let v3 = hex_digit_value(s[3]);
    let v4 = hex_digit_value(s[4]);
    let v5 = hex_digit_value(s[5]);
    let v6 = hex_digit_value(s[6]);
    assert(v1 < 16 && v2 < 16 && v3 < 16 && v4 < 16 && v5 < 16 && v6 < 16);
    vstd::arithmetic::div_mod::lemma_fundamental_div_mod_converse(16 * v1 + v2, 16, v1, v2);
    vstd::arithmetic::div_mod::lemma_fundamental_div_mod_converse(16 * v3 + v4, 16, v3, v4);
    vstd::arithmetic::div_mod::lemma_fundamental_div_mod_converse(16 * v5 + v6, 16, v5, v6);
    let c = parse_hex(s)->Some_0;
    assert(hex_of_rgb(c) =~= canonical_hex(s));
}

/// Formatting any color and parsing the result returns the same color: the
/// canonical form is well-formed and denotes the color it was made from.
pub proof fn lemma_hex_parse_format(c: Rgb)
    ensures
        valid_hex(hex_of_rgb(c)),
        parse_hex(hex_of_rgb(c)) == Some(c),
{
    let r = c.r as int;
    let g = c.g as int;
    let b = c.b as int;
    vstd::arithmetic::div_mod::lemma_fundamental_div_mod(r, 16);
    vstd::arithmetic::div_mod::lemma_fundamental_div_mod(g, 16);
    vstd::arithmetic::div_mod::lemma_fundamental_div_mod(b, 16);
    lemma_hex_digit_char_inverse(r / 16);
    lemma_hex_digit_char_inverse(r % 16);
    lemma_hex_digit_char_inverse(g / 16);
    lemma_hex_digit_char_inverse(g % 16);
    lemma_hex_digit_char_inverse(b / 16);
    lemma_hex_digit_char_inverse(b % 16);
    let out = hex_of_rgb(c);
    assert(hex_digit_value(out[1]) >= 0);
    assert(hex_digit_value(out[2]) >= 0);
    assert(hex_digit_value(out[3]) >= 0);
    assert(hex_digit_value(out[4]) >= 0);
    assert(hex_digit_value(out[5]) >= 0);
    assert(hex_digit_value(out[6]) >= 0);
    assert(valid_hex(out));
}

/// Rotating hue by nothing, or by a full turn, leaves a color unchanged.
pub proof fn lemma_hue_shift_identity(c: Rgb)
    ensures
        hue_shift(c, 0) == c,
        hue_shift(c, 360000) == c,
{
    let x = rgb_to_hsv(c);
    lemma_rgb_to_hsv_wf(c);
    vstd::arithmetic::div_mod::lemma_fundamental_div_mod_converse(
        1000 * x.hn + 0 * x.hd,
        360000 * x.hd,
        0,
        1000 * x.hn,
    );
    vstd::arithmetic::div_mod::lemma_fundamental_div_mod_converse(
        1000 * x.hn + 360000 * x.hd,
        360000 * x.hd,
        1,
        1000 * x.hn,
    );
    assert(frac_hue(x, 0) == scale_1000(x, ScaledPart::Hue));
    assert(frac_hue(x, 360000) == scale_1000(x, ScaledPart::Hue));
    lemma_hsv_scale_1000(x, ScaledPart::Hue);
    lemma_hsv_round_trip(c);
}

/// Moving saturation by nothing leaves a color unchanged.
pub proof fn lemma_sat_shift_identity(c: Rgb)
    ensures
        sat_shift(c, 0) == c,
{
    let x = rgb_to_hsv(c);
    lemma_rgb_to_hsv_wf(c);
    assert(frac_saturate(x, 0) == scale_1000(x, ScaledPart::Sat));
    lemma_hsv_scale_1000(x, ScaledPart::Sat);
    lemma_hsv_round_trip(c);
}

/// Moving value by nothing leaves a color unchanged.
pub proof fn lemma_val_shift_identity(c: Rgb)
    ensures
        val_shift(c, 0) == c,
{
    let x = rgb_to_hsv(c);
    lemma_rgb_to_hsv_wf(c);
    assert(frac_value(x, 0) == scale_1000(x, ScaledPart::Val));
    lemma_hsv_scale_1000(x, ScaledPart::Val);
    lemma_hsv_round_trip(c);
}

/// Rotating the hue of a well-formed color string by a full turn, or by
/// nothing, returns the same color in canonical lowercase form: exactly, not
/// merely within a tolerance.
pub proof fn lemma_hue_full_turn(s: Seq<char>)
    requires
        valid_hex(s),
    ensures
        spec_hue(s, 360000) == Some(canonical_hex(s)),
        spec_hue(s, 0) == Some(canonical_hex(s)),
{
    lemma_hex_round_trip(s);
    lemma_hue_shift_identity(parse_hex(s)->Some_0);
}

/// Saturating a well-formed color string by zero returns the same color in
/// canonical lowercase form.
pub proof fn lemma_saturate_zero(s: Seq<char>)
    requires
        valid_hex(s),
    ensures
        spec_saturate(s, 0) == Some(canonical_hex(s)),
{
    lemma_hex_round_trip(s);
    lemma_sat_shift_identity(parse_hex(s)->Some_0);
}

/// Darkening a well-formed color string by zero returns the same color in
/// canonical lowercase form.
pub proof fn lemma_darken_zero(s: Seq<char>)
    requires
        valid_hex(s),
    ensures
        spec_darken(s, 0) == Some(canonical_hex(s)),
{
    lemma_hex_round_trip(s);
    lemma_val_shift_identity(parse_hex(s)->Some_0);
}

/// Lightening by any amount is exactly darkening by its negation, on every
/// string and every amount.
pub proof fn lemma_lighten_darken_mirror(s: Seq<char>, a: int)
    ensures
        spec_lighten(s, a) == spec_darken(s, -a),
{
}

/// Every derivation operator is total on well-formed color strings, and what
/// it returns is itself well-formed: the operators never fail except on a
/// malformed input, and always emit the canonical lowercase form.
pub proof fn lemma_operators_emit_valid_hex(s: Seq<char>, a: int)
    requires
        valid_hex(s),
    ensures
        spec_hue(s, a) matches Some(t) && valid_hex(t),
        spec_saturate(s, a) matches Some(t) && valid_hex(t),
        spec_darken(s, a) matches Some(t) && valid_hex(t),
        spec_lighten(s, a) matches Some(t) && valid_hex(t),
{
    let c = parse_hex(s)->Some_0;
    lemma_hex_parse_format(hue_shift(c, a));
    lemma_hex_parse_format(sat_shift(c, a));
    lemma_hex_parse_format(val_shift(c, -a));
    lemma_hex_parse_format(val_shift(c, a));
}

/// `a` modulo 360000, the Euclidean (always non-negative) remainder.
fn emod360k(a: i64) -> (r: u64)
    ensures
        r as int == (a as int) % 360000,
        r < 360000,
{
    if a >= 0 {
        (a as u64) % 360000
    } else {
        let mag: u64 = (-(a as i128)) as u64;
        let rm: u64 = mag % 360000;
        proof {
            vstd::arithmetic::div_mod::lemma_fundamental_div_mod(mag as int, 360000);
            let k = (mag as int) / 360000;
            if rm == 0 {
                vstd::arithmetic::div_mod::lemma_fundamental_div_mod_converse(
                    a as int,
                    360000,
                    -k,
                    0,
                );
            } else {
                vstd::arithmetic::div_mod::lemma_fundamental_div_mod_converse(
                    a as int,
                    360000,
                    -k - 1,
                    360000 - rm,
                );
            }
        }
        if rm == 0 {
            0
        } else {
            360000 - rm
        }
    }
}

/// A fraction numerator `n/d` moved by `a` thousandths and clamped into
/// `[0, 1]`, over the rescaled denominator `1000 * d`.
fn adjust_frac(n: u64, d: u64, a: i128) -> (r: u64)
    requires
        n <= d,
        0 < d <= 255,
    ensures
        r as int == clamp(1000 * n + a * d, 1000 * d),
        r <= 1000 * d,
{
    let cap: u64 = 1000 * d;
    if a >= 1000 {
        proof {
            assert(1000 * n + a * d >= 1000 * d) by (nonlinear_arith)
                requires
                    a >= 1000,
                    d >= 1,
                    n >= 0,
            ;
        }
        cap
    } else if a <= -1000 {
        proof {
            assert(1000 * n + a * d <= 0) by (nonlinear_arith)
                requires
                    a <= -1000,
                    d >= 1,
                    0 <= n <= d,
            ;
        }
        0
    } else if a >= 0 {
        proof {
            assert((a as int) * (d as int) <= 1000 * 255) by (nonlinear_arith)
                requires
                    0 <= a < 1000,
                    0 < d <= 255,
            ;
        }
        let add: u64 = (a as u64) * d;
        let t: u64 = 1000 * n + add;
        if t > cap {
            cap
        } else {
            t
        }
    } else {
        proof {
            assert((-(a as int)) * (d as int) <= 1000 * 255) by (nonlinear_arith)
                requires
                    -1000 < a < 0,
                    0 < d <= 255,
            ;
            assert((-(a as int)) * (d as int) == -((a as int) * (d as int))) by (nonlinear_arith);
        }
        let mag: u64 = ((-a) as u64) * d;
        let base: u64 = 1000 * n;
        if mag >= base {
            0
        } else {
            base - mag
        }
    }
}

/// The color with hue rotated by `amount` thousandths of a degree.
pub(crate) fn hue_rgb(c: Rgb, amount: i64) -> (o: Rgb)
    ensures
        o == hue_shift(c, amount as int),
{
    let x = to_hsv(c);
    let am: u64 = emod360k(amount);
    let m: u64 = 360000 * x.hd;
    proof {
        assert((am as int) * (x.hd as int) < 360000 * 255) by (nonlinear_arith)
            requires
                am < 360000,
                0 < x.hd <= 255,
        ;
        assert((x.hn as int) < 360 * 255) by (nonlinear_arith)
            requires
                (x.hn as int) < 360 * (x.hd as int),
                0 < x.hd <= 255,
        ;
    }
    let hn2: u64 = (1000 * x.hn + am * x.hd) % m;
    proof {
        let aa = amount as int;
        let hd = x.hd as int;
        let base = 1000 * (x.hn as int);
        let q = aa / 360000;
        let rr = aa % 360000;
        vstd::arithmetic::div_mod::lemma_fundamental_div_mod(aa, 360000);
        assert(aa * hd == (360000 * hd) * q + rr * hd) by (nonlinear_arith)
            requires
                aa == 360000 * q + rr,
        ;
        vstd::arithmetic::div_mod::lemma_mod_multiples_vanish(q, base + rr * hd, 360000 * hd);
        assert((base + aa * hd) % (360000 * hd) == (base + rr * hd) % (360000 * hd));
        vstd::arithmetic::div_mod::lemma_mod_bound(base + rr * hd, 360000 * hd);
    }
    from_hsv(Hsv { hn: hn2, hd: 1000 * x.hd, sn: x.sn, sd: x.sd, vn: x.vn, vd: x.vd })
}

/// The color with saturation moved by `amount` thousandths.
pub(crate) fn saturate_rgb(c: Rgb, amount: i64) -> (o: Rgb)
    ensures
        o == sat_shift(c, amount as int),
{
    let x = to_hsv(c);
    let sn2 = adjust_frac(x.sn, x.sd, amount as i128);
    from_hsv(Hsv { hn: x.hn, hd: x.hd, sn: sn2, sd: 1000 * x.sd, vn: x.vn, vd: x.vd })
}

/// The color with value moved by `amount` thousandths: positive lightens,
/// negative darkens.
pub(crate) fn value_rgb(c: Rgb, amount: i64, flip: bool) -> (o: Rgb)
    ensures
        o == val_shift(c, if flip { -(amount as int) } else { amount as int }),
{
    let x = to_hsv(c);
    let delta: i128 = if flip {
        -(amount as i128)
    } else {
        amount as i128
    };
    let vn2 = adjust_frac(x.vn, x.vd, delta);
    from_hsv(Hsv { hn: x.hn, hd: x.hd, sn: x.sn, sd: x.sd, vn: vn2, vd: 1000 * x.vd })
}

/// Rotates the hue of a `#rrggbb` color by `amount` thousandths of a degree,
/// wrapping modulo 360 degrees. Fails only on a malformed color string.
pub fn hue(hex: &str, amount: i64) -> (res: Result<String, crate::PaletteError>)
    ensures
        match res {
            Ok(out) => spec_hue(hex@, amount as int) == Some(out@),
            Err(e) => spec_hue(hex@, amount as int) is None && (e
                matches crate::PaletteError::InvalidColorFormat(s) && s@ == hex@),
        },
{
    match from_hex(hex) {
        Ok(c) => Ok(to_hex(hue_rgb(c, amount))),
        Err(e) => Err(e),
    }
}

/// Moves the saturation of a `#rrggbb` color by `amount` thousandths, clamped
/// into `[0, 1]`. A negative amount desaturates. Fails only on a malformed
/// color string.
pub fn saturate(hex: &str, amount: i64) -> (res: Result<String, crate::PaletteError>)
    ensures
        match res {
            Ok(out) => spec_saturate(hex@, amount as int) == Some(out@),
            Err(e) => spec_saturate(hex@, amount as int) is None && (e
                matches crate::PaletteError::InvalidColorFormat(s) && s@ == hex@),
        },
{
    match from_hex(hex) {
        Ok(c) => Ok(to_hex(saturate_rgb(c, amount))),
        Err(e) => Err(e),
    }
}

/// Moves the value of a `#rrggbb` color down by `amount` thousandths, clamped
/// into `[0, 1]`. Fails only on a malformed color string.
pub fn darken(hex: &str, amount: i64) -> (res: Result<String, crate::PaletteError>)
    ensures
        match res {
            Ok(out) => spec_darken(hex@, amount as int) == Some(out@),
            Err(e) => spec_darken(hex@, amount as int) is None && (e
                matches crate::PaletteError::InvalidColorFormat(s) && s@ == hex@),
        },
{
    match from_hex(hex) {
        Ok(c) => Ok(to_hex(value_rgb(c, amount, true))),
        Err(e) => Err(e),
    }
}

/// Moves the value of a `#rrggbb` color up by `amount` thousandths, clamped
/// into `[0, 1]`: the exact mirror of `darken`. Fails only on a malformed
/// color string.
pub fn lighten(hex: &str, amount: i64) -> (res: Result<String, crate::PaletteError>)
    ensures
        match res {
            Ok(out) => spec_lighten(hex@, amount as int) == Some(out@),
            Err(e) => spec_lighten(hex@, amount as int) is None && (e
                matches crate::PaletteError::InvalidColorFormat(s) && s@ == hex@),
        },
{
    match from_hex(hex) {
        Ok(c) => Ok(to_hex(value_rgb(c, amount, false))),
        Err(e) => Err(e),
    }
}

/// The index in `[0, 255]` of the terminal palette entry perceptually nearest
/// to the given `#rrggbb` color, under the CIEDE2000 metric, ties broken
/// toward the lowest index. Fails only on a malformed color string.
pub fn to_cterm(hex: &str) -> (res: Result<usize, crate::PaletteError>)
    ensures
        match res {
            Ok(i) => (match parse_hex(hex@) {
                Some(c) => i == crate::cterm::nearest_terminal(c) && i < 256,
                None => false,
            }),
            Err(e) => parse_hex(hex@) is None && (e
                matches crate::PaletteError::InvalidColorFormat(s) && s@ == hex@),
        },
{
    match from_hex(hex) {
        Ok(c) => Ok(crate::cterm::nearest_terminal_index(c)),
        Err(e) => Err(e),
    }
}

/// The CIEDE2000 perceptual difference of two `#rrggbb` colors, as the raw
/// bits of the non-negative `f32` distance: zero exactly for equal colors,
/// and ordered as the distances themselves. Fails only on a malformed color
/// string, naming the first offender.
pub fn distance(a: &str, b: &str) -> (res: Result<u32, crate::PaletteError>)
    ensures
        match res {
            Ok(d) => (match (parse_hex(a@), parse_hex(b@)) {
                (Some(ca), Some(cb)) => d == crate::cterm::de2000_bits(ca, cb) && (ca == cb ==> d
                    == 0),
                _ => false,
            }),
            Err(e) => (parse_hex(a@) is None || parse_hex(b@) is None) && (e
                matches crate::PaletteError::InvalidColorFormat(s) && (if parse_hex(a@) is None {
                s@ == a@
            } else {
                s@ == b@
            })),
        },
{
    match from_hex(a) {
        Ok(ca) => match from_hex(b) {
            Ok(cb) => Ok(crate::cterm::distance_bits(ca, cb)),
            Err(e) => Err(e),
        },
        Err(e) => Err(e),
    }
}

} // verus!
