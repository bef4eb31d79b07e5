//! Nearest terminal-color matching: the fixed 256-entry terminal palette and
//! a brute-force minimum-distance search under the CIEDE2000 metric.

use vstd::prelude::*;

use crate::conv::Rgb;

verus! {

/// What `delta_e::DE2000::from_rgb` returns for two colors: the CIEDE2000
/// perceptual difference, a fixed formula of the six channel bytes alone,
/// carried as the raw bits of the returned `f32`. The formula's result is
/// non-negative, and the bit patterns of non-negative floats are ordered
/// exactly as their values, so comparing these words compares distances.
pub uninterp spec fn de2000_bits(a: Rgb, b: Rgb) -> u32;

/// Relies on `delta_e::DE2000::from_rgb`: the CIEDE2000 difference of two RGB
/// colors. Every term of the formula vanishes when the two colors are equal,
/// so equal inputs return exactly zero.
#[verifier::external_body]
fn de2000(a: Rgb, b: Rgb) -> (r: u32)
    ensures
        r == de2000_bits(a, b),
        a == b ==> r == 0,
{
    delta_e::DE2000::from_rgb(&[a.r, a.g, a.b], &[b.r, b.g, b.b]).to_bits()
}

/// The CIEDE2000 difference of two colors, as the bits of the non-negative
/// `f32` distance; zero exactly for equal colors.
pub(crate) fn distance_bits(a: Rgb, b: Rgb) -> (r: u32)
    ensures
        r == de2000_bits(a, b),
        a == b ==> r == 0,
{
    de2000(a, b)
}

/// One level of the 6x6x6 color cube: 0, 95, 135, 175, 215, 255.
pub open spec fn cube_level(l: int) -> int {
    if l == 0 {
        0
    } else {
        55 + 40 * l
    }
}

/// Entry `i` of the standard 256-color terminal palette: the 16 ANSI colors,
/// the 216-entry color cube, and the 24-step grayscale ramp.
pub open spec fn terminal_rgb(i: int) -> Rgb {
    if i < 16 {
        if i == 0 { Rgb { r: 0x00, g: 0x00, b: 0x00 } }
        else if i == 1 { Rgb { r: 0x80, g: 0x00, b: 0x00 } }
        else if i == 2 { Rgb { r: 0x00, g: 0x80, b: 0x00 } }
        else if i == 3 { Rgb { r: 0x80, g: 0x80, b: 0x00 } }
        else if i == 4 { Rgb { r: 0x00, g: 0x00, b: 0x80 } }
        else if i == 5 { Rgb { r: 0x80, g: 0x00, b: 0x80 } }
        else if i == 6 { Rgb { r: 0x00, g: 0x80, b: 0x80 } }
        else if i == 7 { Rgb { r: 0xc0, g: 0xc0, b: 0xc0 } }
        else if i == 8 { Rgb { r: 0x80, g: 0x80, b: 0x80 } }
        else if i == 9 { Rgb { r: 0xff, g: 0x00, b: 0x00 } }
        else if i == 10 { Rgb { r: 0x00, g: 0xff, b: 0x00 } }
        else if i == 11 { Rgb { r: 0xff, g: 0xff, b: 0x00 } }
        else if i == 12 { Rgb { r: 0x00, g: 0x00, b: 0xff } }
        else if i == 13 { Rgb { r: 0xff, g: 0x00, b: 0xff } }
        else if i == 14 { Rgb { r: 0x00, g: 0xff, b: 0xff } }
        else { Rgb { r: 0xff, g: 0xff, b: 0xff } }
    } else if i < 232 {
        Rgb {
            r: cube_level((i - 16) / 36) as u8,
            g: cube_level(((i - 16) / 6) % 6) as u8,
            b: cube_level((i - 16) % 6) as u8,
        }
    } else {
        Rgb { r: (8 + 10 * (i - 232)) as u8, g: (8 + 10 * (i - 232)) as u8, b: (8 + 10 * (i
            - 232)) as u8 }
    }
}

/// Builds the fixed terminal palette.
fn terminal_colors() -> (t: Vec<Rgb>)
    ensures
        t@.len() == 256,
        forall|i: int| 0 <= i < 256 ==> t@[i] == terminal_rgb(i),
{
    let mut t: Vec<Rgb> = Vec::new();
    t.push(Rgb { r: 0x00, g: 0x00, b: 0x00 });
    t.push(Rgb { r: 0x80, g: 0x00, b: 0x00 });
    t.push(Rgb { r: 0x00, g: 0x80, b: 0x00 });
    t.push(Rgb { r: 0x80, g: 0x80, b: 0x00 });
    t.push(Rgb { r: 0x00, g: 0x00, b: 0x80 });
    t.push(Rgb { r: 0x80, g: 0x00, b: 0x80 });
    t.push(Rgb { r: 0x00, g: 0x80, b: 0x80 });
    t.push(Rgb { r: 0xc0, g: 0xc0, b: 0xc0 });
    t.push(Rgb { r: 0x80, g: 0x80, b: 0x80 });
    t.push(Rgb { r: 0xff, g: 0x00, b: 0x00 });
    t.push(Rgb { r: 0x00, g: 0xff, b: 0x00 });
    t.push(Rgb { r: 0xff, g: 0xff, b: 0x00 });
    t.push(Rgb { r: 0x00, g: 0x00, b: 0xff });
    t.push(Rgb { r: 0xff, g: 0x00, b: 0xff });
    t.push(Rgb { r: 0x00, g: 0xff, b: 0xff });
    t.push(Rgb { r: 0xff, g: 0xff, b: 0xff });
    let mut i: usize = 16;
    while i < 232
        invariant
            16 <= i <= 232,
            t@.len() == i,
            forall|k: int| 0 <= k < i ==> t@[k] == terminal_rgb(k),
        decreases 232 - i,
    {
        let j = (i - 16) as u8;
        let rl = j / 36;
        let gl = (j / 6) % 6;
        let bl = j % 6;
        let r: u8 = if rl == 0 { 0 } else { 55 + 40 * rl };
        let g: u8 = if gl == 0 { 0 } else { 55 + 40 * gl };
        let b: u8 = if bl == 0 { 0 } else { 55 + 40 * bl };
        t.push(Rgb { r, g, b });
        i = i + 1;
    }
    let mut k: usize = 232;
    while k < 256
        invariant
            232 <= k <= 256,
            t@.len() == k,
            forall|m: int| 0 <= m < k ==> t@[m] == terminal_rgb(m),
        decreases 256 - k,
    {
        let v: u8 = 8 + 10 * ((k - 232) as u8);
        t.push(Rgb { r: v, g: v, b: v });
        k = k + 1;
    }
    t
}

/// The index of the entry nearest to `c` among the first `n` table entries,
/// lowest index winning ties.
pub open spec fn best_upto(c: Rgb, n: int) -> int
    decreases n,
{
    if n <= 1 {
        0
    } else {
        let prev = best_upto(c, n - 1);
        if de2000_bits(c, terminal_rgb(n - 1)) < de2000_bits(c, terminal_rgb(prev)) {
            n - 1
        } else {
            prev
        }
    }
}

/// The index of the terminal palette entry nearest to `c`.
pub open spec fn nearest_terminal(c: Rgb) -> int {
    best_upto(c, 256)
}

proof fn lemma_best_upto_bounds(c: Rgb, n: int)
    requires
        n >= 1,
    ensures
        0 <= best_upto(c, n) < n,
    decreases n,
{
    if n > 1 {
        lemma_best_upto_bounds(c, n - 1);
    }
}

/// The nearest index has minimal distance among all 256 entries, and every
/// entry before it is strictly farther: ties are broken toward the lowest
/// index.
pub proof fn lemma_nearest_is_minimal(c: Rgb)
    ensures
        0 <= nearest_terminal(c) < 256,
        forall|j: int|
            0 <= j < 256 ==> de2000_bits(c, terminal_rgb(nearest_terminal(c))) <= de2000_bits(
                c,
                #[trigger] terminal_rgb(j),
            ),
        forall|j: int|
            0 <= j < nearest_terminal(c) ==> de2000_bits(c, terminal_rgb(nearest_terminal(c)))
                < de2000_bits(c, #[trigger] terminal_rgb(j)),
{
    lemma_best_upto_minimal(c, 256);
}

proof fn lemma_best_upto_minimal(c: Rgb, n: int)
    requires
        n >= 1,
    ensures
        0 <= best_upto(c, n) < n,
        forall|j: int|
            0 <= j < n ==> de2000_bits(c, terminal_rgb(best_upto(c, n))) <= de2000_bits(
                c,
                #[trigger] terminal_rgb(j),
            ),
        forall|j: int|
            0 <= j < best_upto(c, n) ==> de2000_bits(c, terminal_rgb(best_upto(c, n))) < de2000_bits(
                c,
                #[trigger] terminal_rgb(j),
            ),
    decreases n,
{
    if n > 1 {
        lemma_best_upto_minimal(c, n - 1);
    }
}

/// Scans the whole terminal palette and returns the index whose entry has the
/// least CIEDE2000 distance to `c`, the lowest such index on a tie.
pub fn nearest_terminal_index(c: Rgb) -> (res: usize)
    ensures
        res == nearest_terminal(c),
        res < 256,
{
    let table = terminal_colors();
    let mut best_i: usize = 0;
    let mut best_d: u32 = de2000(c, table[0]);
    let mut i: usize = 1;
    while i < 256
        invariant
            1 <= i <= 256,
            table@.len() == 256,
            forall|k: int| 0 <= k < 256 ==> table@[k] == terminal_rgb(k),
            best_i == best_upto(c, i as int),
            0 <= best_i < i,
            best_d == de2000_bits(c, terminal_rgb(best_i as int)),
        decreases 256 - i,
    {
        let d = de2000(c, table[i]);
        if d < best_d {
            best_i = i;
            best_d = d;
        }
        i = i + 1;
    }
    proof {
        lemma_best_upto_bounds(c, 256);
    }
    best_i
}

} // verus!
