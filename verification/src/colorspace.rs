//! HSL and HSV to RGB conversion.
//!
//! Hue is given in whole degrees in `0..=360`; saturation, lightness and
//! value are given in thousandths (`0..=1000`). The conversion is the
//! standard chroma/hue-sector computation, carried out in fixed-point
//! integer arithmetic with fractions in millionths, and each channel is
//! rounded to the nearest of `0..=255`. A hue above `360` yields black
//! `(0, 0, 0)`: a defined fallback, not an error.

use vstd::prelude::*;
use vstd::arithmetic::div_mod::lemma_div_is_ordered;
use vstd::math::abs;

verus! {

/// One output channel: the fixed-point fraction `f` shifted by `m` (both in
/// millionths) and rounded to the nearest integer in `0..=255`.
pub open spec fn channel(f: int, m: int) -> int {
    ((f + m) * 255 + 500000) / 1000000
}

/// The triangular hue factor in `0..=60`: how far `h` stands into its hue
/// sector, rising over the first sector of each pair and falling over the
/// second.
pub open spec fn hue_factor(h: int) -> int {
    60 - abs(h % 120 - 60)
}

/// Distributes chroma `c` and its hue-scaled part `x` over the red, green
/// and blue fractions, by the six hue sectors.
pub open spec fn sector_mix(h: int, c: int, x: int) -> (int, int, int) {
    if h < 60 {
        (c, x, 0)
    } else if h < 120 {
        (x, c, 0)
    } else if h < 180 {
        (0, c, x)
    } else if h < 240 {
        (0, x, c)
    } else if h < 300 {
        (x, 0, c)
    } else {
        (c, 0, x)
    }
}

/// The RGB triple for hue `h` (degrees), saturation `s` and lightness `l`
/// (thousandths). A hue outside `0..=360` yields black.
pub open spec fn hsl_rgb(h: int, s: int, l: int) -> (int, int, int) {
    if 0 <= h <= 360 {
        let c = (1000 - abs(2 * l - 1000)) * s;
        let x = c * hue_factor(h) / 60;
        let m = 1000 * l - c / 2;
        let mix = sector_mix(h, c, x);
        (channel(mix.0, m), channel(mix.1, m), channel(mix.2, m))
    } else {
        (0, 0, 0)
    }
}

/// The RGB triple for hue `h` (degrees), saturation `s` and value `v`
/// (thousandths). A hue outside `0..=360` yields black.
pub open spec fn hsv_rgb(h: int, s: int, v: int) -> (int, int, int) {
    if 0 <= h <= 360 {
        let c = s * v;
        let x = c * hue_factor(h) / 60;
        let m = 1000 * v - c;
        let mix = sector_mix(h, c, x);
        (channel(mix.0, m), channel(mix.1, m), channel(mix.2, m))
    } else {
        (0, 0, 0)
    }
}

fn hue_factor_value(h: u32) -> (hf: u32)
    requires
        h <= 360,
    ensures
        hf as int == hue_factor(h as int),
        hf <= 60,
{
    let hm: u32 = h % 120;
    if hm < 60 {
        hm
    } else {
        120 - hm
    }
}

fn channel_value(f: u32, m: u32) -> (ch: u8)
    requires
        f + m <= 1000000,
    ensures
        ch as int == channel(f as int, m as int),
{
    let t: u32 = (f + m) * 255 + 500000;
    let d: u32 = t / 1000000;
    proof {
        lemma_div_is_ordered(t as int, 255500000, 1000000);
    }
    d as u8
}

/// Converts HSL to RGB: hue in degrees, saturation and lightness in
/// thousandths. Any hue above `360` gives black `(0, 0, 0)`.
pub fn hsl_to_rgb(h: u32, s: u32, l: u32) -> (rgb: (u8, u8, u8))
    requires
        s <= 1000,
        l <= 1000,
    ensures
        (rgb.0 as int, rgb.1 as int, rgb.2 as int) == hsl_rgb(h as int, s as int, l as int),
        h > 360 ==> rgb == (0u8, 0u8, 0u8),
{
    if h > 360 {
        return (0, 0, 0);
    }
    let spread: u32 = if l >= 500 {
        2 * l - 1000
    } else {
        1000 - 2 * l
    };
    proof {
        assert(spread as int == abs(2 * (l as int) - 1000));
        assert((1000 - spread as int) * (s as int) <= 1000000) by (nonlinear_arith)
            requires
                spread <= 1000,
                s <= 1000,
        ;
    }
    let c: u32 = (1000 - spread) * s;
    let hf: u32 = hue_factor_value(h);
    proof {
        assert((c as int) * (hf as int) <= 60000000) by (nonlinear_arith)
            requires
                c <= 1000000,
                hf <= 60,
        ;
        assert((c as int) * (hf as int) / 60 <= (c as int)) by (nonlinear_arith)
            requires
                c >= 0,
                hf <= 60,
        ;
    }
    let x: u32 = c * hf / 60;
    proof {
        if l < 500 {
            assert(c as int == 2 * ((l as int) * (s as int))) by (nonlinear_arith)
                requires
                    l < 500,
                    spread as int == 1000 - 2 * (l as int),
                    c as int == (1000 - spread as int) * (s as int),
            ;
            assert((l as int) * (s as int) <= 1000 * (l as int)) by (nonlinear_arith)
                requires
                    s <= 1000,
                    l >= 0,
            ;
            assert(c / 2 == (l as int) * (s as int));
        } else {
            assert(c as int == 2 * ((1000 - l as int) * (s as int))) by (nonlinear_arith)
                requires
                    l >= 500,
                    l <= 1000,
                    spread as int == 2 * (l as int) - 1000,
                    c as int == (1000 - spread as int) * (s as int),
            ;
            assert((1000 - l as int) * (s as int) <= 1000 * (1000 - l as int)) by (nonlinear_arith)
                requires
                    s <= 1000,
                    l <= 1000,
            ;
            assert(c / 2 == (1000 - l as int) * (s as int));
        }
        assert(c / 2 <= 1000 * (l as int));
        assert(c as int + (1000 * (l as int) - c / 2) <= 1000000);
    }
    let m: u32 = 1000 * l - c / 2;
    let (fr, fg, fb): (u32, u32, u32) = if h < 60 {
        (c, x, 0)
    } else if h < 120 {
        (x, c, 0)
    } else if h < 180 {
        (0, c, x)
    } else if h < 240 {
        (0, x, c)
    } else if h < 300 {
        (x, 0, c)
    } else {
        (c, 0, x)
    };
    (channel_value(fr, m), channel_value(fg, m), channel_value(fb, m))
}

/// Converts HSV to RGB: hue in degrees, saturation and value in
/// thousandths. Any hue above `360` gives black `(0, 0, 0)`.
pub fn hsv_to_rgb(h: u32, s: u32, v: u32) -> (rgb: (u8, u8, u8))
    requires
        s <= 1000,
        v <= 1000,
    ensures
        (rgb.0 as int, rgb.1 as int, rgb.2 as int) == hsv_rgb(h as int, s as int, v as int),
        h > 360 ==> rgb == (0u8, 0u8, 0u8),
{
    if h > 360 {
        return (0, 0, 0);
    }
    proof {
        assert((s as int) * (v as int) <= 1000 * (v as int)) by (nonlinear_arith)
            requires
                s <= 1000,
                v >= 0,
        ;
        assert(1000 * (v as int) <= 1000000);
    }
    let c: u32 = s * v;
    let hf: u32 = hue_factor_value(h);
    proof {
        assert((c as int) * (hf as int) <= 60000000) by (nonlinear_arith)
            requires
                c <= 1000000,
                hf <= 60,
        ;
        assert((c as int) * (hf as int) / 60 <= (c as int)) by (nonlinear_arith)
            requires
                c >= 0,
                hf <= 60,
        ;
    }
    let x: u32 = c * hf / 60;
    let m: u32 = 1000 * v - c;
    let (fr, fg, fb): (u32, u32, u32) = if h < 60 {
        (c, x, 0)
    } else if h < 120 {
        (x, c, 0)
    } else if h < 180 {
        (0, c, x)
    } else if h < 240 {
        (0, x, c)
    } else if h < 300 {
        (x, 0, c)
    } else {
        (c, 0, x)
    };
    (channel_value(fr, m), channel_value(fg, m), channel_value(fb, m))
}

} // verus!
