//! Colours as 32-bit words, alpha in the top byte, then red, green and
//! blue.

use vstd::prelude::*;

pub mod dark_theme;
pub mod light_theme;
pub mod retro_theme;
pub mod ui;

verus! {

pub const BLACK: u32 = 0xFF00_0000;

pub const WHITE: u32 = 0xFFFF_FFFF;

pub const RED: u32 = 0xFFFF_0000;

pub const GREEN: u32 = 0xFF00_FF00;

pub const BLUE: u32 = 0xFF00_00FF;

pub const YELLOW: u32 = 0xFFFF_FF00;

pub const CYAN: u32 = 0xFF00_FFFF;

pub const MAGENTA: u32 = 0xFFFF_00FF;

pub const GRAY: u32 = 0xFF80_8080;

pub const DARK_GRAY: u32 = 0xFF40_4040;

pub const LIGHT_GRAY: u32 = 0xFFC0_C0C0;

pub const VERY_DARK_GRAY: u32 = 0xFF20_2020;

pub const VERY_LIGHT_GRAY: u32 = 0xFFE0_E0E0;

pub const SILVER: u32 = 0xFFC4_C4C4;

pub const CHARCOAL: u32 = 0xFF36_454F;

pub const ORANGE: u32 = 0xFFFF_A500;

pub const PURPLE: u32 = 0xFF80_0080;

pub const BROWN: u32 = 0xFFA5_2A2A;

pub const PINK: u32 = 0xFFFF_C0CB;

pub const LIME: u32 = 0xFF32_CD32;

pub const MAROON: u32 = 0xFF80_0000;

pub const NAVY: u32 = 0xFF00_0080;

pub const OLIVE: u32 = 0xFF80_8000;

pub const TEAL: u32 = 0xFF00_8080;

pub const AQUA: u32 = 0xFF00_FFFF;

pub const FUCHSIA: u32 = 0xFFFF_00FF;

pub const INDIGO: u32 = 0xFF4B_0082;

pub const VIOLET: u32 = 0xFFEE_82EE;

pub const GOLD: u32 = 0xFFFF_D700;

pub const CORAL: u32 = 0xFFFF_7F50;

pub const SALMON: u32 = 0xFFFA_8072;

pub const KHAKI: u32 = 0xFFF0_E68C;

pub const TURQUOISE: u32 = 0xFF40_E0D0;

/// The colour word with the four channels given.
pub open spec fn packed(r: u8, g: u8, b: u8, a: u8) -> u32 {
    (a * 0x100_0000 + r * 0x1_0000 + g * 0x100 + b) as u32
}

/// The red channel of `color`.
pub open spec fn red_of(color: u32) -> u8 {
    ((color / 0x1_0000) % 0x100) as u8
}

/// The green channel of `color`.
pub open spec fn green_of(color: u32) -> u8 {
    ((color / 0x100) % 0x100) as u8
}

/// The blue channel of `color`.
pub open spec fn blue_of(color: u32) -> u8 {
    (color % 0x100) as u8
}

/// The alpha channel of `color`.
pub open spec fn alpha_of(color: u32) -> u8 {
    (color / 0x100_0000) as u8
}

/// Shifts and masks on a colour word are the arithmetic above.
pub proof fn lemma_channels(color: u32)
    by (bit_vector)
    ensures
        (color >> 16u32) & 0xFFu32 == (color / 0x1_0000u32) % 0x100u32,
        (color >> 8u32) & 0xFFu32 == (color / 0x100u32) % 0x100u32,
        color & 0xFFu32 == color % 0x100u32,
        (color >> 24u32) & 0xFFu32 == color / 0x100_0000u32,
        color / 0x100_0000u32 < 0x100u32,
{
}

pub proof fn lemma_packed(r: u8, g: u8, b: u8, a: u8)
    by (bit_vector)
    ensures
        ((a as u32) << 24u32) | ((r as u32) << 16u32) | ((g as u32) << 8u32) | (b as u32) == (a as u32)
            * 0x100_0000u32 + (r as u32) * 0x1_0000u32 + (g as u32) * 0x100u32 + (b as u32),
{
}

pub proof fn lemma_packed_bits(r: u8, g: u8, b: u8, a: u8)
    by (bit_vector)
    ensures
        ((((a as u32) << 24u32) | ((r as u32) << 16u32) | ((g as u32) << 8u32) | (b as u32)) >> 16u32)
            & 0xFFu32 == r as u32,
        ((((a as u32) << 24u32) | ((r as u32) << 16u32) | ((g as u32) << 8u32) | (b as u32)) >> 8u32)
            & 0xFFu32 == g as u32,
        (((a as u32) << 24u32) | ((r as u32) << 16u32) | ((g as u32) << 8u32) | (b as u32)) & 0xFFu32
            == b as u32,
        ((((a as u32) << 24u32) | ((r as u32) << 16u32) | ((g as u32) << 8u32) | (b as u32)) >> 24u32)
            & 0xFFu32 == a as u32,
{
}

/// Every channel of a packed colour is the channel that went in.
pub proof fn lemma_packed_channels(r: u8, g: u8, b: u8, a: u8)
    ensures
        red_of(packed(r, g, b, a)) == r,
        green_of(packed(r, g, b, a)) == g,
        blue_of(packed(r, g, b, a)) == b,
        alpha_of(packed(r, g, b, a)) == a,
{
    let c = ((a as u32) << 24u32) | ((r as u32) << 16u32) | ((g as u32) << 8u32) | (b as u32);
    lemma_packed(r, g, b, a);
    lemma_packed_bits(r, g, b, a);
    lemma_channels(c);
    assert(c == packed(r, g, b, a));
}

/// A colour with the given transparency.
pub fn rgba(r: u8, g: u8, b: u8, a: u8) -> (c: u32)
    ensures
        c == packed(r, g, b, a),
{
    proof {
        lemma_packed(r, g, b, a);
    }
    ((a as u32) << 24) | ((r as u32) << 16) | ((g as u32) << 8) | (b as u32)
}

/// An opaque colour.
pub fn rgb(r: u8, g: u8, b: u8) -> (c: u32)
    ensures
        c == packed(r, g, b, 255),
{
    rgba(r, g, b, 255)
}

pub fn get_red(color: u32) -> (r: u8)
    ensures
        r == red_of(color),
{
    proof {
        lemma_channels(color);
    }
    ((color >> 16) & 0xFF) as u8
}

pub fn get_green(color: u32) -> (r: u8)
    ensures
        r == green_of(color),
{
    proof {
        lemma_channels(color);
    }
    ((color >> 8) & 0xFF) as u8
}

pub fn get_blue(color: u32) -> (r: u8)
    ensures
        r == blue_of(color),
{
    proof {
        lemma_channels(color);
    }
    (color & 0xFF) as u8
}

pub fn get_alpha(color: u32) -> (r: u8)
    ensures
        r == alpha_of(color),
{
    proof {
        lemma_channels(color);
    }
    ((color >> 24) & 0xFF) as u8
}

/// One channel of a blend: `alpha` parts of 255 of the foreground, the
/// rest of the background.
pub open spec fn blended(fg: u8, bg: u8, alpha: u8) -> u8 {
    ((fg * alpha + bg * (255 - alpha)) / 255) as u8
}

/// A blend of two channel values is a channel value.
pub proof fn lemma_blended(fg: u8, bg: u8, alpha: u8)
    ensures
        (fg * alpha + bg * (255 - alpha)) / 255 <= 255,
        fg * alpha + bg * (255 - alpha) <= 255 * 255,
        fg * alpha >= 0,
        bg * (255 - alpha) >= 0,
{
    assert(fg * alpha <= 255 * alpha) by (nonlinear_arith)
        requires
            fg <= 255,
            alpha >= 0,
    ;
    assert(bg * (255 - alpha) <= 255 * (255 - alpha)) by (nonlinear_arith)
        requires
            bg <= 255,
            255 - alpha >= 0,
    ;
    assert(fg * alpha >= 0 && bg * (255 - alpha) >= 0) by (nonlinear_arith)
        requires
            fg >= 0,
            bg >= 0,
            alpha >= 0,
            255 - alpha >= 0,
    ;
}

/// Lays `foreground` over `background` by the foreground's alpha. The
/// result is opaque.
pub fn blend_colors(foreground: u32, background: u32) -> (c: u32)
    ensures
        c == packed(
            blended(red_of(foreground), red_of(background), alpha_of(foreground)),
            blended(green_of(foreground), green_of(background), alpha_of(foreground)),
            blended(blue_of(foreground), blue_of(background), alpha_of(foreground)),
            255,
        ),
{
    let fg_alpha: u32 = get_alpha(foreground) as u32;
    let bg_alpha: u32 = 255 - fg_alpha;
    proof {
        lemma_blended(red_of(foreground), red_of(background), alpha_of(foreground));
        lemma_blended(green_of(foreground), green_of(background), alpha_of(foreground));
        lemma_blended(blue_of(foreground), blue_of(background), alpha_of(foreground));
    }
    let r: u32 = (get_red(foreground) as u32 * fg_alpha + get_red(background) as u32 * bg_alpha)
        / 255;
    let g: u32 = (get_green(foreground) as u32 * fg_alpha + get_green(background) as u32
        * bg_alpha) / 255;
    let b: u32 = (get_blue(foreground) as u32 * fg_alpha + get_blue(background) as u32 * bg_alpha)
        / 255;
    rgb(r as u8, g as u8, b as u8)
}

/// The percentage that is applied: at most 100.
pub open spec fn capped(percent: u8) -> int {
    if percent > 100 {
        100
    } else {
        percent as int
    }
}

/// A channel darkened by `percent`.
pub open spec fn darkened(channel: u8, percent: u8) -> u8 {
    (channel * (100 - capped(percent)) / 100) as u8
}

/// A channel lightened by `percent`.
pub open spec fn lightened(channel: u8, percent: u8) -> u8 {
    (channel + (255 - channel) * capped(percent) / 100) as u8
}

/// A part of a hundred of a channel value is no more than the value.
pub proof fn lemma_percentage(x: int, factor: int)
    requires
        0 <= x <= 255,
        0 <= factor <= 100,
    ensures
        0 <= x * factor <= 25500,
        0 <= x * factor / 100 <= x,
{
    assert(0 <= x * factor <= x * 100) by (nonlinear_arith)
        requires
            0 <= x,
            0 <= factor <= 100,
    ;
}

/// Darkens the three colour channels by `percent`, at most 100; alpha
/// stays.
pub fn darken(color: u32, percent: u8) -> (c: u32)
    ensures
        c == packed(
            darkened(red_of(color), percent),
            darkened(green_of(color), percent),
            darkened(blue_of(color), percent),
            alpha_of(color),
        ),
{
    let capped_percent: u8 = if percent > 100 {
        100
    } else {
        percent
    };
    let factor: u32 = (100 - capped_percent) as u32;
    proof {
        lemma_percentage(red_of(color) as int, factor as int);
        lemma_percentage(green_of(color) as int, factor as int);
        lemma_percentage(blue_of(color) as int, factor as int);
    }
    let r: u8 = (get_red(color) as u32 * factor / 100) as u8;
    let g: u8 = (get_green(color) as u32 * factor / 100) as u8;
    let b: u8 = (get_blue(color) as u32 * factor / 100) as u8;
    rgba(r, g, b, get_alpha(color))
}

/// Moves the three colour channels toward white by `percent`, at most
/// 100; alpha stays.
pub fn lighten(color: u32, percent: u8) -> (c: u32)
    ensures
        c == packed(
            lightened(red_of(color), percent),
            lightened(green_of(color), percent),
            lightened(blue_of(color), percent),
            alpha_of(color),
        ),
{
    let factor: u32 = if percent > 100 {
        100
    } else {
        percent as u32
    };
    proof {
        lemma_percentage(255 - red_of(color), factor as int);
        lemma_percentage(255 - green_of(color), factor as int);
        lemma_percentage(255 - blue_of(color), factor as int);
    }
    let r: u8 = (get_red(color) as u32 + (255 - get_red(color) as u32) * factor / 100) as u8;
    let g: u8 = (get_green(color) as u32 + (255 - get_green(color) as u32) * factor / 100) as u8;
    let b: u8 = (get_blue(color) as u32 + (255 - get_blue(color) as u32) * factor / 100) as u8;
    rgba(r, g, b, get_alpha(color))
}

} // verus!
