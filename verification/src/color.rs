//! Tile colours.
//!
//! A tile's number picks a hue on the colour wheel; saturation and brightness
//! are the same for every tile, so all tiles read as soft fills under dark
//! text. The hue advances by a fixed step per unit of the number, which gives
//! distinct colours for any magnitude without a lookup table.
//!
//! Hue is measured in whole degrees, saturation and brightness in per cent.
//! The conversion to red, green and blue is carried out in exact integer
//! arithmetic: every intermediate quantity is a whole number of the units
//! named beside it, and the only rounding is the final one to a byte.

use vstd::prelude::*;

verus! {

/// Degrees the hue advances per unit of a tile's number.
pub const HUE_STEP: u32 = 65;

/// Saturation of every tile colour, in per cent.
pub const TILE_SATURATION: u8 = 30;

/// Brightness of every tile colour, in per cent.
pub const TILE_BRIGHTNESS: u8 = 80;

/// An opaque colour with one byte per channel.
#[derive(Clone, Copy, Debug, PartialEq, Eq, Structural)]
pub struct Color {
    pub r: u8,
    pub g: u8,
    pub b: u8,
}

/// A colour given by hue, saturation and brightness.
///
/// `hue` is an angle in degrees and may be any number: it is taken modulo
/// 360. `saturation` and `brightness` are in per cent; values above 100 lie
/// outside the colour solid and give channels that are clamped to a byte.
#[derive(Clone, Copy, Debug, PartialEq, Eq, Structural)]
pub struct Hsv {
    pub hue: u32,
    pub saturation: u8,
    pub brightness: u8,
}

/// The sixth of the colour wheel that `hue` falls in, from 0 to 5.
#[verifier::inline]
pub open spec fn sector(hue: int) -> int {
    (hue % 360) / 60
}

/// Share of the chroma that the second-strongest channel receives, in
/// sixtieths: it rises from 0 to 60 over each even sector and falls back to
/// 0 over each odd one. With `h = (hue mod 360) / 60` this is
/// `60 * (1 - |h mod 2 - 1|)`.
#[verifier::inline]
pub open spec fn ramp(hue: int) -> int {
    let position = (hue % 360) % 120;
    if position <= 60 {
        position
    } else {
        120 - position
    }
}

/// Shares of the chroma that red, green and blue receive at `hue`, in
/// sixtieths. In each sector one channel takes the whole chroma, one takes
/// the [`ramp`] and one takes nothing; any sector beyond the fifth counts as
/// the fifth.
#[verifier::inline]
pub open spec fn chroma_shares(hue: int) -> (int, int, int) {
    let s = sector(hue);
    let x = ramp(hue);
    if s == 0 {
        (60, x, 0)
    } else if s == 1 {
        (x, 60, 0)
    } else if s == 2 {
        (0, 60, x)
    } else if s == 3 {
        (0, x, 60)
    } else if s == 4 {
        (x, 0, 60)
    } else {
        (60, 0, x)
    }
}

/// Chroma, `brightness * saturation`, in units of 1/10 000.
#[verifier::inline]
pub open spec fn chroma(hsv: Hsv) -> int {
    hsv.brightness * hsv.saturation
}

/// What every channel receives regardless of hue, `brightness - chroma`, in
/// units of 1/10 000.
#[verifier::inline]
pub open spec fn base_level(hsv: Hsv) -> int {
    100 * hsv.brightness - chroma(hsv)
}

/// Exact intensity of a channel that receives `share` sixtieths of the
/// chroma, in units of 1/600 000 of full scale.
#[verifier::inline]
pub open spec fn intensity(hsv: Hsv, share: int) -> int {
    chroma(hsv) * share + 60 * base_level(hsv)
}

/// The integer nearest to `n / d` for positive `d`; a fraction of exactly one
/// half rounds up.
#[verifier::inline]
pub open spec fn round_ratio(n: int, d: int) -> int
    recommends
        d > 0,
{
    (2 * n + d) / (2 * d)
}

/// `x` limited to the range of a byte.
pub open spec fn clamp_to_byte(x: int) -> int {
    if x < 0 {
        0
    } else if x > 255 {
        255
    } else {
        x
    }
}

/// Byte value of a channel that receives `share` sixtieths of the chroma:
/// its intensity scaled to 255, rounded to the nearest integer and clamped.
pub open spec fn channel(hsv: Hsv, share: int) -> int {
    clamp_to_byte(round_ratio(255 * intensity(hsv, share), 600_000))
}

/// The red, green and blue bytes of `hsv`.
pub open spec fn rgb(hsv: Hsv) -> Color {
    let shares = chroma_shares(hsv.hue as int);
    Color {
        r: channel(hsv, shares.0) as u8,
        g: channel(hsv, shares.1) as u8,
        b: channel(hsv, shares.2) as u8,
    }
}

/// Hue of the tile that shows `value`, in degrees below 360.
#[verifier::inline]
pub open spec fn tile_hue(value: nat) -> nat {
    (value * 65) % 360
}

/// Hue, saturation and brightness of the tile that shows `value`.
#[verifier::inline]
pub open spec fn tile_hsv(value: nat) -> Hsv {
    Hsv { hue: tile_hue(value) as u32, saturation: 30, brightness: 80 }
}

/// Colour of the tile that shows `value`.
#[verifier::inline]
pub open spec fn tile_color(value: nat) -> Color {
    rgb(tile_hsv(value))
}

/// Every channel is a byte, whatever the colour and the share.
pub proof fn lemma_channel_is_byte(hsv: Hsv, share: int)
    ensures
        0 <= channel(hsv, share) <= 255,
{
}

/// For a colour inside the colour solid (saturation and brightness at most
/// 100 per cent) the rounded channel is a byte already: clamping changes
/// nothing.
pub proof fn lemma_in_gamut_unclamped(hsv: Hsv, share: int)
    requires
        hsv.saturation <= 100,
        hsv.brightness <= 100,
        0 <= share <= 60,
    ensures
        0 <= intensity(hsv, share) <= 600_000,
        channel(hsv, share) == round_ratio(255 * intensity(hsv, share), 600_000),
{
    let c = chroma(hsv);
    let v = hsv.brightness as int;
    let s = hsv.saturation as int;
    assert(0 <= c <= 100 * v) by (nonlinear_arith)
        requires
            c == v * s,
            0 <= v,
            0 <= s <= 100,
    ;
    assert(0 <= c * share <= 60 * c) by (nonlinear_arith)
        requires
            0 <= c,
            0 <= share <= 60,
    ;
}

/// The shares of the chroma lie between nothing and all of it.
pub proof fn lemma_shares_in_range(hue: int)
    ensures
        0 <= chroma_shares(hue).0 <= 60,
        0 <= chroma_shares(hue).1 <= 60,
        0 <= chroma_shares(hue).2 <= 60,
{
}

/// Every channel of a tile colour lies between 143 and 204: tile colours
/// are soft, never dark and never glaring.
pub proof fn lemma_tile_color_is_soft(value: nat)
    ensures
        143 <= tile_color(value).r <= 204,
        143 <= tile_color(value).g <= 204,
        143 <= tile_color(value).b <= 204,
{
    let hsv = tile_hsv(value);
    let shares = chroma_shares(hsv.hue as int);
    lemma_shares_in_range(hsv.hue as int);
    lemma_tile_channel(value, shares.0);
    lemma_tile_channel(value, shares.1);
    lemma_tile_channel(value, shares.2);
}

/// The channel of a tile colour as a linear function of its share.
proof fn lemma_tile_channel(value: nat, share: int)
    requires
        0 <= share <= 60,
    ensures
        channel(tile_hsv(value), share) == (102 * share + 14_330) / 100,
        143 <= channel(tile_hsv(value), share) <= 204,
{
    let hsv = tile_hsv(value);
    assert(chroma(hsv) == 2400);
    assert(base_level(hsv) == 5600);
    assert(intensity(hsv, share) == 2400 * share + 336_000);
}

/// Two numbers whose hues differ by whole turns of the colour wheel give the
/// same tile colour: if `k * 65` is a multiple of 360, the tiles that show
/// `value` and `value + k` have equal colours.
pub proof fn lemma_hue_cycle(value: nat, k: nat)
    requires
        (k * 65) % 360 == 0,
    ensures
        tile_hue(value + k) == tile_hue(value),
        tile_color(value + k) == tile_color(value),
{
    let a: int = (value * 65) as int;
    let b: int = (k * 65) as int;
    assert((value + k) * 65 == a + b);
    assert((a + b) % 360 == a % 360) by {
        assert(b == 360 * (b / 360));
        vstd::arithmetic::div_mod::lemma_mod_multiples_vanish(b / 360, a, 360);
    }
}

/// Tile colours repeat with period 72: the hue step of 65 degrees returns to
/// its starting angle after 72 steps.
pub proof fn lemma_color_period(value: nat)
    ensures
        tile_color(value + 72) == tile_color(value),
{
    lemma_hue_cycle(value, 72);
}

/// Rounds `255 * (chroma * share + 60 * base) / 600 000` to the nearest byte.
fn channel_byte(chroma: i64, base: i64, share: i64) -> (byte: u8)
    requires
        0 <= chroma <= 255 * 255,
        -(255 * 255) <= base <= 100 * 255,
        0 <= share <= 60,
    ensures
        byte == clamp_to_byte(round_ratio(255 * (chroma * share + 60 * base), 600_000)),
{
    assert(0 <= chroma * share <= 60 * (255 * 255)) by (nonlinear_arith)
        requires
            0 <= chroma <= 255 * 255,
            0 <= share <= 60,
    ;
    let level: i64 = chroma * share + 60 * base;
    if level <= 0 {
        0
    } else {
        let rounded: i64 = (510 * level + 600_000) / 1_200_000;
        if rounded > 255 {
            255
        } else {
            rounded as u8
        }
    }
}

/// Converts hue, saturation and brightness to red, green and blue.
///
/// With `c = brightness * saturation` the chroma, `x = c * (1 - |h mod 2 - 1|)`
/// for `h = (hue mod 360) / 60`, and `m = brightness - c`, the sector
/// `floor(h)` selects which of `c`, `x` and 0 each channel receives; the
/// channel's byte is `(contribution + m) * 255`, rounded to the nearest
/// integer and clamped to 0..=255.
pub fn hsv2rgb(hsv: &Hsv) -> (color: Color)
    ensures
        color == rgb(*hsv),
        color.r == channel(*hsv, chroma_shares(hsv.hue as int).0),
        color.g == channel(*hsv, chroma_shares(hsv.hue as int).1),
        color.b == channel(*hsv, chroma_shares(hsv.hue as int).2),
{
    let angle: u32 = hsv.hue % 360;
    let sector: u32 = angle / 60;
    let position: u32 = angle % 120;
    let x: i64 = if position <= 60 {
        position as i64
    } else {
        120 - position as i64
    };
    let brightness: i64 = hsv.brightness as i64;
    let saturation: i64 = hsv.saturation as i64;
    assert(0 <= brightness * saturation <= 255 * 255) by (nonlinear_arith)
        requires
            0 <= brightness <= 255,
            0 <= saturation <= 255,
    ;
    let c: i64 = brightness * saturation;
    let m: i64 = 100 * brightness - c;
    let shares: (i64, i64, i64) = if sector == 0 {
        (60, x, 0)
    } else if sector == 1 {
        (x, 60, 0)
    } else if sector == 2 {
        (0, 60, x)
    } else if sector == 3 {
        (0, x, 60)
    } else if sector == 4 {
        (x, 0, 60)
    } else {
        (60, 0, x)
    };
    Color {
        r: channel_byte(c, m, shares.0),
        g: channel_byte(c, m, shares.1),
        b: channel_byte(c, m, shares.2),
    }
}

/// Maps the number on a tile to the tile's fill colour.
///
/// The hue is `value * 65` degrees modulo 360, the saturation 30 per cent
/// and the brightness 80 per cent. The function is total: every number,
/// zero included, has a colour.
pub fn map_value_to_color(value: u32) -> (color: Color)
    ensures
        color == tile_color(value as nat),
        color.r == channel(tile_hsv(value as nat), chroma_shares(tile_hue(value as nat) as int).0),
        color.g == channel(tile_hsv(value as nat), chroma_shares(tile_hue(value as nat) as int).1),
        color.b == channel(tile_hsv(value as nat), chroma_shares(tile_hue(value as nat) as int).2),
{
    let hue: u64 = (value as u64 * HUE_STEP as u64) % 360;
    hsv2rgb(&Hsv { hue: hue as u32, saturation: TILE_SATURATION, brightness: TILE_BRIGHTNESS })
}

} // verus!
