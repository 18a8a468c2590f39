//! Pixel words: 32 bits with alpha in the top byte, then red, green and blue, the colour
//! channels premultiplied by alpha.
use crate::config::Color;
use vstd::prelude::*;

verus! {

/// The 32-bit word with alpha in the top byte, then red, green and blue.
pub open spec fn bgra_word(a: int, r: int, g: int, b: int) -> int {
    a * 0x100_0000 + r * 0x1_0000 + g * 0x100 + b
}

/// Alpha byte of a pixel word.
pub open spec fn alpha_of(px: u32) -> int {
    px as int / 0x100_0000
}

/// Red byte of a pixel word.
pub open spec fn red_of(px: u32) -> int {
    px as int / 0x1_0000 % 0x100
}

/// Green byte of a pixel word.
pub open spec fn green_of(px: u32) -> int {
    px as int / 0x100 % 0x100
}

/// Blue byte of a pixel word.
pub open spec fn blue_of(px: u32) -> int {
    px as int % 0x100
}

/// A channel value scaled by `alpha / 255`, rounded to the nearest integer.
pub open spec fn premultiplied_channel(c: int, alpha: int) -> int {
    (c * alpha + 127) / 255
}

/// The premultiplied pixel word for the colour channels of `rgb` at `alpha`.
pub open spec fn premultiplied(rgb: u32, alpha: u8) -> u32 {
    bgra_word(
        alpha as int,
        premultiplied_channel(red_of(rgb), alpha as int),
        premultiplied_channel(green_of(rgb), alpha as int),
        premultiplied_channel(blue_of(rgb), alpha as int),
    ) as u32
}

/// The word of a colour at full opacity.
pub open spec fn opaque_word(color: Color) -> u32 {
    bgra_word(255, color.r as int, color.g as int, color.b as int) as u32
}

/// A scaled channel is still a byte, and is at most the channel and at most alpha.
proof fn lemma_channel_range(c: int, a: int)
    requires
        0 <= c <= 255,
        0 <= a <= 255,
    ensures
        0 <= premultiplied_channel(c, a) <= 255,
        premultiplied_channel(c, a) <= a,
        0 <= c * a <= 65025,
{
    assert(0 <= c * a <= 255 * a && c * a <= 65025) by (nonlinear_arith)
        requires
            0 <= c <= 255,
            0 <= a <= 255,
    ;
}

/// The bytes of a packed word are the bytes that went in.
proof fn lemma_word_bytes(a: u32, r: u32, g: u32, b: u32)
    requires
        a <= 255,
        r <= 255,
        g <= 255,
        b <= 255,
    ensures
        (a << 24) | (r << 16) | (g << 8) | b == bgra_word(a as int, r as int, g as int, b as int),
{
    assert((a << 24) | (r << 16) | (g << 8) | b == a * 0x100_0000 + r * 0x1_0000 + g * 0x100 + b)
        by (bit_vector)
        requires
            a <= 255,
            r <= 255,
            g <= 255,
            b <= 255,
    ;
}

/// Unpacking a word that was put together from four bytes.
proof fn lemma_bytes_of_word(a: u32, r: u32, g: u32, b: u32)
    requires
        a <= 255,
        r <= 255,
        g <= 255,
        b <= 255,
    ensures
        0 <= bgra_word(a as int, r as int, g as int, b as int) <= u32::MAX,
        alpha_of(bgra_word(a as int, r as int, g as int, b as int) as u32) == a,
        red_of(bgra_word(a as int, r as int, g as int, b as int) as u32) == r,
        green_of(bgra_word(a as int, r as int, g as int, b as int) as u32) == g,
        blue_of(bgra_word(a as int, r as int, g as int, b as int) as u32) == b,
{
    let w: u32 = bgra_word(a as int, r as int, g as int, b as int) as u32;
    assert(w / 0x100_0000 == a && w / 0x1_0000 % 0x100 == r && w / 0x100 % 0x100 == g && w % 0x100
        == b) by (bit_vector)
        requires
            w == a * 0x100_0000 + r * 0x1_0000 + g * 0x100 + b,
            a <= 255,
            r <= 255,
            g <= 255,
            b <= 255,
    ;
}

proof fn lemma_channels(px: u32)
    ensures
        (px >> 16) & 0xFF == red_of(px),
        (px >> 8) & 0xFF == green_of(px),
        px & 0xFF == blue_of(px),
        (px >> 24) & 0xFF == alpha_of(px),
{
    assert((px >> 16) & 0xFF == px / 0x1_0000 % 0x100) by (bit_vector);
    assert((px >> 8) & 0xFF == px / 0x100 % 0x100) by (bit_vector);
    assert(px & 0xFF == px % 0x100) by (bit_vector);
    assert((px >> 24) & 0xFF == px / 0x100_0000) by (bit_vector);
}

/// Packs a colour and an alpha value into a BGRA word, without premultiplying.
#[must_use]
pub fn pack_bgra(color: Color, alpha: u8) -> (res: u32)
    ensures
        res == bgra_word(alpha as int, color.r as int, color.g as int, color.b as int),
{
    let r: u32 = color.r as u32;
    let g: u32 = color.g as u32;
    let b: u32 = color.b as u32;
    let a: u32 = alpha as u32;
    proof {
        lemma_word_bytes(a, r, g, b);
    }
    (a << 24) | (r << 16) | (g << 8) | b
}

/// Packs the low 24 bits of `rgb` at the given coverage as a premultiplied word.
#[must_use]
pub fn pack_premultiplied(rgb: u32, alpha: u8) -> (res: u32)
    ensures
        res == premultiplied(rgb, alpha),
        alpha_of(res) == alpha,
{
    let a: u32 = alpha as u32;
    proof {
        lemma_channels(rgb);
        lemma_channel_range(red_of(rgb), a as int);
        lemma_channel_range(green_of(rgb), a as int);
        lemma_channel_range(blue_of(rgb), a as int);
    }
    let r: u32 = ((rgb >> 16) & 0xFF) * a;
    let g: u32 = ((rgb >> 8) & 0xFF) * a;
    let b: u32 = (rgb & 0xFF) * a;
    let r: u32 = (r + 127) / 255;
    let g: u32 = (g + 127) / 255;
    let b: u32 = (b + 127) / 255;
    proof {
        lemma_word_bytes(a, r, g, b);
        lemma_bytes_of_word(a, r, g, b);
    }
    (a << 24) | (r << 16) | (g << 8) | b
}

/// What recolouring makes of one pixel: its alpha stays, its colour is replaced.
pub open spec fn recolored(px: u32, color: Color) -> u32 {
    if alpha_of(px) == 0 {
        px
    } else {
        premultiplied(opaque_word(color), alpha_of(px) as u8)
    }
}

/// Recolours one premultiplied pixel, keeping its alpha. Transparent pixels stay.
#[must_use]
pub fn recolor_pixel(px: u32, new_color: Color) -> (res: u32)
    ensures
        res == recolored(px, new_color),
        alpha_of(res) == alpha_of(px),
{
    let a: u32 = (px >> 24) & 0xFF;
    proof {
        lemma_channels(px);
    }
    if a == 0 {
        return px;
    }
    let rgb: u32 = pack_bgra(new_color, 0);
    proof {
        lemma_color_channels(0, new_color);
        lemma_color_channels(255, new_color);
    }
    pack_premultiplied(rgb, a as u8)
}

proof fn lemma_color_channels(a: u8, color: Color)
    ensures
        ({
            let w = bgra_word(a as int, color.r as int, color.g as int, color.b as int) as u32;
            &&& alpha_of(w) == a
            &&& red_of(w) == color.r
            &&& green_of(w) == color.g
            &&& blue_of(w) == color.b
        }),
{
    lemma_bytes_of_word(a as u32, color.r as u32, color.g as u32, color.b as u32);
}

/// At full coverage premultiplying changes nothing: the word is the opaque one.
pub proof fn full_coverage_is_the_opaque_word(color: Color, a: u8)
    ensures
        premultiplied(
            bgra_word(a as int, color.r as int, color.g as int, color.b as int) as u32,
            255,
        ) == opaque_word(color),
{
    lemma_color_channels(a, color);
}

/// Full coverage leaves a word as it is whose alpha is full already.
pub proof fn full_alpha_keeps_an_opaque_word(word: u32)
    requires
        word >= 0xFF00_0000,
    ensures
        premultiplied(word, 255) == word,
{
    assert(word == 0xFF00_0000 + word / 0x1_0000 % 0x100 * 0x1_0000 + word / 0x100 % 0x100 * 0x100
        + word % 0x100 && word / 0x1_0000 % 0x100 <= 255 && word / 0x100 % 0x100 <= 255 && word
        % 0x100 <= 255) by (bit_vector)
        requires
            word >= 0xFF00_0000,
    ;
}

/// The word of a colour: full alpha in the top byte, then red, green and blue.
pub proof fn opaque_words_hold_red_green_and_blue(color: Color)
    ensures
        opaque_word(color) == 0xFF00_0000 + color.r * 0x1_0000 + color.g * 0x100 + color.b,
        forall|a: u8| #[trigger]
            bgra_word(a as int, color.r as int, color.g as int, color.b as int) == a * 0x100_0000
                + color.r * 0x1_0000 + color.g * 0x100 + color.b,
{
}

/// A premultiplied word keeps alpha in its top byte, and each colour channel below it is the
/// nearest number to its share of the channel.
pub proof fn channels_are_scaled_to_the_nearest(rgb: u32, alpha: u8)
    ensures
        ({
            let word = premultiplied(rgb, alpha) as int;
            let (red, green, blue) = (
                word / 0x1_0000 % 0x100,
                word / 0x100 % 0x100,
                word % 0x100,
            );
            let c = rgb as int;
            &&& word / 0x100_0000 == alpha
            &&& -127 <= 255 * red - c / 0x1_0000 % 0x100 * alpha <= 127
            &&& -127 <= 255 * green - c / 0x100 % 0x100 * alpha <= 127
            &&& -127 <= 255 * blue - c % 0x100 * alpha <= 127
        }),
{
    lemma_channel_range(red_of(rgb), alpha as int);
    lemma_channel_range(green_of(rgb), alpha as int);
    lemma_channel_range(blue_of(rgb), alpha as int);
    lemma_bytes_of_word(
        alpha as u32,
        premultiplied_channel(red_of(rgb), alpha as int) as u32,
        premultiplied_channel(green_of(rgb), alpha as int) as u32,
        premultiplied_channel(blue_of(rgb), alpha as int) as u32,
    );
}

/// Recolouring keeps the alpha of a pixel and gives it the channels of the new colour, each scaled
/// by that alpha to the nearest number. Pixels without alpha stay as they are.
pub proof fn recoloring_keeps_alpha_and_replaces_color(px: u32, color: Color)
    ensures
        ({
            let word = recolored(px, color) as int;
            let alpha = px as int / 0x100_0000;
            &&& alpha == 0 ==> word == px
            &&& word / 0x100_0000 == alpha
            &&& alpha > 0 ==> {
                &&& -127 <= 255 * (word / 0x1_0000 % 0x100) - color.r * alpha <= 127
                &&& -127 <= 255 * (word / 0x100 % 0x100) - color.g * alpha <= 127
                &&& -127 <= 255 * (word % 0x100) - color.b * alpha <= 127
            }
        }),
{
    lemma_color_channels(255, color);
    if px as int / 0x100_0000 > 0 {
        channels_are_scaled_to_the_nearest(opaque_word(color), alpha_of(px) as u8);
    }
}

/// At zero coverage a pixel is fully transparent, whatever its colour.
pub proof fn zero_coverage_is_transparent(rgb: u32)
    ensures
        premultiplied(rgb, 0) == 0,
{
}

/// No colour channel of a premultiplied pixel exceeds its alpha.
pub proof fn premultiplied_channels_stay_below_alpha(rgb: u32, alpha: u8)
    ensures
        alpha_of(premultiplied(rgb, alpha)) == alpha,
        red_of(premultiplied(rgb, alpha)) <= alpha,
        green_of(premultiplied(rgb, alpha)) <= alpha,
        blue_of(premultiplied(rgb, alpha)) <= alpha,
{
    lemma_channel_range(red_of(rgb), alpha as int);
    lemma_channel_range(green_of(rgb), alpha as int);
    lemma_channel_range(blue_of(rgb), alpha as int);
    lemma_bytes_of_word(
        alpha as u32,
        premultiplied_channel(red_of(rgb), alpha as int) as u32,
        premultiplied_channel(green_of(rgb), alpha as int) as u32,
        premultiplied_channel(blue_of(rgb), alpha as int) as u32,
    );
}

/// Recolouring a premultiplied pixel gives the pixel that the new colour would
/// have had at the same coverage.
pub proof fn recolor_equals_rendering_in_the_new_color(rgb: u32, alpha: u8, color: Color)
    ensures
        recolored(premultiplied(rgb, alpha), color) == premultiplied(opaque_word(color), alpha),
{
    premultiplied_channels_stay_below_alpha(rgb, alpha);
    if alpha == 0 {
        zero_coverage_is_transparent(rgb);
        zero_coverage_is_transparent(opaque_word(color));
    }
}

/// Recolouring twice is recolouring with the last colour.
pub proof fn recolor_keeps_only_the_last_color(px: u32, first: Color, second: Color)
    ensures
        recolored(recolored(px, first), second) == recolored(px, second),
{
    if alpha_of(px) != 0 {
        premultiplied_channels_stay_below_alpha(opaque_word(first), alpha_of(px) as u8);
    }
}

} // verus!
