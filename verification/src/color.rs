//! Panel colours: 16-bit RGB with five bits of red, six of green and five of
//! blue, and the quantisation from 24-bit colour that precedes every
//! comparison.

use mousefood::embedded_graphics::pixelcolor::IntoStorage;
use mousefood::prelude::{Rgb565 as PanelColor, Rgb888 as SourceColor};
use vstd::prelude::*;

verus! {

/// Largest value of the red channel.
pub const MAX_RED: u8 = 31;

/// Largest value of the green channel.
pub const MAX_GREEN: u8 = 63;

/// Largest value of the blue channel.
pub const MAX_BLUE: u8 = 31;

/// An 8-bit channel value reduced to a channel whose largest value is `max`,
/// in the fixed-point arithmetic of the display stack: the value is
/// multiplied by `max / 255` held with 24 fractional bits, one half is added
/// and the fraction is dropped.
pub open spec fn reduce_channel(value: u8, max: u8) -> u8 {
    (((value as u32 * (((max as u32) << 24) / 255)) as u32 + (1u32 << 23)) as u32 >> 24) as u8
}

/// The 16-bit word that holds `red` in bits 11 to 15, `green` in bits 5 to 10
/// and `blue` in bits 0 to 4; bits of a channel beyond its width are dropped.
pub open spec fn pack(red: u8, green: u8, blue: u8) -> u16 {
    (((red & MAX_RED) as u16) << 11) | (((green & MAX_GREEN) as u16) << 5) | ((blue & MAX_BLUE) as u16)
}

/// Converts a 24-bit colour to the panel's 16-bit colour with
/// `Rgb565::from(Rgb888)` of embedded-graphics and returns the raw word.
/// Trusted: the conversion reduces each channel as `reduce_channel` says and
/// packs the three results as `pack` says.
#[verifier::external_body]
fn panel_word(red: u8, green: u8, blue: u8) -> (word: u16)
    ensures
        word == pack(
            reduce_channel(red, MAX_RED),
            reduce_channel(green, MAX_GREEN),
            reduce_channel(blue, MAX_BLUE),
        ),
{
    PanelColor::from(SourceColor::new(red, green, blue)).into_storage()
}

/// A colour as the panel stores it.
#[derive(Clone, Copy, Debug, PartialEq, Eq, Structural)]
pub struct Rgb565 {
    pub raw: u16,
}

impl Rgb565 {
    /// The red channel, 0 to 31.
    pub open spec fn red(self) -> int {
        (self.raw as int / 2048) % 32
    }

    /// The green channel, 0 to 63.
    pub open spec fn green(self) -> int {
        (self.raw as int / 32) % 64
    }

    /// The blue channel, 0 to 31.
    pub open spec fn blue(self) -> int {
        self.raw as int % 32
    }

    /// The panel colour nearest to the 24-bit colour `(red, green, blue)`.
    pub fn from_rgb888(red: u8, green: u8, blue: u8) -> (color: Rgb565)
        ensures
            color.red() == nearest_level(red as int, 31),
            color.green() == nearest_level(green as int, 63),
            color.blue() == nearest_level(blue as int, 31),
    {
        let word: u16 = panel_word(red, green, blue);
        proof {
            lemma_reduce_is_nearest(red, green, blue);
        }
        Rgb565 { raw: word }
    }

    /// The colour with the given channel values, if each fits its channel.
    pub fn from_channels(red: u8, green: u8, blue: u8) -> (color: Option<Rgb565>)
        ensures
            color is Some <==> red <= MAX_RED && green <= MAX_GREEN && blue <= MAX_BLUE,
            color matches Some(c) ==> c.red() == red && c.green() == green && c.blue() == blue,
    {
        if red > MAX_RED || green > MAX_GREEN || blue > MAX_BLUE {
            return None;
        }
        let word: u16 = ((red as u16) << 11) | ((green as u16) << 5) | (blue as u16);
        assert(word as int / 2048 % 32 == red as int && word as int / 32 % 64 == green as int
            && word as int % 32 == blue as int) by (bit_vector)
            requires
                red <= 31,
                green <= 63,
                blue <= 31,
                word == ((red as u16) << 11) | ((green as u16) << 5) | (blue as u16),
        ;
        Some(Rgb565 { raw: word })
    }

    /// The two bytes that carry this colour on the wire: most significant
    /// byte first, or least significant first where `swap` is set.
    pub fn wire_bytes(self, swap: bool) -> (bytes: (u8, u8))
        ensures
            bytes == wire_pair(self.raw, swap),
    {
        let raw: u16 = self.raw;
        let high: u16 = raw >> 8;
        let low: u16 = raw & 0xff;
        assert(high == raw / 256 && low == raw % 256 && high < 256 && low < 256) by (bit_vector)
            requires
                high == raw >> 8,
                low == raw & 0xff,
        ;
        if swap {
            (low as u8, high as u8)
        } else {
            (high as u8, low as u8)
        }
    }
}

/// The pair of bytes that carries `word`: `(high, low)`, or `(low, high)`
/// where `swap` is set.
pub open spec fn wire_pair(word: u16, swap: bool) -> (u8, u8) {
    if swap {
        ((word % 256) as u8, (word / 256) as u8)
    } else {
        ((word / 256) as u8, (word % 256) as u8)
    }
}

/// Whether two 24-bit colours are the same colour on the panel. Colours are
/// compared after quantisation, never before it.
pub fn same_on_panel(first: (u8, u8, u8), second: (u8, u8, u8)) -> (same: bool)
    ensures
        same <==> {
            &&& nearest_level(first.0 as int, 31) == nearest_level(second.0 as int, 31)
            &&& nearest_level(first.1 as int, 63) == nearest_level(second.1 as int, 63)
            &&& nearest_level(first.2 as int, 31) == nearest_level(second.2 as int, 31)
        },
{
    let a = Rgb565::from_rgb888(first.0, first.1, first.2);
    let b = Rgb565::from_rgb888(second.0, second.1, second.2);
    proof {
        lemma_channels_fix_word(a.raw, b.raw);
    }
    a.raw == b.raw
}

/// Two words with the same three channels are the same word.
proof fn lemma_channels_fix_word(a: u16, b: u16)
    ensures
        (a as int / 2048 % 32 == b as int / 2048 % 32 && a as int / 32 % 64 == b as int / 32 % 64
            && a as int % 32 == b as int % 32) ==> a == b,
{
    assert((a / 2048 % 32 == b / 2048 % 32 && a / 32 % 64 == b / 32 % 64 && a % 32 == b % 32)
        ==> a == b) by (bit_vector);
}

/// `value * max / 255` rounded to the nearest integer, halves rounded up.
pub open spec fn nearest_level(value: int, max: int) -> int {
    (2 * value * max + 255) / 510
}

proof fn lemma_reduce_is_nearest(red: u8, green: u8, blue: u8)
    ensures
        ({
            let word = pack(
                reduce_channel(red, MAX_RED),
                reduce_channel(green, MAX_GREEN),
                reduce_channel(blue, MAX_BLUE),
            );
            &&& (word as int / 2048) % 32 == nearest_level(red as int, 31)
            &&& (word as int / 32) % 64 == nearest_level(green as int, 63)
            &&& word as int % 32 == nearest_level(blue as int, 31)
        }),
{
    let r = reduce_channel(red, MAX_RED);
    let g = reduce_channel(green, MAX_GREEN);
    let b = reduce_channel(blue, MAX_BLUE);
    assert(r as int == (2 * (red as int) * 31 + 255) / 510 && r <= 31) by (bit_vector)
        requires
            r == (((red as u32 * (((31u8 as u32) << 24) / 255)) as u32 + (1u32 << 23)) as u32 >> 24) as u8,
    ;
    assert(g as int == (2 * (green as int) * 63 + 255) / 510 && g <= 63) by (bit_vector)
        requires
            g == (((green as u32 * (((63u8 as u32) << 24) / 255)) as u32 + (1u32 << 23)) as u32 >> 24) as u8,
    ;
    assert(b as int == (2 * (blue as int) * 31 + 255) / 510 && b <= 31) by (bit_vector)
        requires
            b == (((blue as u32 * (((31u8 as u32) << 24) / 255)) as u32 + (1u32 << 23)) as u32 >> 24) as u8,
    ;
    let word = pack(r, g, b);
    assert(word as int / 2048 % 32 == r as int && word as int / 32 % 64 == g as int && word as int % 32 == b as int) by (bit_vector)
        requires
            r <= 31,
            g <= 63,
            b <= 31,
            word == (((r & 31u8) as u16) << 11) | (((g & 63u8) as u16) << 5) | ((b & 31u8) as u16),
    ;
}

} // verus!
