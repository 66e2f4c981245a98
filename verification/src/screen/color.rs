//! Opaque 24-bit colours.
use crate::fixed::ONE;
use vstd::prelude::*;

verus! {

/// A colour of three 8-bit channels.
#[derive(Debug, Copy, Clone, PartialEq, Eq, Structural)]
pub struct Color {
    pub r: u8,
    pub g: u8,
    pub b: u8,
}

/// `v` pinned into the range of a channel.
pub open spec fn clamp_channel(v: int) -> u8 {
    if v < 0 {
        0
    } else if v > 255 {
        255
    } else {
        v as u8
    }
}

fn channel(v: i64) -> (c: u8)
    ensures
        c == clamp_channel(v as int),
{
    if v < 0 {
        0
    } else if v > 255 {
        255
    } else {
        v as u8
    }
}

/// A channel multiplied by a 16.16 scalar, rounded down and pinned into
/// range.
pub open spec fn scale_channel(c: u8, factor: i32) -> u8 {
    clamp_channel((c * factor) / (ONE as int))
}

fn scaled_channel(c: u8, factor: i32) -> (r: u8)
    ensures
        r == scale_channel(c, factor),
{
    let x: i64 = c as i64;
    let y: i64 = factor as i64;
    assert(-0x100_0000_0000 <= x * y <= 0x100_0000_0000) by (nonlinear_arith)
        requires
            0 <= x < 0x100,
            -0x8000_0000 <= y < 0x8000_0000,
    ;
    let p: i64 = x * y;
    if p < 0 {
        0
    } else {
        channel(p / 65536)
    }
}

impl Color {
    /// The colour whose channels are the arguments pinned into `0..=255`.
    pub open spec fn new_spec(r: i32, g: i32, b: i32) -> Color {
        Color {
            r: clamp_channel(r as int),
            g: clamp_channel(g as int),
            b: clamp_channel(b as int),
        }
    }

    /// Builds a colour, pinning each channel into `0..=255`.
    pub fn new(r: i32, g: i32, b: i32) -> (c: Color)
        ensures
            c == Color::new_spec(r, g, b),
    {
        Color { r: channel(r as i64), g: channel(g as i64), b: channel(b as i64) }
    }

    pub fn black() -> (c: Color)
        ensures
            c == (Color { r: 0, g: 0, b: 0 }),
    {
        Color { r: 0x00, g: 0x00, b: 0x00 }
    }

    /// The colour packed in the low 24 bits of `hex`, red highest.
    pub open spec fn from_hex_spec(hex: u32) -> Color {
        Color {
            r: ((hex / 0x1_0000) % 0x100) as u8,
            g: ((hex / 0x100) % 0x100) as u8,
            b: (hex % 0x100) as u8,
        }
    }

    /// Unpacks a colour from the low 24 bits of `hex`; the high 8 bits are
    /// ignored.
    pub fn from_hex(hex: u32) -> (c: Color)
        ensures
            c == Color::from_hex_spec(hex),
    {
        let r: u8 = (hex >> 16 & 0xFF) as u8;
        let g: u8 = (hex >> 8 & 0xFF) as u8;
        let b: u8 = (hex & 0xFF) as u8;
        assert((hex >> 16 & 0xFF) == (hex / 0x1_0000) % 0x100) by (bit_vector);
        assert((hex >> 8 & 0xFF) == (hex / 0x100) % 0x100) by (bit_vector);
        assert((hex & 0xFF) == hex % 0x100) by (bit_vector);
        Color { r, g, b }
    }

    /// The colour packed into 24 bits, red highest.
    pub open spec fn to_hex_spec(self) -> u32 {
        (self.r * 0x1_0000 + self.g * 0x100 + self.b) as u32
    }

    /// Packs the colour into the low 24 bits of an integer.
    pub fn to_hex(&self) -> (hex: u32)
        ensures
            hex == self.to_hex_spec(),
    {
        let r: u32 = self.r as u32;
        let g: u32 = self.g as u32;
        let b: u32 = self.b as u32;
        assert(((r << 16) | (g << 8) | b) == r * 0x1_0000 + g * 0x100 + b) by (bit_vector)
            requires
                r < 0x100,
                g < 0x100,
                b < 0x100,
        ;
        (r << 16) | (g << 8) | b
    }

    /// Packing a colour and unpacking it again gives the colour back.
    pub proof fn lemma_hex_round_trip(self)
        ensures
            Color::from_hex_spec(self.to_hex_spec()) == self,
    {
    }

    /// Unpacking and packing again keeps exactly the low 24 bits.
    pub proof fn lemma_hex_keeps_low_bits(hex: u32)
        ensures
            Color::from_hex_spec(hex).to_hex_spec() == hex % 0x100_0000,
    {
    }

    /// The channelwise sum, each channel stopping at 255.
    pub open spec fn plus_spec(self, other: Color) -> Color {
        Color {
            r: clamp_channel(self.r + other.r),
            g: clamp_channel(self.g + other.g),
            b: clamp_channel(self.b + other.b),
        }
    }

    /// Each channel multiplied by a 16.16 scalar, rounded down and pinned
    /// into `0..=255`.
    pub open spec fn scaled_spec(self, factor: i32) -> Color {
        Color {
            r: scale_channel(self.r, factor),
            g: scale_channel(self.g, factor),
            b: scale_channel(self.b, factor),
        }
    }
}

impl vstd::std_specs::ops::AddSpecImpl for Color {
    open spec fn obeys_add_spec() -> bool {
        true
    }

    open spec fn add_req(self, other: Color) -> bool {
        true
    }

    open spec fn add_spec(self, other: Color) -> Color {
        self.plus_spec(other)
    }
}

impl core::ops::Add for Color {
    type Output = Color;

    /// Adds channel by channel, saturating at 255.
    fn add(self, other: Color) -> (c: Color) {
        let r: u8 = channel((self.r as i64) + (other.r as i64));
        let g: u8 = channel((self.g as i64) + (other.g as i64));
        let b: u8 = channel((self.b as i64) + (other.b as i64));
        Color { r, g, b }
    }
}

impl vstd::std_specs::ops::MulSpecImpl<i32> for Color {
    open spec fn obeys_mul_spec() -> bool {
        true
    }

    open spec fn mul_req(self, factor: i32) -> bool {
        true
    }

    open spec fn mul_spec(self, factor: i32) -> Color {
        self.scaled_spec(factor)
    }
}

impl core::ops::Mul<i32> for Color {
    type Output = Color;

    /// Scales every channel by a 16.16 factor.
    fn mul(self, factor: i32) -> (c: Color) {
        let r: u8 = scaled_channel(self.r, factor);
        let g: u8 = scaled_channel(self.g, factor);
        let b: u8 = scaled_channel(self.b, factor);
        Color { r, g, b }
    }
}

} // verus!
