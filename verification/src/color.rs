//! Colors as fixed-point RGB triples.
//!
//! Channels conceptually live in [0, 1] (scalar units [0, FX_ONE]).
//! Componentwise multiplication is exact; addition and scaling by a
//! non-negative scalar clamp each channel at one, never wrapping. The
//! 8-bit conversions are exact integer scalings by 255.

use vstd::prelude::*;

use crate::fx::FX_ONE;
use crate::fx::fx_add;
use crate::fx::fx_add_s;
use crate::fx::fx_mul;
use crate::fx::fx_mul_s;
use crate::fx::fx_tdiv;
use crate::fx::tdiv;

verus! {

#[derive(Debug, Clone, Copy, PartialEq, Eq, Structural)]
pub struct Color {
    pub red: i64,
    pub green: i64,
    pub blue: i64,
}

/// The channel triple of a color, for contracts.
pub open spec fn c3(c: Color) -> (int, int, int) {
    (c.red as int, c.green as int, c.blue as int)
}

/// Channels in range: each in [0, 1].
pub open spec fn color_wf(c: Color) -> bool {
    0 <= c.red <= FX_ONE && 0 <= c.green <= FX_ONE && 0 <= c.blue <= FX_ONE
}

/// Clamp one channel at one (addition and scaling never exceed it).
pub open spec fn cap_s(x: int) -> int {
    if x > FX_ONE as int {
        FX_ONE as int
    } else {
        x
    }
}

/// Componentwise (exact) product of two colors.
pub open spec fn color_mul_s(a: (int, int, int), b: (int, int, int)) -> (int, int, int) {
    (fx_mul_s(a.0, b.0), fx_mul_s(a.1, b.1), fx_mul_s(a.2, b.2))
}

/// Componentwise sum, each channel capped at one.
pub open spec fn color_add_s(a: (int, int, int), b: (int, int, int)) -> (int, int, int) {
    (cap_s(fx_add_s(a.0, b.0)), cap_s(fx_add_s(a.1, b.1)), cap_s(fx_add_s(a.2, b.2)))
}

/// Scale by a scalar, each channel capped at one.
pub open spec fn color_scale_s(a: (int, int, int), k: int) -> (int, int, int) {
    (cap_s(fx_mul_s(a.0, k)), cap_s(fx_mul_s(a.1, k)), cap_s(fx_mul_s(a.2, k)))
}

/// One 8-bit channel brought into scalar units.
pub open spec fn channel_of_byte_s(v: int) -> int {
    tdiv(v * FX_ONE, 255)
}

/// One scalar channel brought to 8 bits, clamped into [0, 1] first.
pub open spec fn byte_of_channel_s(x: int) -> int {
    let c = if x < 0 {
        0
    } else if x > FX_ONE as int {
        FX_ONE as int
    } else {
        x
    };
    tdiv(c * 255, FX_ONE as int)
}

impl Color {
    /// Build a color from three 8-bit channels; the result always has its
    /// channels in range, so the construction cannot fail.
    pub fn from_rgb(r: u8, g: u8, b: u8) -> (c: Color)
        ensures
            c3(c) == (channel_of_byte_s(r as int), channel_of_byte_s(g as int), channel_of_byte_s(
                b as int,
            )),
            color_wf(c),
    {
        let red = fx_tdiv((r as i64) * FX_ONE, 255);
        let green = fx_tdiv((g as i64) * FX_ONE, 255);
        let blue = fx_tdiv((b as i64) * FX_ONE, 255);
        Color { red, green, blue }
    }

    /// The three 8-bit channels of a color, in red, green, blue order;
    /// out-of-range channels are clamped first.
    pub fn to_rgb(&self) -> (t: (u8, u8, u8))
        ensures
            t.0 == byte_of_channel_s(self.red as int),
            t.1 == byte_of_channel_s(self.green as int),
            t.2 == byte_of_channel_s(self.blue as int),
    {
        (
            Self::channel_to_byte(self.red),
            Self::channel_to_byte(self.green),
            Self::channel_to_byte(self.blue),
        )
    }

    fn channel_to_byte(x: i64) -> (v: u8)
        ensures
            v == byte_of_channel_s(x as int),
    {
        let c = if x < 0 {
            0
        } else if x > FX_ONE {
            FX_ONE
        } else {
            x
        };
        fx_tdiv(c * 255, FX_ONE) as u8
    }

    /// Componentwise product. Two in-range colors multiply to an in-range
    /// color.
    pub fn mul(self, other: Color) -> (c: Color)
        ensures
            c3(c) == color_mul_s(c3(self), c3(other)),
            color_wf(self) && color_wf(other) ==> color_wf(c),
    {
        proof {
            if color_wf(self) && color_wf(other) {
                crate::fx::lemma_fx_mul_unit(self.red as int, other.red as int);
                crate::fx::lemma_fx_mul_unit(self.green as int, other.green as int);
                crate::fx::lemma_fx_mul_unit(self.blue as int, other.blue as int);
            }
        }
        Color {
            red: fx_mul(self.red, other.red),
            green: fx_mul(self.green, other.green),
            blue: fx_mul(self.blue, other.blue),
        }
    }

    /// Componentwise sum saturating at one per channel.
    pub fn add(self, other: Color) -> (c: Color)
        ensures
            c3(c) == color_add_s(c3(self), c3(other)),
            color_wf(self) && color_wf(other) ==> color_wf(c),
    {
        Color {
            red: Self::cap(fx_add(self.red, other.red)),
            green: Self::cap(fx_add(self.green, other.green)),
            blue: Self::cap(fx_add(self.blue, other.blue)),
        }
    }

    /// Scale by a non-negative scalar, saturating at one per channel.
    pub fn scale(self, k: i64) -> (c: Color)
        requires
            k >= 0,
        ensures
            c3(c) == color_scale_s(c3(self), k as int),
            color_wf(self) ==> color_wf(c),
    {
        proof {
            if color_wf(self) {
                crate::fx::lemma_fx_mul_sign(self.red as int, k as int);
                crate::fx::lemma_fx_mul_sign(self.green as int, k as int);
                crate::fx::lemma_fx_mul_sign(self.blue as int, k as int);
            }
        }
        Color {
            red: Self::cap(fx_mul(self.red, k)),
            green: Self::cap(fx_mul(self.green, k)),
            blue: Self::cap(fx_mul(self.blue, k)),
        }
    }

    fn cap(x: i64) -> (r: i64)
        ensures
            r == cap_s(x as int),
    {
        if x > FX_ONE {
            FX_ONE
        } else {
            x
        }
    }
}

/// All channels zero.
pub fn black() -> (c: Color)
    ensures
        c == (Color { red: 0, green: 0, blue: 0 }),
{
    Color { red: 0, green: 0, blue: 0 }
}

/// Full red, the reference color surfaces fall back to.
pub fn red() -> (c: Color)
    ensures
        c == (Color { red: FX_ONE as i64, green: 0, blue: 0 }),
{
    Color { red: FX_ONE, green: 0, blue: 0 }
}

/// All channels one.
pub fn white() -> (c: Color)
    ensures
        c == (Color { red: FX_ONE as i64, green: FX_ONE as i64, blue: FX_ONE as i64 }),
{
    Color { red: FX_ONE, green: FX_ONE, blue: FX_ONE }
}

} // verus!
