use vstd::prelude::*;
use vstd::string::StringExecFns;
use crate::text::{append_decimal, decimal};

verus! {

/// An RGBA colour with one byte per channel: red, green, blue, alpha.
#[derive(Debug, Copy, Clone, PartialEq, Eq, Structural)]
pub struct Color(pub u8, pub u8, pub u8, pub u8);

/// Channel sum clamped to the byte range.
pub open spec fn sat_add(a: u8, b: u8) -> u8 {
    if a + b > 255 {
        255
    } else {
        (a + b) as u8
    }
}

/// Channel difference clamped at zero.
pub open spec fn sat_sub(a: u8, b: u8) -> u8 {
    if a < b {
        0
    } else {
        (a - b) as u8
    }
}

/// Product of two channels read as fractions of 255, requantised by
/// rounding down: `floor(a * b / 255)`.
pub open spec fn modulate(a: u8, b: u8) -> u8 {
    (a * b / 255) as u8
}

/// Channel-wise modulation of `c` by `d`, fully opaque.
pub open spec fn modulated(c: Color, d: Color) -> Color {
    Color(modulate(c.0, d.0), modulate(c.1, d.1), modulate(c.2, d.2), 255)
}

/// Channel-wise saturating sum, fully opaque.
pub open spec fn saturating_sum(c: Color, d: Color) -> Color {
    Color(sat_add(c.0, d.0), sat_add(c.1, d.1), sat_add(c.2, d.2), 255)
}

/// Channel-wise saturating difference, fully opaque.
pub open spec fn saturating_difference(c: Color, d: Color) -> Color {
    Color(sat_sub(c.0, d.0), sat_sub(c.1, d.1), sat_sub(c.2, d.2), 255)
}

/// The text of a colour in a plain PPM body: `"r g b\n"`.
pub open spec fn ppm_triple(c: Color) -> Seq<char> {
    decimal(c.0 as nat) + seq![' '] + decimal(c.1 as nat) + seq![' '] + decimal(c.2 as nat)
        + seq!['\n']
}

fn channel_add(a: u8, b: u8) -> (r: u8)
    ensures
        r == sat_add(a, b),
{
    if a > 255 - b {
        255
    } else {
        a + b
    }
}

fn channel_sub(a: u8, b: u8) -> (r: u8)
    ensures
        r == sat_sub(a, b),
{
    if a < b {
        0
    } else {
        a - b
    }
}

fn channel_modulate(a: u8, b: u8) -> (r: u8)
    ensures
        r == modulate(a, b),
{
    assert(a as int * b as int <= 255 * 255) by (nonlinear_arith)
        requires
            a <= 255,
            b <= 255,
    ;
    ((a as u16 * b as u16) / 255) as u8
}

impl Color {
    /// Opaque black: the colour of an absorbed ray.
    pub fn black() -> (c: Self)
        ensures
            c == Color(0, 0, 0, 255),
    {
        Self(0, 0, 0, 255)
    }

    /// Opaque white: the attenuation of a surface that absorbs nothing.
    pub fn white() -> (c: Self)
        ensures
            c == Color(255, 255, 255, 255),
    {
        Self(255, 255, 255, 255)
    }

    /// An opaque colour.
    pub fn rgb(r: u8, g: u8, b: u8) -> (c: Self)
        ensures
            c == Color(r, g, b, 255),
    {
        Self(r, g, b, 255)
    }

    /// A colour with the given alpha.
    pub fn rgba(r: u8, g: u8, b: u8, a: u8) -> (c: Self)
        ensures
            c == Color(r, g, b, a),
    {
        Self(r, g, b, a)
    }

    /// Red channel.
    pub fn r(&self) -> (v: u8)
        ensures
            v == self.0,
    {
        self.0
    }

    /// Green channel.
    pub fn g(&self) -> (v: u8)
        ensures
            v == self.1,
    {
        self.1
    }

    /// Blue channel.
    pub fn b(&self) -> (v: u8)
        ensures
            v == self.2,
    {
        self.2
    }

    /// Alpha channel.
    pub fn alpha(&self) -> (v: u8)
        ensures
            v == self.3,
    {
        self.3
    }

    /// The colour as one line of a plain PPM body, `"r g b\n"`.
    pub fn to_string(&self) -> (s: String)
        ensures
            s@ == ppm_triple(*self),
    {
        let mut s = String::new();
        append_decimal(&mut s, self.0 as u64);
        s.append(" ");
        append_decimal(&mut s, self.1 as u64);
        s.append(" ");
        append_decimal(&mut s, self.2 as u64);
        s.append("\n");
        proof {
            reveal_strlit(" ");
            reveal_strlit("\n");
            assert(s@ =~= ppm_triple(*self));
        }
        s
    }

    /// Modulates this colour by `col`, channel by channel, with both read as
    /// fractions of full intensity; the result is fully opaque.
    pub fn difuse(&self, col: &Color) -> (c: Self)
        ensures
            c == modulated(*self, *col),
    {
        Self(
            channel_modulate(self.0, col.0),
            channel_modulate(self.1, col.1),
            channel_modulate(self.2, col.2),
            255,
        )
    }

    /// Replaces the alpha channel.
    pub fn set_alpha(&mut self, alpha: u8)
        ensures
            *final(self) == Color(old(self).0, old(self).1, old(self).2, alpha),
    {
        self.3 = alpha;
    }

    /// The four channels in the order red, green, blue, alpha.
    pub fn as_bytes(&self) -> (b: [u8; 4])
        ensures
            b@ == seq![self.0, self.1, self.2, self.3],
    {
        let b = [self.0, self.1, self.2, self.3];
        assert(b@ =~= seq![self.0, self.1, self.2, self.3]);
        b
    }
}

impl Default for Color {
    /// Opaque black.
    fn default() -> (c: Color)
        ensures
            c == Color(0, 0, 0, 255),
    {
        Color(0, 0, 0, 255)
    }
}

impl core::ops::Add for Color {
    type Output = Color;

    /// Channel-wise sum that saturates at full intensity.
    fn add(self, other: Color) -> (c: Color) {
        Color(channel_add(self.0, other.0), channel_add(self.1, other.1), channel_add(self.2, other.2), 255)
    }
}

impl vstd::std_specs::ops::AddSpecImpl for Color {
    open spec fn obeys_add_spec() -> bool {
        true
    }

    open spec fn add_req(self, other: Color) -> bool {
        true
    }

    open spec fn add_spec(self, other: Color) -> Color {
        saturating_sum(self, other)
    }
}

impl core::ops::Sub for Color {
    type Output = Color;

    /// Channel-wise difference that saturates at zero.
    fn sub(self, other: Color) -> (c: Color) {
        Color(channel_sub(self.0, other.0), channel_sub(self.1, other.1), channel_sub(self.2, other.2), 255)
    }
}

impl vstd::std_specs::ops::SubSpecImpl for Color {
    open spec fn obeys_sub_spec() -> bool {
        true
    }

    open spec fn sub_req(self, other: Color) -> bool {
        true
    }

    open spec fn sub_spec(self, other: Color) -> Color {
        saturating_difference(self, other)
    }
}

impl core::ops::AddAssign for Color {
    /// In-place saturating sum; the result is fully opaque.
    fn add_assign(&mut self, other: Color)
        ensures
            *final(self) == saturating_sum(*old(self), other),
    {
        *self = Color(channel_add(self.0, other.0), channel_add(self.1, other.1), channel_add(self.2, other.2), 255);
    }
}

impl core::ops::SubAssign for Color {
    /// In-place saturating difference; the result is fully opaque.
    fn sub_assign(&mut self, other: Color)
        ensures
            *final(self) == saturating_difference(*old(self), other),
    {
        *self = Color(channel_sub(self.0, other.0), channel_sub(self.1, other.1), channel_sub(self.2, other.2), 255);
    }
}

} // verus!
