//! Color values: four channel payloads (red, green, blue, alpha).
//!
//! Channels are opaque scalar payloads (see [`crate::scalar`]). Constructors
//! that require numeric work on a channel (color temperature, channel
//! scaling) live with the embedding application.

use vstd::prelude::*;
use crate::scalar::{Scalar, SCALAR_ONE, SCALAR_ZERO};

verus! {

/// A color as four channel payloads: red, green, blue, alpha. Used as a
/// multiplicator in the drawing process; channels are not clamped.
#[derive(Clone, Copy, PartialEq, Eq, Structural, Debug, Default)]
pub struct Color(pub Scalar, pub Scalar, pub Scalar, pub Scalar);

/// Opaque white, the neutral color multiplicator.
pub open spec fn spec_white() -> Color {
    Color(SCALAR_ONE, SCALAR_ONE, SCALAR_ONE, SCALAR_ONE)
}

impl Color {
    /// A color with all channels set to zero.
    pub fn transparent() -> (c: Color)
        ensures
            c == (Color(SCALAR_ZERO, SCALAR_ZERO, SCALAR_ZERO, SCALAR_ZERO)),
    {
        Color(SCALAR_ZERO, SCALAR_ZERO, SCALAR_ZERO, SCALAR_ZERO)
    }

    /// Color channels set to one, alpha set to the given value.
    pub fn alpha(alpha: Scalar) -> (c: Color)
        ensures
            c == (Color(SCALAR_ONE, SCALAR_ONE, SCALAR_ONE, alpha)),
    {
        Color(SCALAR_ONE, SCALAR_ONE, SCALAR_ONE, alpha)
    }

    /// Color channels set to zero, alpha set to the given value.
    pub fn alpha_mask(alpha: Scalar) -> (c: Color)
        ensures
            c == (Color(SCALAR_ZERO, SCALAR_ZERO, SCALAR_ZERO, alpha)),
    {
        Color(SCALAR_ZERO, SCALAR_ZERO, SCALAR_ZERO, alpha)
    }

    /// All four channels set to the given value (premultiplied-alpha form).
    pub fn alpha_pm(alpha: Scalar) -> (c: Color)
        ensures
            c == (Color(alpha, alpha, alpha, alpha)),
    {
        Color(alpha, alpha, alpha, alpha)
    }

    /// Color channels set to the given value, alpha set to one.
    pub fn lightness(value: Scalar) -> (c: Color)
        ensures
            c == (Color(value, value, value, SCALAR_ONE)),
    {
        Color(value, value, value, SCALAR_ONE)
    }

    /// The red channel.
    pub fn r(&self) -> (v: Scalar)
        ensures
            v == self.0,
    {
        self.0
    }

    /// The green channel.
    pub fn g(&self) -> (v: Scalar)
        ensures
            v == self.1,
    {
        self.1
    }

    /// The blue channel.
    pub fn b(&self) -> (v: Scalar)
        ensures
            v == self.2,
    {
        self.2
    }

    /// The alpha channel.
    pub fn a(&self) -> (v: Scalar)
        ensures
            v == self.3,
    {
        self.3
    }

    /// Copies all channels from another color.
    pub fn set(&mut self, value: Color)
        ensures
            *final(self) == value,
    {
        self.0 = value.0;
        self.1 = value.1;
        self.2 = value.2;
        self.3 = value.3;
    }

    /// Replaces the red channel, returning the updated color.
    pub fn set_r(&mut self, value: Scalar) -> (c: Color)
        ensures
            *final(self) == (Color(value, old(self).1, old(self).2, old(self).3)),
            c == *final(self),
    {
        self.0 = value;
        *self
    }

    /// Replaces the green channel, returning the updated color.
    pub fn set_g(&mut self, value: Scalar) -> (c: Color)
        ensures
            *final(self) == (Color(old(self).0, value, old(self).2, old(self).3)),
            c == *final(self),
    {
        self.1 = value;
        *self
    }

    /// Replaces the blue channel, returning the updated color.
    pub fn set_b(&mut self, value: Scalar) -> (c: Color)
        ensures
            *final(self) == (Color(old(self).0, old(self).1, value, old(self).3)),
            c == *final(self),
    {
        self.2 = value;
        *self
    }

    /// Replaces the alpha channel, returning the updated color.
    pub fn set_a(&mut self, value: Scalar) -> (c: Color)
        ensures
            *final(self) == (Color(old(self).0, old(self).1, old(self).2, value)),
            c == *final(self),
    {
        self.3 = value;
        *self
    }

    /// The four channels as a tuple.
    pub fn as_tuple(&self) -> (t: (Scalar, Scalar, Scalar, Scalar))
        ensures
            t == (self.0, self.1, self.2, self.3),
    {
        (self.0, self.1, self.2, self.3)
    }

    /// Opaque white.
    pub fn white() -> (c: Color)
        ensures
            c == spec_white(),
    {
        Color(SCALAR_ONE, SCALAR_ONE, SCALAR_ONE, SCALAR_ONE)
    }

    /// Opaque black.
    pub fn black() -> (c: Color)
        ensures
            c == (Color(SCALAR_ZERO, SCALAR_ZERO, SCALAR_ZERO, SCALAR_ONE)),
    {
        Color(SCALAR_ZERO, SCALAR_ZERO, SCALAR_ZERO, SCALAR_ONE)
    }

    /// Opaque red.
    pub fn red() -> (c: Color)
        ensures
            c == (Color(SCALAR_ONE, SCALAR_ZERO, SCALAR_ZERO, SCALAR_ONE)),
    {
        Color(SCALAR_ONE, SCALAR_ZERO, SCALAR_ZERO, SCALAR_ONE)
    }

    /// Opaque green.
    pub fn green() -> (c: Color)
        ensures
            c == (Color(SCALAR_ZERO, SCALAR_ONE, SCALAR_ZERO, SCALAR_ONE)),
    {
        Color(SCALAR_ZERO, SCALAR_ONE, SCALAR_ZERO, SCALAR_ONE)
    }

    /// Opaque blue.
    pub fn blue() -> (c: Color)
        ensures
            c == (Color(SCALAR_ZERO, SCALAR_ZERO, SCALAR_ONE, SCALAR_ONE)),
    {
        Color(SCALAR_ZERO, SCALAR_ZERO, SCALAR_ONE, SCALAR_ONE)
    }

    /// Opaque yellow.
    pub fn yellow() -> (c: Color)
        ensures
            c == (Color(SCALAR_ONE, SCALAR_ONE, SCALAR_ZERO, SCALAR_ONE)),
    {
        Color(SCALAR_ONE, SCALAR_ONE, SCALAR_ZERO, SCALAR_ONE)
    }

    /// Opaque cyan.
    pub fn cyan() -> (c: Color)
        ensures
            c == (Color(SCALAR_ZERO, SCALAR_ONE, SCALAR_ONE, SCALAR_ONE)),
    {
        Color(SCALAR_ZERO, SCALAR_ONE, SCALAR_ONE, SCALAR_ONE)
    }

    /// Opaque purple.
    pub fn purple() -> (c: Color)
        ensures
            c == (Color(SCALAR_ONE, SCALAR_ZERO, SCALAR_ONE, SCALAR_ONE)),
    {
        Color(SCALAR_ONE, SCALAR_ZERO, SCALAR_ONE, SCALAR_ONE)
    }
}

} // verus!
