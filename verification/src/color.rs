//! Color values and the subtractive attenuation step applied when a ray
//! crosses a wall.

use vstd::prelude::*;

verus! {

/// An 8-bit RGBA color. Channel arithmetic elsewhere in the engine clamps to
/// `[0, 255]` and forces alpha to fully opaque, so no invariant is needed
/// beyond the field types themselves.
#[derive(Clone, Copy, PartialEq, Eq, Structural, Debug)]
pub struct Color {
    pub r: u8,
    pub g: u8,
    pub b: u8,
    pub a: u8,
}

/// One channel of the attenuation step: subtract, clamped at zero.
pub open spec fn channel_sub(x: u8, y: u8) -> u8 {
    if x >= y {
        (x - y) as u8
    } else {
        0
    }
}

/// What crossing an occluder does to a carried ray color: the occluder's
/// channels are subtracted from the ray's, clamped to the 8-bit range, and
/// alpha is reset to fully opaque. This is pure color attenuation, not
/// energy-conserving light physics.
pub open spec fn attenuate_spec(ray: Color, modifier: Color) -> Color {
    Color {
        r: channel_sub(ray.r, modifier.r),
        g: channel_sub(ray.g, modifier.g),
        b: channel_sub(ray.b, modifier.b),
        a: 255,
    }
}

impl Color {
    /// The sentinel "no occlusion" color: fully black, so that subtracting it
    /// leaves a ray's channels unchanged.
    pub open spec fn black_spec() -> Color {
        Color { r: 0, g: 0, b: 0, a: 255 }
    }

    /// Executable form of [`Color::black_spec`].
    pub fn black() -> (c: Color)
        ensures
            c == Color::black_spec(),
    {
        Color { r: 0, g: 0, b: 0, a: 255 }
    }
}

/// Subtract the modifier's channels from the carried ray color, per channel,
/// clamped to `[0, 255]`, with alpha forced to fully opaque.
pub fn attenuate(ray: &Color, modifier: &Color) -> (out: Color)
    ensures
        out == attenuate_spec(*ray, *modifier),
        out.a == 255,
        out.r <= ray.r,
        out.g <= ray.g,
        out.b <= ray.b,
{
    Color {
        r: if ray.r >= modifier.r {
            ray.r - modifier.r
        } else {
            0
        },
        g: if ray.g >= modifier.g {
            ray.g - modifier.g
        } else {
            0
        },
        b: if ray.b >= modifier.b {
            ray.b - modifier.b
        } else {
            0
        },
        a: 255,
    }
}

} // verus!
