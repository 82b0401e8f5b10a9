//! Blend modes: per-channel source/destination factors and a combining
//! equation, composed with the render state at draw time, plus the catalog of
//! named presets.

use vstd::prelude::*;

verus! {

/// A multiplier applied to the source or destination channel before the two
/// are combined.
#[derive(Clone, Copy, PartialEq, Eq, Structural, Debug)]
pub enum BlendFactor {
    Zero,
    One,
    SourceColor,
    OneMinusSourceColor,
    DestinationColor,
    OneMinusDestinationColor,
    SourceAlpha,
    OneMinusSourceAlpha,
    DestinationAlpha,
    OneMinusDestinationAlpha,
}

/// How the weighted source and destination channels are combined.
#[derive(Clone, Copy, PartialEq, Eq, Structural, Debug)]
pub enum BlendEquation {
    Addition,
    Subtraction,
    ReverseSubtraction,
    Min,
    Max,
}

/// One channel's blend: an equation and the source/destination factor pair.
#[derive(Clone, Copy, PartialEq, Eq, Structural, Debug)]
pub struct ChannelBlend {
    pub equation: BlendEquation,
    pub source: BlendFactor,
    pub destination: BlendFactor,
}

/// A blend mode: independent color and alpha channel blends.
#[derive(Clone, Copy, PartialEq, Eq, Structural, Debug)]
pub struct BlendMode {
    pub color: ChannelBlend,
    pub alpha: ChannelBlend,
}

/// Overwrites the destination with the source.
pub open spec fn spec_replace() -> BlendMode {
    BlendMode {
        color: ChannelBlend {
            equation: BlendEquation::Addition,
            source: BlendFactor::One,
            destination: BlendFactor::Zero,
        },
        alpha: ChannelBlend {
            equation: BlendEquation::Addition,
            source: BlendFactor::One,
            destination: BlendFactor::Zero,
        },
    }
}

/// Draws the source over the destination weighted by source alpha.
pub open spec fn spec_alpha() -> BlendMode {
    BlendMode {
        color: ChannelBlend {
            equation: BlendEquation::Addition,
            source: BlendFactor::SourceAlpha,
            destination: BlendFactor::OneMinusSourceAlpha,
        },
        alpha: ChannelBlend {
            equation: BlendEquation::Addition,
            source: BlendFactor::One,
            destination: BlendFactor::OneMinusSourceAlpha,
        },
    }
}

/// Adds the alpha-weighted source onto the destination, lightening it.
pub open spec fn spec_lighten() -> BlendMode {
    BlendMode {
        color: ChannelBlend {
            equation: BlendEquation::Addition,
            source: BlendFactor::SourceAlpha,
            destination: BlendFactor::One,
        },
        alpha: ChannelBlend {
            equation: BlendEquation::Addition,
            source: BlendFactor::SourceAlpha,
            destination: BlendFactor::One,
        },
    }
}

/// Multiplies destination by source.
pub open spec fn spec_multiply() -> BlendMode {
    BlendMode {
        color: ChannelBlend {
            equation: BlendEquation::Addition,
            source: BlendFactor::DestinationColor,
            destination: BlendFactor::Zero,
        },
        alpha: ChannelBlend {
            equation: BlendEquation::Addition,
            source: BlendFactor::DestinationAlpha,
            destination: BlendFactor::Zero,
        },
    }
}

/// Screen blend: inverts, multiplies, inverts again; always lightens.
pub open spec fn spec_screen() -> BlendMode {
    BlendMode {
        color: ChannelBlend {
            equation: BlendEquation::Addition,
            source: BlendFactor::One,
            destination: BlendFactor::OneMinusSourceColor,
        },
        alpha: ChannelBlend {
            equation: BlendEquation::Addition,
            source: BlendFactor::One,
            destination: BlendFactor::OneMinusSourceAlpha,
        },
    }
}

/// Keeps the channel-wise maximum of source and destination.
pub open spec fn spec_brightest() -> BlendMode {
    BlendMode {
        color: ChannelBlend {
            equation: BlendEquation::Max,
            source: BlendFactor::One,
            destination: BlendFactor::One,
        },
        alpha: ChannelBlend {
            equation: BlendEquation::Max,
            source: BlendFactor::One,
            destination: BlendFactor::One,
        },
    }
}

/// Overwrites the destination with the source.
pub fn replace() -> (m: BlendMode)
    ensures
        m == spec_replace(),
{
    BlendMode {
        color: ChannelBlend {
            equation: BlendEquation::Addition,
            source: BlendFactor::One,
            destination: BlendFactor::Zero,
        },
        alpha: ChannelBlend {
            equation: BlendEquation::Addition,
            source: BlendFactor::One,
            destination: BlendFactor::Zero,
        },
    }
}

/// Draws the source over the destination weighted by source alpha.
pub fn alpha() -> (m: BlendMode)
    ensures
        m == spec_alpha(),
{
    BlendMode {
        color: ChannelBlend {
            equation: BlendEquation::Addition,
            source: BlendFactor::SourceAlpha,
            destination: BlendFactor::OneMinusSourceAlpha,
        },
        alpha: ChannelBlend {
            equation: BlendEquation::Addition,
            source: BlendFactor::One,
            destination: BlendFactor::OneMinusSourceAlpha,
        },
    }
}

/// Adds the alpha-weighted source onto the destination, lightening it.
pub fn lighten() -> (m: BlendMode)
    ensures
        m == spec_lighten(),
{
    BlendMode {
        color: ChannelBlend {
            equation: BlendEquation::Addition,
            source: BlendFactor::SourceAlpha,
            destination: BlendFactor::One,
        },
        alpha: ChannelBlend {
            equation: BlendEquation::Addition,
            source: BlendFactor::SourceAlpha,
            destination: BlendFactor::One,
        },
    }
}

/// Multiplies destination by source.
pub fn multiply() -> (m: BlendMode)
    ensures
        m == spec_multiply(),
{
    BlendMode {
        color: ChannelBlend {
            equation: BlendEquation::Addition,
            source: BlendFactor::DestinationColor,
            destination: BlendFactor::Zero,
        },
        alpha: ChannelBlend {
            equation: BlendEquation::Addition,
            source: BlendFactor::DestinationAlpha,
            destination: BlendFactor::Zero,
        },
    }
}

/// Screen blend: inverts, multiplies, inverts again; always lightens.
pub fn screen() -> (m: BlendMode)
    ensures
        m == spec_screen(),
{
    BlendMode {
        color: ChannelBlend {
            equation: BlendEquation::Addition,
            source: BlendFactor::One,
            destination: BlendFactor::OneMinusSourceColor,
        },
        alpha: ChannelBlend {
            equation: BlendEquation::Addition,
            source: BlendFactor::One,
            destination: BlendFactor::OneMinusSourceAlpha,
        },
    }
}

/// Keeps the channel-wise maximum of source and destination.
pub fn brightest() -> (m: BlendMode)
    ensures
        m == spec_brightest(),
{
    BlendMode {
        color: ChannelBlend {
            equation: BlendEquation::Max,
            source: BlendFactor::One,
            destination: BlendFactor::One,
        },
        alpha: ChannelBlend {
            equation: BlendEquation::Max,
            source: BlendFactor::One,
            destination: BlendFactor::One,
        },
    }
}

} // verus!
