//! Blend-state description.
//!
//! A brush's fragment output is combined with the frame according to a
//! blend state: one component for the color channels and one for alpha,
//! each a pair of factors and an operation.  The named presets mirror the
//! usual compositing modes.

use vstd::prelude::*;

verus! {

/// Multiplier applied to a blend input.
#[derive(Clone, Copy, Debug, PartialEq, Eq, Structural)]
pub enum BlendFactor {
    Zero,
    One,
    SrcAlpha,
    OneMinusSrcAlpha,
    OneMinusSrc,
    OneMinusDst,
    Dst,
}

/// How the two multiplied inputs are combined.
#[derive(Clone, Copy, Debug, PartialEq, Eq, Structural)]
pub enum BlendOperation {
    Add,
}

/// One blend equation: `operation(src * src_factor, dst * dst_factor)`.
#[derive(Clone, Copy, Debug, PartialEq, Eq, Structural)]
pub struct BlendComponent {
    pub src_factor: BlendFactor,
    pub dst_factor: BlendFactor,
    pub operation: BlendOperation,
}

/// The full blend state: one component for color, one for alpha.
#[derive(Clone, Copy, Debug, PartialEq, Eq, Structural)]
pub struct BlendState {
    pub color: BlendComponent,
    pub alpha: BlendComponent,
}

/// Preset blend modes for the color channels.
#[derive(Clone, Copy, Debug, PartialEq, Eq, Structural)]
pub enum ColorBlend {
    Default,
    Premultiplied,
    Additive,
    SoftAdditive,
    Multiplied,
}

impl ColorBlend {
    /// The blend equation the preset stands for.
    pub open spec fn component_spec(&self) -> BlendComponent {
        match self {
            ColorBlend::Default => BlendComponent {
                src_factor: BlendFactor::SrcAlpha,
                dst_factor: BlendFactor::OneMinusSrcAlpha,
                operation: BlendOperation::Add,
            },
            ColorBlend::Premultiplied => BlendComponent {
                src_factor: BlendFactor::One,
                dst_factor: BlendFactor::OneMinusSrc,
                operation: BlendOperation::Add,
            },
            ColorBlend::Additive => BlendComponent {
                src_factor: BlendFactor::One,
                dst_factor: BlendFactor::One,
                operation: BlendOperation::Add,
            },
            ColorBlend::SoftAdditive => BlendComponent {
                src_factor: BlendFactor::OneMinusDst,
                dst_factor: BlendFactor::One,
                operation: BlendOperation::Add,
            },
            ColorBlend::Multiplied => BlendComponent {
                src_factor: BlendFactor::Dst,
                dst_factor: BlendFactor::Zero,
                operation: BlendOperation::Add,
            },
        }
    }

    /// The blend equation the preset stands for.
    pub fn component(&self) -> (c: BlendComponent)
        ensures
            c == self.component_spec(),
    {
        match self {
            ColorBlend::Default => BlendComponent {
                src_factor: BlendFactor::SrcAlpha,
                dst_factor: BlendFactor::OneMinusSrcAlpha,
                operation: BlendOperation::Add,
            },
            ColorBlend::Premultiplied => BlendComponent {
                src_factor: BlendFactor::One,
                dst_factor: BlendFactor::OneMinusSrc,
                operation: BlendOperation::Add,
            },
            ColorBlend::Additive => BlendComponent {
                src_factor: BlendFactor::One,
                dst_factor: BlendFactor::One,
                operation: BlendOperation::Add,
            },
            ColorBlend::SoftAdditive => BlendComponent {
                src_factor: BlendFactor::OneMinusDst,
                dst_factor: BlendFactor::One,
                operation: BlendOperation::Add,
            },
            ColorBlend::Multiplied => BlendComponent {
                src_factor: BlendFactor::Dst,
                dst_factor: BlendFactor::Zero,
                operation: BlendOperation::Add,
            },
        }
    }
}

/// Preset blend modes for the alpha channel.
#[derive(Clone, Copy, Debug, PartialEq, Eq, Structural)]
pub enum AlphaBlend {
    Default,
    Premultiplied,
    Additive,
    SoftAdditive,
    Multiplied,
}

impl AlphaBlend {
    /// The blend equation the preset stands for.
    pub open spec fn component_spec(&self) -> BlendComponent {
        match self {
            AlphaBlend::Default => BlendComponent {
                src_factor: BlendFactor::One,
                dst_factor: BlendFactor::Zero,
                operation: BlendOperation::Add,
            },
            AlphaBlend::Premultiplied => BlendComponent {
                src_factor: BlendFactor::One,
                dst_factor: BlendFactor::OneMinusSrcAlpha,
                operation: BlendOperation::Add,
            },
            AlphaBlend::Additive => BlendComponent {
                src_factor: BlendFactor::One,
                dst_factor: BlendFactor::One,
                operation: BlendOperation::Add,
            },
            AlphaBlend::SoftAdditive => BlendComponent {
                src_factor: BlendFactor::OneMinusDst,
                dst_factor: BlendFactor::One,
                operation: BlendOperation::Add,
            },
            AlphaBlend::Multiplied => BlendComponent {
                src_factor: BlendFactor::Dst,
                dst_factor: BlendFactor::Zero,
                operation: BlendOperation::Add,
            },
        }
    }

    /// The blend equation the preset stands for.
    pub fn component(&self) -> (c: BlendComponent)
        ensures
            c == self.component_spec(),
    {
        match self {
            AlphaBlend::Default => BlendComponent {
                src_factor: BlendFactor::One,
                dst_factor: BlendFactor::Zero,
                operation: BlendOperation::Add,
            },
            AlphaBlend::Premultiplied => BlendComponent {
                src_factor: BlendFactor::One,
                dst_factor: BlendFactor::OneMinusSrcAlpha,
                operation: BlendOperation::Add,
            },
            AlphaBlend::Additive => BlendComponent {
                src_factor: BlendFactor::One,
                dst_factor: BlendFactor::One,
                operation: BlendOperation::Add,
            },
            AlphaBlend::SoftAdditive => BlendComponent {
                src_factor: BlendFactor::OneMinusDst,
                dst_factor: BlendFactor::One,
                operation: BlendOperation::Add,
            },
            AlphaBlend::Multiplied => BlendComponent {
                src_factor: BlendFactor::Dst,
                dst_factor: BlendFactor::Zero,
                operation: BlendOperation::Add,
            },
        }
    }
}

} // verus!
