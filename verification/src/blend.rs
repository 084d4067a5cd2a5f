//! Blend state, color write masks and color targets of a render pipeline.

use vstd::prelude::*;
use crate::texture::TextureFormat;

verus! {

/// Alpha blend factor.
///
/// Each variant carries a fixed small-integer tag, reported by
/// [`BlendFactor::tag`]; the tags are a stable serialized contract.
#[derive(Clone, Copy, Debug, PartialEq, Eq, Hash, Structural)]
pub enum BlendFactor {
    Zero,
    One,
    SrcColor,
    OneMinusSrcColor,
    SrcAlpha,
    OneMinusSrcAlpha,
    DstColor,
    OneMinusDstColor,
    DstAlpha,
    OneMinusDstAlpha,
    SrcAlphaSaturated,
    BlendColor,
    OneMinusBlendColor,
}

impl BlendFactor {
    /// The fixed wire tag of each variant.
    pub open spec fn tag_spec(self) -> u8 {
        match self {
            BlendFactor::Zero => 0,
            BlendFactor::One => 1,
            BlendFactor::SrcColor => 2,
            BlendFactor::OneMinusSrcColor => 3,
            BlendFactor::SrcAlpha => 4,
            BlendFactor::OneMinusSrcAlpha => 5,
            BlendFactor::DstColor => 6,
            BlendFactor::OneMinusDstColor => 7,
            BlendFactor::DstAlpha => 8,
            BlendFactor::OneMinusDstAlpha => 9,
            BlendFactor::SrcAlphaSaturated => 10,
            BlendFactor::BlendColor => 11,
            BlendFactor::OneMinusBlendColor => 12,
        }
    }

    /// The variant with a given wire tag, if any.
    pub open spec fn from_tag_spec(tag: u8) -> Option<BlendFactor> {
        match tag {
            0u8 => Some(BlendFactor::Zero),
            1u8 => Some(BlendFactor::One),
            2u8 => Some(BlendFactor::SrcColor),
            3u8 => Some(BlendFactor::OneMinusSrcColor),
            4u8 => Some(BlendFactor::SrcAlpha),
            5u8 => Some(BlendFactor::OneMinusSrcAlpha),
            6u8 => Some(BlendFactor::DstColor),
            7u8 => Some(BlendFactor::OneMinusDstColor),
            8u8 => Some(BlendFactor::DstAlpha),
            9u8 => Some(BlendFactor::OneMinusDstAlpha),
            10u8 => Some(BlendFactor::SrcAlphaSaturated),
            11u8 => Some(BlendFactor::BlendColor),
            12u8 => Some(BlendFactor::OneMinusBlendColor),
            _ => None,
        }
    }

    /// Returns the fixed wire tag of this variant.
    pub fn tag(self) -> (r: u8)
        ensures
            r == self.tag_spec(),
    {
        match self {
            BlendFactor::Zero => 0,
            BlendFactor::One => 1,
            BlendFactor::SrcColor => 2,
            BlendFactor::OneMinusSrcColor => 3,
            BlendFactor::SrcAlpha => 4,
            BlendFactor::OneMinusSrcAlpha => 5,
            BlendFactor::DstColor => 6,
            BlendFactor::OneMinusDstColor => 7,
            BlendFactor::DstAlpha => 8,
            BlendFactor::OneMinusDstAlpha => 9,
            BlendFactor::SrcAlphaSaturated => 10,
            BlendFactor::BlendColor => 11,
            BlendFactor::OneMinusBlendColor => 12,
        }
    }

    /// Decodes a wire tag back into a blend factor.
    pub fn from_tag(tag: u8) -> (r: Option<BlendFactor>)
        ensures
            r == BlendFactor::from_tag_spec(tag),
    {
        match tag {
            0u8 => Some(BlendFactor::Zero),
            1u8 => Some(BlendFactor::One),
            2u8 => Some(BlendFactor::SrcColor),
            3u8 => Some(BlendFactor::OneMinusSrcColor),
            4u8 => Some(BlendFactor::SrcAlpha),
            5u8 => Some(BlendFactor::OneMinusSrcAlpha),
            6u8 => Some(BlendFactor::DstColor),
            7u8 => Some(BlendFactor::OneMinusDstColor),
            8u8 => Some(BlendFactor::DstAlpha),
            9u8 => Some(BlendFactor::OneMinusDstAlpha),
            10u8 => Some(BlendFactor::SrcAlphaSaturated),
            11u8 => Some(BlendFactor::BlendColor),
            12u8 => Some(BlendFactor::OneMinusBlendColor),
            _ => None,
        }
    }
}

/// Tags identify variants uniquely: decoding a variant's tag gives the
/// variant back, so no two variants share a tag.
pub proof fn lemma_blend_factor_tag_injective(a: BlendFactor, b: BlendFactor)
    ensures
        BlendFactor::from_tag_spec(a.tag_spec()) == Some(a),
        a.tag_spec() == b.tag_spec() ==> a == b,
{
}

/// Alpha blend operation.
///
/// Each variant carries a fixed small-integer tag, reported by
/// [`BlendOperation::tag`]; the tags are a stable serialized contract.
#[derive(Clone, Copy, Debug, PartialEq, Eq, Hash, Structural)]
pub enum BlendOperation {
    Add,
    Subtract,
    ReverseSubtract,
    Min,
    Max,
}

impl BlendOperation {
    /// The fixed wire tag of each variant.
    pub open spec fn tag_spec(self) -> u8 {
        match self {
            BlendOperation::Add => 0,
            BlendOperation::Subtract => 1,
            BlendOperation::ReverseSubtract => 2,
            BlendOperation::Min => 3,
            BlendOperation::Max => 4,
        }
    }

    /// The variant with a given wire tag, if any.
    pub open spec fn from_tag_spec(tag: u8) -> Option<BlendOperation> {
        match tag {
            0u8 => Some(BlendOperation::Add),
            1u8 => Some(BlendOperation::Subtract),
            2u8 => Some(BlendOperation::ReverseSubtract),
            3u8 => Some(BlendOperation::Min),
            4u8 => Some(BlendOperation::Max),
            _ => None,
        }
    }

    /// Returns the fixed wire tag of this variant.
    pub fn tag(self) -> (r: u8)
        ensures
            r == self.tag_spec(),
    {
        match self {
            BlendOperation::Add => 0,
            BlendOperation::Subtract => 1,
            BlendOperation::ReverseSubtract => 2,
            BlendOperation::Min => 3,
            BlendOperation::Max => 4,
        }
    }

    /// Decodes a wire tag back into a blend operation.
    pub fn from_tag(tag: u8) -> (r: Option<BlendOperation>)
        ensures
            r == BlendOperation::from_tag_spec(tag),
    {
        match tag {
            0u8 => Some(BlendOperation::Add),
            1u8 => Some(BlendOperation::Subtract),
            2u8 => Some(BlendOperation::ReverseSubtract),
            3u8 => Some(BlendOperation::Min),
            4u8 => Some(BlendOperation::Max),
            _ => None,
        }
    }
}

/// Tags identify variants uniquely: decoding a variant's tag gives the
/// variant back, so no two variants share a tag.
pub proof fn lemma_blend_operation_tag_injective(a: BlendOperation, b: BlendOperation)
    ensures
        BlendOperation::from_tag_spec(a.tag_spec()) == Some(a),
        a.tag_spec() == b.tag_spec() ==> a == b,
{
}

impl Default for BlendOperation {
    fn default() -> (r: BlendOperation)
        ensures
            r == BlendOperation::Add,
    {
        BlendOperation::Add
    }
}

/// Describes the blend state of a pipeline.
#[derive(Clone, Copy, Debug, PartialEq, Eq, Hash, Structural)]
pub struct BlendDescriptor {
    pub src_factor: BlendFactor,
    pub dst_factor: BlendFactor,
    pub operation: BlendOperation,
}

impl BlendDescriptor {
    /// Whether drawing with this blend state needs a constant blend color to
    /// be supplied: true iff either factor refers to the blend color.
    pub open spec fn uses_color_spec(self) -> bool {
        ||| self.src_factor == BlendFactor::BlendColor
        ||| self.src_factor == BlendFactor::OneMinusBlendColor
        ||| self.dst_factor == BlendFactor::BlendColor
        ||| self.dst_factor == BlendFactor::OneMinusBlendColor
    }

    /// The blend state that replaces the destination with the source.
    pub fn replace() -> (r: BlendDescriptor)
        ensures
            r == (BlendDescriptor {
                src_factor: BlendFactor::One,
                dst_factor: BlendFactor::Zero,
                operation: BlendOperation::Add,
            }),
    {
        BlendDescriptor {
            src_factor: BlendFactor::One,
            dst_factor: BlendFactor::Zero,
            operation: BlendOperation::Add,
        }
    }

    /// Returns whether drawing with this blend state needs a constant blend
    /// color to be supplied.
    pub fn uses_color(&self) -> (r: bool)
        ensures
            r == self.uses_color_spec(),
    {
        match (self.src_factor, self.dst_factor) {
            (BlendFactor::BlendColor, _)
            | (BlendFactor::OneMinusBlendColor, _)
            | (_, BlendFactor::BlendColor)
            | (_, BlendFactor::OneMinusBlendColor) => true,
            (_, _) => false,
        }
    }
}

impl Default for BlendDescriptor {
    /// The replacing blend state.
    fn default() -> (r: BlendDescriptor)
        ensures
            r == (BlendDescriptor {
                src_factor: BlendFactor::One,
                dst_factor: BlendFactor::Zero,
                operation: BlendOperation::Add,
            }),
    {
        BlendDescriptor {
            src_factor: BlendFactor::One,
            dst_factor: BlendFactor::Zero,
            operation: BlendOperation::Add,
        }
    }
}

/// Color write mask: disabled color channels are not written to.
#[derive(Clone, Copy, Debug, PartialEq, Eq, Hash, Structural)]
pub struct ColorWrite {
    /// One bit per channel; see the constructors for the bit values.
    pub bits: u32,
}

impl ColorWrite {
    /// No channel writes enabled.
    pub fn empty() -> (r: ColorWrite)
        ensures
            r.bits == 0u32,
    {
        ColorWrite { bits: 0 }
    }

    /// Enable red channel writes.
    pub fn red() -> (r: ColorWrite)
        ensures
            r.bits == 0x1u32,
    {
        ColorWrite { bits: 0x1 }
    }

    /// Enable green channel writes.
    pub fn green() -> (r: ColorWrite)
        ensures
            r.bits == 0x2u32,
    {
        ColorWrite { bits: 0x2 }
    }

    /// Enable blue channel writes.
    pub fn blue() -> (r: ColorWrite)
        ensures
            r.bits == 0x4u32,
    {
        ColorWrite { bits: 0x4 }
    }

    /// Enable alpha channel writes.
    pub fn alpha() -> (r: ColorWrite)
        ensures
            r.bits == 0x8u32,
    {
        ColorWrite { bits: 0x8 }
    }

    /// Enable red, green and blue channel writes.
    pub fn color() -> (r: ColorWrite)
        ensures
            r.bits == 0x7u32,
    {
        ColorWrite { bits: 0x7 }
    }

    /// Enable writes to all channels.
    pub fn all() -> (r: ColorWrite)
        ensures
            r.bits == 0xFu32,
    {
        ColorWrite { bits: 0xF }
    }

    /// Returns the union of the two masks.
    pub fn union(self, other: ColorWrite) -> (r: ColorWrite)
        ensures
            r.bits == self.bits | other.bits,
    {
        ColorWrite { bits: self.bits | other.bits }
    }

    /// Returns whether every channel of `other` is also in `self`.
    pub fn contains(self, other: ColorWrite) -> (r: bool)
        ensures
            r == (self.bits & other.bits == other.bits),
    {
        self.bits & other.bits == other.bits
    }
}

impl Default for ColorWrite {
    /// Writes to all channels enabled.
    fn default() -> (r: ColorWrite)
        ensures
            r.bits == 0xFu32,
    {
        ColorWrite { bits: 0xF }
    }
}

/// Describes the color state of a render pipeline for one color target.
#[derive(Clone, Copy, Debug, PartialEq, Eq, Hash, Structural)]
pub struct ColorStateDescriptor {
    /// The format of the image this pipeline renders to; it must match the
    /// format of the corresponding color attachment.
    pub format: TextureFormat,
    /// The alpha blending used for this pipeline.
    pub alpha_blend: BlendDescriptor,
    /// The color blending used for this pipeline.
    pub color_blend: BlendDescriptor,
    /// Mask which enables or disables writes to the color and alpha
    /// channels.
    pub write_mask: ColorWrite,
}

/// An RGBA double-precision color.
///
/// The four channels are IEEE-754 double-precision values carried as their
/// raw 64-bit patterns; this layer never interprets them, it only hands them
/// through to the backend. `0x3FF0_0000_0000_0000` is the pattern of one.
#[derive(Clone, Copy, Debug, PartialEq, Eq, Hash, Structural)]
pub struct Color {
    pub r: u64,
    pub g: u64,
    pub b: u64,
    pub a: u64,
}

impl Color {
    /// Fully transparent black: every channel zero.
    pub fn transparent() -> (c: Color)
        ensures
            c == (Color { r: 0u64, g: 0u64, b: 0u64, a: 0u64 }),
    {
        Color { r: 0, g: 0, b: 0, a: 0 }
    }

    /// Opaque black: zero color channels, alpha one.
    pub fn black() -> (c: Color)
        ensures
            c == (Color { r: 0u64, g: 0u64, b: 0u64, a: 0x3FF0_0000_0000_0000u64 }),
    {
        Color { r: 0, g: 0, b: 0, a: 0x3FF0_0000_0000_0000 }
    }

    /// Opaque white: every channel one.
    pub fn white() -> (c: Color)
        ensures
            c == (Color {
                r: 0x3FF0_0000_0000_0000u64,
                g: 0x3FF0_0000_0000_0000u64,
                b: 0x3FF0_0000_0000_0000u64,
                a: 0x3FF0_0000_0000_0000u64,
            }),
    {
        Color {
            r: 0x3FF0_0000_0000_0000,
            g: 0x3FF0_0000_0000_0000,
            b: 0x3FF0_0000_0000_0000,
            a: 0x3FF0_0000_0000_0000,
        }
    }

    /// Opaque red.
    pub fn red() -> (c: Color)
        ensures
            c == (Color {
                r: 0x3FF0_0000_0000_0000u64,
                g: 0u64,
                b: 0u64,
                a: 0x3FF0_0000_0000_0000u64,
            }),
    {
        Color { r: 0x3FF0_0000_0000_0000, g: 0, b: 0, a: 0x3FF0_0000_0000_0000 }
    }

    /// Opaque green.
    pub fn green() -> (c: Color)
        ensures
            c == (Color {
                r: 0u64,
                g: 0x3FF0_0000_0000_0000u64,
                b: 0u64,
                a: 0x3FF0_0000_0000_0000u64,
            }),
    {
        Color { r: 0, g: 0x3FF0_0000_0000_0000, b: 0, a: 0x3FF0_0000_0000_0000 }
    }

    /// Opaque blue.
    pub fn blue() -> (c: Color)
        ensures
            c == (Color {
                r: 0u64,
                g: 0u64,
                b: 0x3FF0_0000_0000_0000u64,
                a: 0x3FF0_0000_0000_0000u64,
            }),
    {
        Color { r: 0, g: 0, b: 0x3FF0_0000_0000_0000, a: 0x3FF0_0000_0000_0000 }
    }
}

} // verus!
