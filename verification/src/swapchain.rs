//! Swap chains: presentation to a surface.

use vstd::prelude::*;
use crate::texture::{TextureFormat, TextureUsage};

verus! {

/// Behavior of the presentation engine based on frame rate.
///
/// Each variant carries a fixed small-integer tag, reported by
/// [`PresentMode::tag`]; the tags are a stable serialized contract.
#[derive(Clone, Copy, Debug, PartialEq, Eq, Hash, Structural)]
pub enum PresentMode {
    /// The presentation engine does not wait for a vertical blanking period:
    /// low latency, but tearing may be observed. Falls back to `Fifo` where
    /// unavailable.
    Immediate,
    /// The presentation engine waits for the next vertical blanking period
    /// to update the image, but frames may be submitted without delay: low
    /// latency without tearing. Falls back to `Fifo` where unavailable.
    Mailbox,
    /// The presentation engine waits for the next vertical blanking period
    /// and caps the frame rate at the display refresh rate. Always
    /// supported.
    Fifo,
}

impl PresentMode {
    /// The fixed wire tag of each variant.
    pub open spec fn tag_spec(self) -> u8 {
        match self {
            PresentMode::Immediate => 0,
            PresentMode::Mailbox => 1,
            PresentMode::Fifo => 2,
        }
    }

    /// The variant with a given wire tag, if any.
    pub open spec fn from_tag_spec(tag: u8) -> Option<PresentMode> {
        match tag {
            0u8 => Some(PresentMode::Immediate),
            1u8 => Some(PresentMode::Mailbox),
            2u8 => Some(PresentMode::Fifo),
            _ => None,
        }
    }

    /// Returns the fixed wire tag of this variant.
    pub fn tag(self) -> (r: u8)
        ensures
            r == self.tag_spec(),
    {
        match self {
            PresentMode::Immediate => 0,
            PresentMode::Mailbox => 1,
            PresentMode::Fifo => 2,
        }
    }

    /// Decodes a wire tag back into a present mode.
    pub fn from_tag(tag: u8) -> (r: Option<PresentMode>)
        ensures
            r == PresentMode::from_tag_spec(tag),
    {
        match tag {
            0u8 => Some(PresentMode::Immediate),
            1u8 => Some(PresentMode::Mailbox),
            2u8 => Some(PresentMode::Fifo),
            _ => None,
        }
    }
}

/// Tags identify variants uniquely: decoding a variant's tag gives the
/// variant back, so no two variants share a tag.
pub proof fn lemma_present_mode_tag_injective(a: PresentMode, b: PresentMode)
    ensures
        PresentMode::from_tag_spec(a.tag_spec()) == Some(a),
        a.tag_spec() == b.tag_spec() ==> a == b,
{
}

/// Describes a swap chain.
#[derive(Clone, Copy, Debug, PartialEq, Eq, Hash, Structural)]
pub struct SwapChainDescriptor {
    /// The usage of the swap chain; the only supported usage is as an
    /// output attachment.
    pub usage: TextureUsage,
    /// The texture format of the swap chain.
    pub format: TextureFormat,
    /// Width of the swap chain; it must be the same size as the surface.
    pub width: u32,
    /// Height of the swap chain; it must be the same size as the surface.
    pub height: u32,
    /// Presentation mode of the swap chain.
    pub present_mode: PresentMode,
}

/// Status of a received swap chain image.
#[derive(Clone, Copy, Debug, PartialEq, Eq, Hash, Structural)]
pub enum SwapChainStatus {
    Good,
    Suboptimal,
    Timeout,
    Outdated,
    Lost,
}

} // verus!
