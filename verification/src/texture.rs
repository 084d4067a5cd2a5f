//! Texture formats, their derived metadata, and texture descriptors.

use vstd::prelude::*;

verus! {

/// Underlying texture data format.
///
/// Each variant carries a fixed small-integer tag, reported by
/// [`TextureFormat::tag`]; the tags are a stable serialized contract and are
/// never renumbered. Every format has exactly one component type, given by
/// [`TextureComponentType::from`].
#[derive(Clone, Copy, Debug, PartialEq, Eq, Hash, Structural)]
pub enum TextureFormat {
    /// Red channel only. 8 bit integer per channel. [0, 255] converted to/from float [0, 1] in shader.
    R8Unorm,
    /// Red channel only. 8 bit integer per channel. [-127, 127] converted to/from float [-1, 1] in shader.
    R8Snorm,
    /// Red channel only. 8 bit integer per channel. Unsigned in shader.
    R8Uint,
    /// Red channel only. 8 bit integer per channel. Signed in shader.
    R8Sint,
    /// Red channel only. 16 bit integer per channel. Unsigned in shader.
    R16Uint,
    /// Red channel only. 16 bit integer per channel. Signed in shader.
    R16Sint,
    /// Red channel only. 16 bit float per channel. Float in shader.
    R16Float,
    /// Red and green channels. 8 bit integer per channel. [0, 255] converted to/from float [0, 1] in shader.
    Rg8Unorm,
    /// Red and green channels. 8 bit integer per channel. [-127, 127] converted to/from float [-1, 1] in shader.
    Rg8Snorm,
    /// Red and green channels. 8 bit integer per channel. Unsigned in shader.
    Rg8Uint,
    /// Red and green channels. 8 bit integer per channel. Signed in shader.
    Rg8Sint,
    /// Red channel only. 32 bit integer per channel. Unsigned in shader.
    R32Uint,
    /// Red channel only. 32 bit integer per channel. Signed in shader.
    R32Sint,
    /// Red channel only. 32 bit float per channel. Float in shader.
    R32Float,
    /// Red and green channels. 16 bit integer per channel. Unsigned in shader.
    Rg16Uint,
    /// Red and green channels. 16 bit integer per channel. Signed in shader.
    Rg16Sint,
    /// Red and green channels. 16 bit float per channel. Float in shader.
    Rg16Float,
    /// Red, green, blue, and alpha channels. 8 bit integer per channel. [0, 255] converted to/from float [0, 1] in shader.
    Rgba8Unorm,
    /// Red, green, blue, and alpha channels. 8 bit integer per channel. Srgb-color [0, 255] converted to/from linear-color float [0, 1] in shader.
    Rgba8UnormSrgb,
    /// Red, green, blue, and alpha channels. 8 bit integer per channel. [-127, 127] converted to/from float [-1, 1] in shader.
    Rgba8Snorm,
    /// Red, green, blue, and alpha channels. 8 bit integer per channel. Unsigned in shader.
    Rgba8Uint,
    /// Red, green, blue, and alpha channels. 8 bit integer per channel. Signed in shader.
    Rgba8Sint,
    /// Blue, green, red, and alpha channels. 8 bit integer per channel. [0, 255] converted to/from float [0, 1] in shader.
    Bgra8Unorm,
    /// Blue, green, red, and alpha channels. 8 bit integer per channel. Srgb-color [0, 255] converted to/from linear-color float [0, 1] in shader.
    Bgra8UnormSrgb,
    /// Red, green, blue, and alpha channels. 10 bit integer for RGB channels, 2 bit integer for alpha channel. [0, 1023] ([0, 3] for alpha) converted to/from float [0, 1] in shader.
    Rgb10a2Unorm,
    /// Red, green, and blue channels. 11 bit float with no sign bit for RG channels. 10 bit float with no sign bit for blue channel. Float in shader.
    Rg11b10Float,
    /// Red and green channels. 32 bit integer per channel. Unsigned in shader.
    Rg32Uint,
    /// Red and green channels. 32 bit integer per channel. Signed in shader.
    Rg32Sint,
    /// Red and green channels. 32 bit float per channel. Float in shader.
    Rg32Float,
    /// Red, green, blue, and alpha channels. 16 bit integer per channel. Unsigned in shader.
    Rgba16Uint,
    /// Red, green, blue, and alpha channels. 16 bit integer per channel. Signed in shader.
    Rgba16Sint,
    /// Red, green, blue, and alpha channels. 16 bit float per channel. Float in shader.
    Rgba16Float,
    /// Red, green, blue, and alpha channels. 32 bit integer per channel. Unsigned in shader.
    Rgba32Uint,
    /// Red, green, blue, and alpha channels. 32 bit integer per channel. Signed in shader.
    Rgba32Sint,
    /// Red, green, blue, and alpha channels. 32 bit float per channel. Float in shader.
    Rgba32Float,
    /// Special depth format with 32 bit floating point depth.
    Depth32Float,
    /// Special depth format with at least 24 bit integer depth.
    Depth24Plus,
    /// Special depth/stencil format with at least 24 bit integer depth and 8 bits integer stencil.
    Depth24PlusStencil8,
}

impl TextureFormat {
    /// The fixed wire tag of each format.
    pub open spec fn tag_spec(self) -> u16 {
        match self {
            TextureFormat::R8Unorm => 0,
            TextureFormat::R8Snorm => 1,
            TextureFormat::R8Uint => 2,
            TextureFormat::R8Sint => 3,
            TextureFormat::R16Uint => 4,
            TextureFormat::R16Sint => 5,
            TextureFormat::R16Float => 6,
            TextureFormat::Rg8Unorm => 7,
            TextureFormat::Rg8Snorm => 8,
            TextureFormat::Rg8Uint => 9,
            TextureFormat::Rg8Sint => 10,
            TextureFormat::R32Uint => 11,
            TextureFormat::R32Sint => 12,
            TextureFormat::R32Float => 13,
            TextureFormat::Rg16Uint => 14,
            TextureFormat::Rg16Sint => 15,
            TextureFormat::Rg16Float => 16,
            TextureFormat::Rgba8Unorm => 17,
            TextureFormat::Rgba8UnormSrgb => 18,
            TextureFormat::Rgba8Snorm => 19,
            TextureFormat::Rgba8Uint => 20,
            TextureFormat::Rgba8Sint => 21,
            TextureFormat::Bgra8Unorm => 22,
            TextureFormat::Bgra8UnormSrgb => 23,
            TextureFormat::Rgb10a2Unorm => 24,
            TextureFormat::Rg11b10Float => 25,
            TextureFormat::Rg32Uint => 26,
            TextureFormat::Rg32Sint => 27,
            TextureFormat::Rg32Float => 28,
            TextureFormat::Rgba16Uint => 29,
            TextureFormat::Rgba16Sint => 30,
            TextureFormat::Rgba16Float => 31,
            TextureFormat::Rgba32Uint => 32,
            TextureFormat::Rgba32Sint => 33,
            TextureFormat::Rgba32Float => 34,
            TextureFormat::Depth32Float => 35,
            TextureFormat::Depth24Plus => 36,
            TextureFormat::Depth24PlusStencil8 => 37,
        }
    }

    /// The format with a given wire tag, if any.
    pub open spec fn from_tag_spec(tag: u16) -> Option<TextureFormat> {
        match tag {
            0u16 => Some(TextureFormat::R8Unorm),
            1u16 => Some(TextureFormat::R8Snorm),
            2u16 => Some(TextureFormat::R8Uint),
            3u16 => Some(TextureFormat::R8Sint),
            4u16 => Some(TextureFormat::R16Uint),
            5u16 => Some(TextureFormat::R16Sint),
            6u16 => Some(TextureFormat::R16Float),
            7u16 => Some(TextureFormat::Rg8Unorm),
            8u16 => Some(TextureFormat::Rg8Snorm),
            9u16 => Some(TextureFormat::Rg8Uint),
            10u16 => Some(TextureFormat::Rg8Sint),
            11u16 => Some(TextureFormat::R32Uint),
            12u16 => Some(TextureFormat::R32Sint),
            13u16 => Some(TextureFormat::R32Float),
            14u16 => Some(TextureFormat::Rg16Uint),
            15u16 => Some(TextureFormat::Rg16Sint),
            16u16 => Some(TextureFormat::Rg16Float),
            17u16 => Some(TextureFormat::Rgba8Unorm),
            18u16 => Some(TextureFormat::Rgba8UnormSrgb),
            19u16 => Some(TextureFormat::Rgba8Snorm),
            20u16 => Some(TextureFormat::Rgba8Uint),
            21u16 => Some(TextureFormat::Rgba8Sint),
            22u16 => Some(TextureFormat::Bgra8Unorm),
            23u16 => Some(TextureFormat::Bgra8UnormSrgb),
            24u16 => Some(TextureFormat::Rgb10a2Unorm),
            25u16 => Some(TextureFormat::Rg11b10Float),
            26u16 => Some(TextureFormat::Rg32Uint),
            27u16 => Some(TextureFormat::Rg32Sint),
            28u16 => Some(TextureFormat::Rg32Float),
            29u16 => Some(TextureFormat::Rgba16Uint),
            30u16 => Some(TextureFormat::Rgba16Sint),
            31u16 => Some(TextureFormat::Rgba16Float),
            32u16 => Some(TextureFormat::Rgba32Uint),
            33u16 => Some(TextureFormat::Rgba32Sint),
            34u16 => Some(TextureFormat::Rgba32Float),
            35u16 => Some(TextureFormat::Depth32Float),
            36u16 => Some(TextureFormat::Depth24Plus),
            37u16 => Some(TextureFormat::Depth24PlusStencil8),
            _ => None,
        }
    }

    /// Returns the fixed wire tag of this format.
    pub fn tag(self) -> (r: u16)
        ensures
            r == self.tag_spec(),
    {
        match self {
            TextureFormat::R8Unorm => 0,
            TextureFormat::R8Snorm => 1,
            TextureFormat::R8Uint => 2,
            TextureFormat::R8Sint => 3,
            TextureFormat::R16Uint => 4,
            TextureFormat::R16Sint => 5,
            TextureFormat::R16Float => 6,
            TextureFormat::Rg8Unorm => 7,
            TextureFormat::Rg8Snorm => 8,
            TextureFormat::Rg8Uint => 9,
            TextureFormat::Rg8Sint => 10,
            TextureFormat::R32Uint => 11,
            TextureFormat::R32Sint => 12,
            TextureFormat::R32Float => 13,
            TextureFormat::Rg16Uint => 14,
            TextureFormat::Rg16Sint => 15,
            TextureFormat::Rg16Float => 16,
            TextureFormat::Rgba8Unorm => 17,
            TextureFormat::Rgba8UnormSrgb => 18,
            TextureFormat::Rgba8Snorm => 19,
            TextureFormat::Rgba8Uint => 20,
            TextureFormat::Rgba8Sint => 21,
            TextureFormat::Bgra8Unorm => 22,
            TextureFormat::Bgra8UnormSrgb => 23,
            TextureFormat::Rgb10a2Unorm => 24,
            TextureFormat::Rg11b10Float => 25,
            TextureFormat::Rg32Uint => 26,
            TextureFormat::Rg32Sint => 27,
            TextureFormat::Rg32Float => 28,
            TextureFormat::Rgba16Uint => 29,
            TextureFormat::Rgba16Sint => 30,
            TextureFormat::Rgba16Float => 31,
            TextureFormat::Rgba32Uint => 32,
            TextureFormat::Rgba32Sint => 33,
            TextureFormat::Rgba32Float => 34,
            TextureFormat::Depth32Float => 35,
            TextureFormat::Depth24Plus => 36,
            TextureFormat::Depth24PlusStencil8 => 37,
        }
    }

    /// Decodes a wire tag back into a format.
    pub fn from_tag(tag: u16) -> (r: Option<TextureFormat>)
        ensures
            r == TextureFormat::from_tag_spec(tag),
    {
        match tag {
            0u16 => Some(TextureFormat::R8Unorm),
            1u16 => Some(TextureFormat::R8Snorm),
            2u16 => Some(TextureFormat::R8Uint),
            3u16 => Some(TextureFormat::R8Sint),
            4u16 => Some(TextureFormat::R16Uint),
            5u16 => Some(TextureFormat::R16Sint),
            6u16 => Some(TextureFormat::R16Float),
            7u16 => Some(TextureFormat::Rg8Unorm),
            8u16 => Some(TextureFormat::Rg8Snorm),
            9u16 => Some(TextureFormat::Rg8Uint),
            10u16 => Some(TextureFormat::Rg8Sint),
            11u16 => Some(TextureFormat::R32Uint),
            12u16 => Some(TextureFormat::R32Sint),
            13u16 => Some(TextureFormat::R32Float),
            14u16 => Some(TextureFormat::Rg16Uint),
            15u16 => Some(TextureFormat::Rg16Sint),
            16u16 => Some(TextureFormat::Rg16Float),
            17u16 => Some(TextureFormat::Rgba8Unorm),
            18u16 => Some(TextureFormat::Rgba8UnormSrgb),
            19u16 => Some(TextureFormat::Rgba8Snorm),
            20u16 => Some(TextureFormat::Rgba8Uint),
            21u16 => Some(TextureFormat::Rgba8Sint),
            22u16 => Some(TextureFormat::Bgra8Unorm),
            23u16 => Some(TextureFormat::Bgra8UnormSrgb),
            24u16 => Some(TextureFormat::Rgb10a2Unorm),
            25u16 => Some(TextureFormat::Rg11b10Float),
            26u16 => Some(TextureFormat::Rg32Uint),
            27u16 => Some(TextureFormat::Rg32Sint),
            28u16 => Some(TextureFormat::Rg32Float),
            29u16 => Some(TextureFormat::Rgba16Uint),
            30u16 => Some(TextureFormat::Rgba16Sint),
            31u16 => Some(TextureFormat::Rgba16Float),
            32u16 => Some(TextureFormat::Rgba32Uint),
            33u16 => Some(TextureFormat::Rgba32Sint),
            34u16 => Some(TextureFormat::Rgba32Float),
            35u16 => Some(TextureFormat::Depth32Float),
            36u16 => Some(TextureFormat::Depth24Plus),
            37u16 => Some(TextureFormat::Depth24PlusStencil8),
            _ => None,
        }
    }
}

/// Tags identify texture formats uniquely: decoding a format's tag gives the
/// format back, so no two formats share a tag.
pub proof fn lemma_texture_format_tag_injective(a: TextureFormat, b: TextureFormat)
    ensures
        TextureFormat::from_tag_spec(a.tag_spec()) == Some(a),
        a.tag_spec() == b.tag_spec() ==> a == b,
{
}

/// The type of data shaders read from a texture of a given format.
#[derive(Clone, Copy, Debug, PartialEq, Eq, Hash, Structural)]
pub enum TextureComponentType {
    /// Shaders see the texel as a floating point number.
    Float,
    /// Shaders see the texel as a signed integer.
    Sint,
    /// Shaders see the texel as an unsigned integer.
    Uint,
}

/// The one component type of each texture format. Total: every format is
/// assigned exactly one of the three interpretations.
pub open spec fn component_type_spec(format: TextureFormat) -> TextureComponentType {
    match format {
            TextureFormat::R8Unorm => TextureComponentType::Float,
            TextureFormat::R8Snorm => TextureComponentType::Float,
            TextureFormat::R8Uint => TextureComponentType::Uint,
            TextureFormat::R8Sint => TextureComponentType::Sint,
            TextureFormat::R16Uint => TextureComponentType::Uint,
            TextureFormat::R16Sint => TextureComponentType::Sint,
            TextureFormat::R16Float => TextureComponentType::Float,
            TextureFormat::Rg8Unorm => TextureComponentType::Float,
            TextureFormat::Rg8Snorm => TextureComponentType::Float,
            TextureFormat::Rg8Uint => TextureComponentType::Uint,
            TextureFormat::Rg8Sint => TextureComponentType::Sint,
            TextureFormat::R32Uint => TextureComponentType::Uint,
            TextureFormat::R32Sint => TextureComponentType::Sint,
            TextureFormat::R32Float => TextureComponentType::Float,
            TextureFormat::Rg16Uint => TextureComponentType::Uint,
            TextureFormat::Rg16Sint => TextureComponentType::Sint,
            TextureFormat::Rg16Float => TextureComponentType::Float,
            TextureFormat::Rgba8Unorm => TextureComponentType::Float,
            TextureFormat::Rgba8UnormSrgb => TextureComponentType::Float,
            TextureFormat::Rgba8Snorm => TextureComponentType::Float,
            TextureFormat::Rgba8Uint => TextureComponentType::Uint,
            TextureFormat::Rgba8Sint => TextureComponentType::Sint,
            TextureFormat::Bgra8Unorm => TextureComponentType::Float,
            TextureFormat::Bgra8UnormSrgb => TextureComponentType::Float,
            TextureFormat::Rgb10a2Unorm => TextureComponentType::Float,
            TextureFormat::Rg11b10Float => TextureComponentType::Float,
            TextureFormat::Rg32Uint => TextureComponentType::Uint,
            TextureFormat::Rg32Sint => TextureComponentType::Sint,
            TextureFormat::Rg32Float => TextureComponentType::Float,
            TextureFormat::Rgba16Uint => TextureComponentType::Uint,
            TextureFormat::Rgba16Sint => TextureComponentType::Sint,
            TextureFormat::Rgba16Float => TextureComponentType::Float,
            TextureFormat::Rgba32Uint => TextureComponentType::Uint,
            TextureFormat::Rgba32Sint => TextureComponentType::Sint,
            TextureFormat::Rgba32Float => TextureComponentType::Float,
            TextureFormat::Depth32Float => TextureComponentType::Float,
            TextureFormat::Depth24Plus => TextureComponentType::Float,
            TextureFormat::Depth24PlusStencil8 => TextureComponentType::Float,
    }
}

impl From<TextureFormat> for TextureComponentType {
    /// The component type a shader sees for the given format.
    fn from(format: TextureFormat) -> (r: TextureComponentType)
        ensures
            r == component_type_spec(format),
    {
        match format {
            TextureFormat::R8Unorm => TextureComponentType::Float,
            TextureFormat::R8Snorm => TextureComponentType::Float,
            TextureFormat::R8Uint => TextureComponentType::Uint,
            TextureFormat::R8Sint => TextureComponentType::Sint,
            TextureFormat::R16Uint => TextureComponentType::Uint,
            TextureFormat::R16Sint => TextureComponentType::Sint,
            TextureFormat::R16Float => TextureComponentType::Float,
            TextureFormat::Rg8Unorm => TextureComponentType::Float,
            TextureFormat::Rg8Snorm => TextureComponentType::Float,
            TextureFormat::Rg8Uint => TextureComponentType::Uint,
            TextureFormat::Rg8Sint => TextureComponentType::Sint,
            TextureFormat::R32Uint => TextureComponentType::Uint,
            TextureFormat::R32Sint => TextureComponentType::Sint,
            TextureFormat::R32Float => TextureComponentType::Float,
            TextureFormat::Rg16Uint => TextureComponentType::Uint,
            TextureFormat::Rg16Sint => TextureComponentType::Sint,
            TextureFormat::Rg16Float => TextureComponentType::Float,
            TextureFormat::Rgba8Unorm => TextureComponentType::Float,
            TextureFormat::Rgba8UnormSrgb => TextureComponentType::Float,
            TextureFormat::Rgba8Snorm => TextureComponentType::Float,
            TextureFormat::Rgba8Uint => TextureComponentType::Uint,
            TextureFormat::Rgba8Sint => TextureComponentType::Sint,
            TextureFormat::Bgra8Unorm => TextureComponentType::Float,
            TextureFormat::Bgra8UnormSrgb => TextureComponentType::Float,
            TextureFormat::Rgb10a2Unorm => TextureComponentType::Float,
            TextureFormat::Rg11b10Float => TextureComponentType::Float,
            TextureFormat::Rg32Uint => TextureComponentType::Uint,
            TextureFormat::Rg32Sint => TextureComponentType::Sint,
            TextureFormat::Rg32Float => TextureComponentType::Float,
            TextureFormat::Rgba16Uint => TextureComponentType::Uint,
            TextureFormat::Rgba16Sint => TextureComponentType::Sint,
            TextureFormat::Rgba16Float => TextureComponentType::Float,
            TextureFormat::Rgba32Uint => TextureComponentType::Uint,
            TextureFormat::Rgba32Sint => TextureComponentType::Sint,
            TextureFormat::Rgba32Float => TextureComponentType::Float,
            TextureFormat::Depth32Float => TextureComponentType::Float,
            TextureFormat::Depth24Plus => TextureComponentType::Float,
            TextureFormat::Depth24PlusStencil8 => TextureComponentType::Float,
        }
    }
}

impl vstd::std_specs::convert::FromSpecImpl<TextureFormat> for TextureComponentType {
    open spec fn obeys_from_spec() -> bool {
        true
    }

    open spec fn from_spec(format: TextureFormat) -> TextureComponentType {
        component_type_spec(format)
    }
}

impl TextureComponentType {
    /// Returns whether a sampled-texture binding that declares this component
    /// type is compatible with a texture of the given format.
    pub fn is_compatible_with(self, format: TextureFormat) -> (r: bool)
        ensures
            r == (self == component_type_spec(format)),
    {
        let actual = TextureComponentType::from(format);
        match (self, actual) {
            (TextureComponentType::Float, TextureComponentType::Float) => true,
            (TextureComponentType::Sint, TextureComponentType::Sint) => true,
            (TextureComponentType::Uint, TextureComponentType::Uint) => true,
            _ => false,
        }
    }
}

/// Assigning component types is total and deterministic: every format has a
/// component type, and it is one of the three interpretations.
pub proof fn lemma_component_type_total(format: TextureFormat)
    ensures
        component_type_spec(format) == TextureComponentType::Float || component_type_spec(format)
            == TextureComponentType::Sint || component_type_spec(format)
            == TextureComponentType::Uint,
{
}


/// Different ways that a texture can be used.
///
/// The usages determine what kind of memory the texture is allocated from and
/// what actions the texture can partake in.
#[derive(Clone, Copy, Debug, PartialEq, Eq, Hash, Structural)]
pub struct TextureUsage {
    /// One bit per usage; see the constructors for the bit values.
    pub bits: u32,
}

impl TextureUsage {
    /// The empty usage set.
    pub fn empty() -> (r: TextureUsage)
        ensures
            r.bits == 0u32,
    {
        TextureUsage { bits: 0 }
    }

    /// The texture may be the source of a copy command.
    pub fn copy_src() -> (r: TextureUsage)
        ensures
            r.bits == 0x1u32,
    {
        TextureUsage { bits: 0x1 }
    }

    /// The texture may be the destination of a copy command or a queue write.
    pub fn copy_dst() -> (r: TextureUsage)
        ensures
            r.bits == 0x2u32,
    {
        TextureUsage { bits: 0x2 }
    }

    /// The texture may be a sampled-texture binding in a bind group.
    pub fn sampled() -> (r: TextureUsage)
        ensures
            r.bits == 0x4u32,
    {
        TextureUsage { bits: 0x4 }
    }

    /// The texture may be a storage-texture binding in a bind group.
    pub fn storage() -> (r: TextureUsage)
        ensures
            r.bits == 0x8u32,
    {
        TextureUsage { bits: 0x8 }
    }

    /// The texture may be an output attachment of a render pass.
    pub fn output_attachment() -> (r: TextureUsage)
        ensures
            r.bits == 0x10u32,
    {
        TextureUsage { bits: 0x10 }
    }

    /// Returns the union of the two usage sets.
    pub fn union(self, other: TextureUsage) -> (r: TextureUsage)
        ensures
            r.bits == self.bits | other.bits,
    {
        TextureUsage { bits: self.bits | other.bits }
    }

    /// Returns whether every usage of `other` is also in `self`.
    pub fn contains(self, other: TextureUsage) -> (r: bool)
        ensures
            r == (self.bits & other.bits == other.bits),
    {
        self.bits & other.bits == other.bits
    }
}

/// Dimensionality of a texture.
#[derive(Clone, Copy, Debug, PartialEq, Eq, Hash, Structural)]
pub enum TextureDimension {
    /// A one dimensional texture.
    D1,
    /// A two dimensional texture.
    D2,
    /// A three dimensional texture.
    D3,
}

/// Kind of data a texture view selects from its texture.
#[derive(Clone, Copy, Debug, PartialEq, Eq, Hash, Structural)]
pub enum TextureAspect {
    /// Depth, stencil and color.
    All,
    /// Stencil only.
    StencilOnly,
    /// Depth only.
    DepthOnly,
}

impl Default for TextureAspect {
    fn default() -> (r: TextureAspect)
        ensures
            r == TextureAspect::All,
    {
        TextureAspect::All
    }
}

/// Dimensions of a particular texture view.
#[derive(Clone, Copy, Debug, PartialEq, Eq, Hash, Structural)]
pub enum TextureViewDimension {
    /// A one dimensional texture view.
    D1,
    /// A two dimensional texture view.
    D2,
    /// A two dimensional array texture view.
    D2Array,
    /// A cubemap texture view.
    Cube,
    /// A cubemap array texture view.
    CubeArray,
    /// A three dimensional texture view.
    D3,
}

/// Origin of a copy to or from a texture.
#[derive(Clone, Copy, Debug, PartialEq, Eq, Hash, Structural)]
pub struct Origin3d {
    pub x: u32,
    pub y: u32,
    pub z: u32,
}

impl Origin3d {
    /// The zero origin.
    pub fn zero() -> (r: Origin3d)
        ensures
            r.x == 0u32 && r.y == 0u32 && r.z == 0u32,
    {
        Origin3d { x: 0, y: 0, z: 0 }
    }
}

impl Default for Origin3d {
    /// The zero origin.
    fn default() -> (r: Origin3d)
        ensures
            r.x == 0u32 && r.y == 0u32 && r.z == 0u32,
    {
        Origin3d { x: 0, y: 0, z: 0 }
    }
}

/// Extent of a texture-related operation.
#[derive(Clone, Copy, Debug, PartialEq, Eq, Hash, Structural)]
pub struct Extent3d {
    pub width: u32,
    pub height: u32,
    pub depth: u32,
}

/// Describes a texture to be created.
#[derive(Clone, Debug, PartialEq, Eq, Hash)]
pub struct TextureDescriptor<L> {
    /// Debug label of the texture, shown in graphics debuggers.
    pub label: L,
    /// Size of the texture. For a regular 1D/2D texture the unused sizes are
    /// 1; for 2D-array textures, `depth` is the number of 2D textures in the
    /// array.
    pub size: Extent3d,
    /// Mip count of the texture. A texture with no extra mips has 1.
    pub mip_level_count: u32,
    /// Sample count of the texture. Anything other than 1 makes the texture
    /// multisampled.
    pub sample_count: u32,
    /// Dimensions of the texture.
    pub dimension: TextureDimension,
    /// Format of the texture.
    pub format: TextureFormat,
    /// Allowed usages of the texture.
    pub usage: TextureUsage,
}

impl<L> TextureDescriptor<L> {
    /// The same descriptor with the given label in place of the old one and
    /// every other field unchanged.
    pub open spec fn with_label_spec<K>(self, label: K) -> TextureDescriptor<K> {
        TextureDescriptor {
            label,
            size: self.size,
            mip_level_count: self.mip_level_count,
            sample_count: self.sample_count,
            dimension: self.dimension,
            format: self.format,
            usage: self.usage,
        }
    }

    /// Rewrites the debug label through `fun`, leaving every other field
    /// untouched. This projection is the only sanctioned way to change the
    /// label representation of a descriptor.
    pub fn map_label<K, F: FnOnce(&L) -> K>(&self, fun: F) -> (r: TextureDescriptor<K>)
        requires
            call_requires(fun, (&self.label,)),
        ensures
            call_ensures(fun, (&self.label,), r.label),
            r == (*self).with_label_spec(r.label),
    {
        TextureDescriptor {
            label: fun(&self.label),
            size: self.size,
            mip_level_count: self.mip_level_count,
            sample_count: self.sample_count,
            dimension: self.dimension,
            format: self.format,
            usage: self.usage,
        }
    }
}

/// Relabelling a texture descriptor obeys the functor laws: putting the
/// descriptor's own label back changes nothing, and two successive
/// relabellings are one relabelling with the final label.
pub proof fn lemma_texture_relabel_functorial<L, M, K>(d: TextureDescriptor<L>, m: M, k: K)
    ensures
        d.with_label_spec(d.label) == d,
        d.with_label_spec(m).with_label_spec(k) == d.with_label_spec(k),
{
}

/// Describes a view into a texture.
#[derive(Clone, Copy, Debug, PartialEq, Eq, Hash)]
pub struct TextureViewDescriptor<L> {
    /// Debug label of the texture view, shown in graphics debuggers.
    pub label: L,
    /// Format of the texture view. It must be the same as the underlying
    /// format of the texture.
    pub format: TextureFormat,
    /// Dimension of the texture view. 1D textures take `D1`; 2D textures take
    /// one of `D2`, `D2Array`, `Cube` or `CubeArray`; 3D textures take `D3`.
    pub dimension: TextureViewDimension,
    /// Aspect of the texture the view selects. Color textures take `All`.
    pub aspect: TextureAspect,
    /// Base mip level.
    pub base_mip_level: u32,
    /// Mip level count, at least one; `base_mip_level + level_count` must not
    /// exceed the underlying texture's mip count.
    pub level_count: u32,
    /// Base array layer.
    pub base_array_layer: u32,
    /// Layer count, at least one; `base_array_layer + array_layer_count` must
    /// not exceed the underlying texture's layer count.
    pub array_layer_count: u32,
}

impl<L> TextureViewDescriptor<L> {
    /// The same descriptor with the given label in place of the old one and
    /// every other field unchanged.
    pub open spec fn with_label_spec<K>(self, label: K) -> TextureViewDescriptor<K> {
        TextureViewDescriptor {
            label,
            format: self.format,
            dimension: self.dimension,
            aspect: self.aspect,
            base_mip_level: self.base_mip_level,
            level_count: self.level_count,
            base_array_layer: self.base_array_layer,
            array_layer_count: self.array_layer_count,
        }
    }

    /// Rewrites the debug label through `fun`, leaving every other field
    /// untouched.
    pub fn map_label<K, F: FnOnce(&L) -> K>(&self, fun: F) -> (r: TextureViewDescriptor<K>)
        requires
            call_requires(fun, (&self.label,)),
        ensures
            call_ensures(fun, (&self.label,), r.label),
            r == (*self).with_label_spec(r.label),
    {
        TextureViewDescriptor {
            label: fun(&self.label),
            format: self.format,
            dimension: self.dimension,
            aspect: self.aspect,
            base_mip_level: self.base_mip_level,
            level_count: self.level_count,
            base_array_layer: self.base_array_layer,
            array_layer_count: self.array_layer_count,
        }
    }
}

/// Relabelling a texture view descriptor obeys the functor laws.
pub proof fn lemma_texture_view_relabel_functorial<L, M, K>(
    d: TextureViewDescriptor<L>,
    m: M,
    k: K,
)
    ensures
        d.with_label_spec(d.label) == d,
        d.with_label_spec(m).with_label_spec(k) == d.with_label_spec(k),
{
}

/// Layout of a texture inside a buffer's memory.
#[derive(Clone, Copy, Debug, PartialEq, Eq, Hash, Structural)]
pub struct TextureDataLayout {
    /// Offset into the buffer that is the start of the texture, in bytes.
    pub offset: u64,
    /// Bytes per row of the image; may be 0 for 1D texture copies. Copy
    /// commands require it to be a multiple of
    /// [`crate::COPY_BYTES_PER_ROW_ALIGNMENT`]; queue writes do not.
    pub bytes_per_row: u32,
    /// Rows that make up a single image; may be 0 for 2D texture copies.
    pub rows_per_image: u32,
}

/// View of a texture which can be used to copy to or from a buffer or
/// texture.
#[derive(Clone, Copy, Debug, PartialEq, Eq, Hash)]
pub struct TextureCopyView<T> {
    /// The texture to be copied to or from.
    pub texture: T,
    /// The target mip level of the texture.
    pub mip_level: u32,
    /// The base texel of the texture in the selected mip level.
    pub origin: Origin3d,
}

} // verus!
