//! Vertex formats, their byte sizes, and vertex input state.

use vstd::prelude::*;
use crate::pipeline::IndexFormat;

verus! {

/// Vertex format for a vertex attribute (input).
///
/// Each variant carries a fixed small-integer tag, reported by
/// [`VertexFormat::tag`]; the tags are a stable serialized contract. Every
/// format has exactly one byte size, given by [`VertexFormat::size`].
#[derive(Clone, Copy, Debug, PartialEq, Eq, Hash, Structural)]
pub enum VertexFormat {
    /// Two unsigned bytes (u8). `uvec2` in shaders.
    Uchar2,
    /// Four unsigned bytes (u8). `uvec4` in shaders.
    Uchar4,
    /// Two signed bytes (i8). `ivec2` in shaders.
    Char2,
    /// Four signed bytes (i8). `ivec4` in shaders.
    Char4,
    /// Two unsigned bytes (u8). [0, 255] converted to float [0, 1] `vec2` in shaders.
    Uchar2Norm,
    /// Four unsigned bytes (u8). [0, 255] converted to float [0, 1] `vec4` in shaders.
    Uchar4Norm,
    /// Two signed bytes (i8). [-127, 127] converted to float [-1, 1] `vec2` in shaders.
    Char2Norm,
    /// Four signed bytes (i8). [-127, 127] converted to float [-1, 1] `vec4` in shaders.
    Char4Norm,
    /// Two unsigned shorts (u16). `uvec2` in shaders.
    Ushort2,
    /// Four unsigned shorts (u16). `uvec4` in shaders.
    Ushort4,
    /// Two signed shorts (i16). `ivec2` in shaders.
    Short2,
    /// Four signed shorts (i16). `ivec4` in shaders.
    Short4,
    /// Two unsigned shorts (u16). [0, 65535] converted to float [0, 1] `vec2` in shaders.
    Ushort2Norm,
    /// Four unsigned shorts (u16). [0, 65535] converted to float [0, 1] `vec4` in shaders.
    Ushort4Norm,
    /// Two signed shorts (i16). [-32767, 32767] converted to float [-1, 1] `vec2` in shaders.
    Short2Norm,
    /// Four signed shorts (i16). [-32767, 32767] converted to float [-1, 1] `vec4` in shaders.
    Short4Norm,
    /// Two half-precision floats. `vec2` in shaders.
    Half2,
    /// Four half-precision floats. `vec4` in shaders.
    Half4,
    /// One single-precision float (f32). `float` in shaders.
    Float,
    /// Two single-precision floats (f32). `vec2` in shaders.
    Float2,
    /// Three single-precision floats (f32). `vec3` in shaders.
    Float3,
    /// Four single-precision floats (f32). `vec4` in shaders.
    Float4,
    /// One unsigned int (u32). `uint` in shaders.
    Uint,
    /// Two unsigned ints (u32). `uvec2` in shaders.
    Uint2,
    /// Three unsigned ints (u32). `uvec3` in shaders.
    Uint3,
    /// Four unsigned ints (u32). `uvec4` in shaders.
    Uint4,
    /// One signed int (i32). `int` in shaders.
    Int,
    /// Two signed ints (i32). `ivec2` in shaders.
    Int2,
    /// Three signed ints (i32). `ivec3` in shaders.
    Int3,
    /// Four signed ints (i32). `ivec4` in shaders.
    Int4,
}

impl VertexFormat {
    /// The fixed wire tag of each variant.
    pub open spec fn tag_spec(self) -> u8 {
        match self {
            VertexFormat::Uchar2 => 0,
            VertexFormat::Uchar4 => 1,
            VertexFormat::Char2 => 2,
            VertexFormat::Char4 => 3,
            VertexFormat::Uchar2Norm => 4,
            VertexFormat::Uchar4Norm => 5,
            VertexFormat::Char2Norm => 6,
            VertexFormat::Char4Norm => 7,
            VertexFormat::Ushort2 => 8,
            VertexFormat::Ushort4 => 9,
            VertexFormat::Short2 => 10,
            VertexFormat::Short4 => 11,
            VertexFormat::Ushort2Norm => 12,
            VertexFormat::Ushort4Norm => 13,
            VertexFormat::Short2Norm => 14,
            VertexFormat::Short4Norm => 15,
            VertexFormat::Half2 => 16,
            VertexFormat::Half4 => 17,
            VertexFormat::Float => 18,
            VertexFormat::Float2 => 19,
            VertexFormat::Float3 => 20,
            VertexFormat::Float4 => 21,
            VertexFormat::Uint => 22,
            VertexFormat::Uint2 => 23,
            VertexFormat::Uint3 => 24,
            VertexFormat::Uint4 => 25,
            VertexFormat::Int => 26,
            VertexFormat::Int2 => 27,
            VertexFormat::Int3 => 28,
            VertexFormat::Int4 => 29,
        }
    }

    /// The variant with a given wire tag, if any.
    pub open spec fn from_tag_spec(tag: u8) -> Option<VertexFormat> {
        match tag {
            0u8 => Some(VertexFormat::Uchar2),
            1u8 => Some(VertexFormat::Uchar4),
            2u8 => Some(VertexFormat::Char2),
            3u8 => Some(VertexFormat::Char4),
            4u8 => Some(VertexFormat::Uchar2Norm),
            5u8 => Some(VertexFormat::Uchar4Norm),
            6u8 => Some(VertexFormat::Char2Norm),
            7u8 => Some(VertexFormat::Char4Norm),
            8u8 => Some(VertexFormat::Ushort2),
            9u8 => Some(VertexFormat::Ushort4),
            10u8 => Some(VertexFormat::Short2),
            11u8 => Some(VertexFormat::Short4),
            12u8 => Some(VertexFormat::Ushort2Norm),
            13u8 => Some(VertexFormat::Ushort4Norm),
            14u8 => Some(VertexFormat::Short2Norm),
            15u8 => Some(VertexFormat::Short4Norm),
            16u8 => Some(VertexFormat::Half2),
            17u8 => Some(VertexFormat::Half4),
            18u8 => Some(VertexFormat::Float),
            19u8 => Some(VertexFormat::Float2),
            20u8 => Some(VertexFormat::Float3),
            21u8 => Some(VertexFormat::Float4),
            22u8 => Some(VertexFormat::Uint),
            23u8 => Some(VertexFormat::Uint2),
            24u8 => Some(VertexFormat::Uint3),
            25u8 => Some(VertexFormat::Uint4),
            26u8 => Some(VertexFormat::Int),
            27u8 => Some(VertexFormat::Int2),
            28u8 => Some(VertexFormat::Int3),
            29u8 => Some(VertexFormat::Int4),
            _ => None,
        }
    }

    /// Returns the fixed wire tag of this variant.
    pub fn tag(self) -> (r: u8)
        ensures
            r == self.tag_spec(),
    {
        match self {
            VertexFormat::Uchar2 => 0,
            VertexFormat::Uchar4 => 1,
            VertexFormat::Char2 => 2,
            VertexFormat::Char4 => 3,
            VertexFormat::Uchar2Norm => 4,
            VertexFormat::Uchar4Norm => 5,
            VertexFormat::Char2Norm => 6,
            VertexFormat::Char4Norm => 7,
            VertexFormat::Ushort2 => 8,
            VertexFormat::Ushort4 => 9,
            VertexFormat::Short2 => 10,
            VertexFormat::Short4 => 11,
            VertexFormat::Ushort2Norm => 12,
            VertexFormat::Ushort4Norm => 13,
            VertexFormat::Short2Norm => 14,
            VertexFormat::Short4Norm => 15,
            VertexFormat::Half2 => 16,
            VertexFormat::Half4 => 17,
            VertexFormat::Float => 18,
            VertexFormat::Float2 => 19,
            VertexFormat::Float3 => 20,
            VertexFormat::Float4 => 21,
            VertexFormat::Uint => 22,
            VertexFormat::Uint2 => 23,
            VertexFormat::Uint3 => 24,
            VertexFormat::Uint4 => 25,
            VertexFormat::Int => 26,
            VertexFormat::Int2 => 27,
            VertexFormat::Int3 => 28,
            VertexFormat::Int4 => 29,
        }
    }

    /// Decodes a wire tag back into a vertex format.
    pub fn from_tag(tag: u8) -> (r: Option<VertexFormat>)
        ensures
            r == VertexFormat::from_tag_spec(tag),
    {
        match tag {
            0u8 => Some(VertexFormat::Uchar2),
            1u8 => Some(VertexFormat::Uchar4),
            2u8 => Some(VertexFormat::Char2),
            3u8 => Some(VertexFormat::Char4),
            4u8 => Some(VertexFormat::Uchar2Norm),
            5u8 => Some(VertexFormat::Uchar4Norm),
            6u8 => Some(VertexFormat::Char2Norm),
            7u8 => Some(VertexFormat::Char4Norm),
            8u8 => Some(VertexFormat::Ushort2),
            9u8 => Some(VertexFormat::Ushort4),
            10u8 => Some(VertexFormat::Short2),
            11u8 => Some(VertexFormat::Short4),
            12u8 => Some(VertexFormat::Ushort2Norm),
            13u8 => Some(VertexFormat::Ushort4Norm),
            14u8 => Some(VertexFormat::Short2Norm),
            15u8 => Some(VertexFormat::Short4Norm),
            16u8 => Some(VertexFormat::Half2),
            17u8 => Some(VertexFormat::Half4),
            18u8 => Some(VertexFormat::Float),
            19u8 => Some(VertexFormat::Float2),
            20u8 => Some(VertexFormat::Float3),
            21u8 => Some(VertexFormat::Float4),
            22u8 => Some(VertexFormat::Uint),
            23u8 => Some(VertexFormat::Uint2),
            24u8 => Some(VertexFormat::Uint3),
            25u8 => Some(VertexFormat::Uint4),
            26u8 => Some(VertexFormat::Int),
            27u8 => Some(VertexFormat::Int2),
            28u8 => Some(VertexFormat::Int3),
            29u8 => Some(VertexFormat::Int4),
            _ => None,
        }
    }
}

/// Tags identify variants uniquely: decoding a variant's tag gives the
/// variant back, so no two variants share a tag.
pub proof fn lemma_vertex_format_tag_injective(a: VertexFormat, b: VertexFormat)
    ensures
        VertexFormat::from_tag_spec(a.tag_spec()) == Some(a),
        a.tag_spec() == b.tag_spec() ==> a == b,
{
}

impl VertexFormat {
    /// The byte size of one attribute of this format; always one of 2, 4, 8,
    /// 12 or 16.
    pub open spec fn size_spec(self) -> u64 {
        match self {
            VertexFormat::Uchar2
            | VertexFormat::Char2
            | VertexFormat::Uchar2Norm
            | VertexFormat::Char2Norm => 2,
            VertexFormat::Uchar4
            | VertexFormat::Char4
            | VertexFormat::Uchar4Norm
            | VertexFormat::Char4Norm
            | VertexFormat::Ushort2
            | VertexFormat::Short2
            | VertexFormat::Ushort2Norm
            | VertexFormat::Short2Norm
            | VertexFormat::Half2
            | VertexFormat::Float
            | VertexFormat::Uint
            | VertexFormat::Int => 4,
            VertexFormat::Ushort4
            | VertexFormat::Short4
            | VertexFormat::Ushort4Norm
            | VertexFormat::Short4Norm
            | VertexFormat::Half4
            | VertexFormat::Float2
            | VertexFormat::Uint2
            | VertexFormat::Int2 => 8,
            VertexFormat::Float3
            | VertexFormat::Uint3
            | VertexFormat::Int3 => 12,
            VertexFormat::Float4
            | VertexFormat::Uint4
            | VertexFormat::Int4 => 16,
        }
    }

    /// Returns the byte size of one attribute of this format.
    pub fn size(&self) -> (r: u64)
        ensures
            r == self.size_spec(),
    {
        match self {
            VertexFormat::Uchar2
            | VertexFormat::Char2
            | VertexFormat::Uchar2Norm
            | VertexFormat::Char2Norm => 2,
            VertexFormat::Uchar4
            | VertexFormat::Char4
            | VertexFormat::Uchar4Norm
            | VertexFormat::Char4Norm
            | VertexFormat::Ushort2
            | VertexFormat::Short2
            | VertexFormat::Ushort2Norm
            | VertexFormat::Short2Norm
            | VertexFormat::Half2
            | VertexFormat::Float
            | VertexFormat::Uint
            | VertexFormat::Int => 4,
            VertexFormat::Ushort4
            | VertexFormat::Short4
            | VertexFormat::Ushort4Norm
            | VertexFormat::Short4Norm
            | VertexFormat::Half4
            | VertexFormat::Float2
            | VertexFormat::Uint2
            | VertexFormat::Int2 => 8,
            VertexFormat::Float3
            | VertexFormat::Uint3
            | VertexFormat::Int3 => 12,
            VertexFormat::Float4
            | VertexFormat::Uint4
            | VertexFormat::Int4 => 16,
        }
    }
}

/// Every vertex format's byte size is one of 2, 4, 8, 12 or 16; the lookup
/// is total over the formats and never fails.
pub proof fn lemma_vertex_format_size_range(f: VertexFormat)
    ensures
        f.size_spec() == 2 || f.size_spec() == 4 || f.size_spec() == 8 || f.size_spec() == 12
            || f.size_spec() == 16,
{
}

/// Rate that determines when vertex data is advanced.
#[derive(Clone, Copy, Debug, PartialEq, Eq, Hash, Structural)]
pub enum InputStepMode {
    /// Input data is advanced every vertex: the standard value for vertex
    /// data.
    Vertex,
    /// Input data is advanced every instance.
    Instance,
}

impl InputStepMode {
    /// The fixed wire tag of each variant.
    pub open spec fn tag_spec(self) -> u8 {
        match self {
            InputStepMode::Vertex => 0,
            InputStepMode::Instance => 1,
        }
    }

    /// The variant with a given wire tag, if any.
    pub open spec fn from_tag_spec(tag: u8) -> Option<InputStepMode> {
        match tag {
            0u8 => Some(InputStepMode::Vertex),
            1u8 => Some(InputStepMode::Instance),
            _ => None,
        }
    }

    /// Returns the fixed wire tag of this variant.
    pub fn tag(self) -> (r: u8)
        ensures
            r == self.tag_spec(),
    {
        match self {
            InputStepMode::Vertex => 0,
            InputStepMode::Instance => 1,
        }
    }

    /// Decodes a wire tag back into a step mode.
    pub fn from_tag(tag: u8) -> (r: Option<InputStepMode>)
        ensures
            r == InputStepMode::from_tag_spec(tag),
    {
        match tag {
            0u8 => Some(InputStepMode::Vertex),
            1u8 => Some(InputStepMode::Instance),
            _ => None,
        }
    }
}

/// Tags identify variants uniquely: decoding a variant's tag gives the
/// variant back, so no two variants share a tag.
pub proof fn lemma_input_step_mode_tag_injective(a: InputStepMode, b: InputStepMode)
    ensures
        InputStepMode::from_tag_spec(a.tag_spec()) == Some(a),
        a.tag_spec() == b.tag_spec() ==> a == b,
{
}

/// A vertex input (attribute) to a shader. Attributes are assumed to be
/// tightly packed.
#[derive(Clone, Copy, Debug, PartialEq, Eq, Hash, Structural)]
pub struct VertexAttributeDescriptor {
    /// Byte offset of the start of the input inside one stride of the
    /// buffer.
    pub offset: u64,
    /// Format of the input.
    pub format: VertexFormat,
    /// Location for this input; it must match the location in the shader.
    pub shader_location: u32,
}

impl VertexAttributeDescriptor {
    /// Whether this attribute lies entirely within a stride of the given
    /// width: its offset plus its format's byte size stays at or below the
    /// stride.
    pub open spec fn fits_stride_spec(self, stride: u64) -> bool {
        self.offset + self.format.size_spec() <= stride
    }
}

/// Describes how a vertex buffer is interpreted.
#[derive(Clone, Debug, PartialEq, Eq, Hash)]
pub struct VertexBufferDescriptor {
    /// The stride, in bytes, between elements of this buffer.
    pub stride: u64,
    /// How often this vertex buffer is stepped forward.
    pub step_mode: InputStepMode,
    /// The list of attributes which comprise a single vertex, in order.
    pub attributes: Vec<VertexAttributeDescriptor>,
}

impl VertexBufferDescriptor {
    /// Whether every attribute of this buffer lies entirely within its
    /// stride.
    pub open spec fn attributes_fit_stride_spec(self) -> bool {
        forall|i: int|
            0 <= i < self.attributes@.len() ==> (#[trigger] self.attributes@[i]).fits_stride_spec(
                self.stride,
            )
    }

    /// Returns whether every attribute of this buffer lies entirely within
    /// its stride: for each one, `offset + size(format)` stays at or below
    /// `stride`.
    pub fn attributes_fit_stride(&self) -> (r: bool)
        ensures
            r == self.attributes_fit_stride_spec(),
    {
        let mut i: usize = 0;
        while i < self.attributes.len()
            invariant
                0 <= i <= self.attributes@.len(),
                forall|j: int|
                    0 <= j < i ==> (#[trigger] self.attributes@[j]).fits_stride_spec(self.stride),
            decreases self.attributes@.len() - i,
        {
            let attr = &self.attributes[i];
            let size = attr.format.size();
            if !(attr.offset <= self.stride && size <= self.stride - attr.offset) {
                assert(!attr.fits_stride_spec(self.stride));
                return false;
            }
            assert(attr.fits_stride_spec(self.stride));
            i += 1;
        }
        true
    }
}

/// Describes the vertex input state for a render pipeline.
#[derive(Clone, Debug, PartialEq, Eq, Hash)]
pub struct VertexStateDescriptor {
    /// The format of any index buffers used with this pipeline.
    pub index_format: IndexFormat,
    /// The vertex buffers used with this pipeline, in order.
    pub vertex_buffers: Vec<VertexBufferDescriptor>,
}

impl VertexStateDescriptor {
    /// Whether every attribute of every vertex buffer lies entirely within
    /// its buffer's stride.
    pub open spec fn buffers_fit_strides_spec(self) -> bool {
        forall|b: int|
            0 <= b < self.vertex_buffers@.len() ==> (
            #[trigger] self.vertex_buffers@[b]).attributes_fit_stride_spec()
    }

    /// Returns whether every attribute of every vertex buffer lies entirely
    /// within its buffer's stride.
    pub fn buffers_fit_strides(&self) -> (r: bool)
        ensures
            r == self.buffers_fit_strides_spec(),
    {
        let mut b: usize = 0;
        while b < self.vertex_buffers.len()
            invariant
                0 <= b <= self.vertex_buffers@.len(),
                forall|j: int|
                    0 <= j < b ==> (
                    #[trigger] self.vertex_buffers@[j]).attributes_fit_stride_spec(),
            decreases self.vertex_buffers@.len() - b,
        {
            if !self.vertex_buffers[b].attributes_fit_stride() {
                return false;
            }
            b += 1;
        }
        true
    }
}

} // verus!
