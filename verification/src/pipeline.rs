//! Render and compute pipeline descriptors, rasterization and depth/stencil
//! state, and their validation predicates.

use vstd::prelude::*;
use crate::blend::ColorStateDescriptor;
use crate::vertex::VertexStateDescriptor;

verus! {

/// Primitive type the input mesh is composed of.
///
/// Each variant carries a fixed small-integer tag, reported by
/// [`PrimitiveTopology::tag`]; the tags are a stable serialized contract.
#[derive(Clone, Copy, Debug, PartialEq, Eq, Hash, Structural)]
pub enum PrimitiveTopology {
    /// Vertex data is a list of points; each vertex is a new point.
    PointList,
    /// Vertex data is a list of lines; each pair of vertices is a new line.
    LineList,
    /// Vertex data is a strip of lines; each pair of adjacent vertices forms
    /// a line.
    LineStrip,
    /// Vertex data is a list of triangles; each three vertices are a new
    /// triangle.
    TriangleList,
    /// Vertex data is a triangle strip; each three adjacent vertices form a
    /// triangle.
    TriangleStrip,
}

impl PrimitiveTopology {
    /// The fixed wire tag of each variant.
    pub open spec fn tag_spec(self) -> u8 {
        match self {
            PrimitiveTopology::PointList => 0,
            PrimitiveTopology::LineList => 1,
            PrimitiveTopology::LineStrip => 2,
            PrimitiveTopology::TriangleList => 3,
            PrimitiveTopology::TriangleStrip => 4,
        }
    }

    /// The variant with a given wire tag, if any.
    pub open spec fn from_tag_spec(tag: u8) -> Option<PrimitiveTopology> {
        match tag {
            0u8 => Some(PrimitiveTopology::PointList),
            1u8 => Some(PrimitiveTopology::LineList),
            2u8 => Some(PrimitiveTopology::LineStrip),
            3u8 => Some(PrimitiveTopology::TriangleList),
            4u8 => Some(PrimitiveTopology::TriangleStrip),
            _ => None,
        }
    }

    /// Returns the fixed wire tag of this variant.
    pub fn tag(self) -> (r: u8)
        ensures
            r == self.tag_spec(),
    {
        match self {
            PrimitiveTopology::PointList => 0,
            PrimitiveTopology::LineList => 1,
            PrimitiveTopology::LineStrip => 2,
            PrimitiveTopology::TriangleList => 3,
            PrimitiveTopology::TriangleStrip => 4,
        }
    }

    /// Decodes a wire tag back into a primitive topology.
    pub fn from_tag(tag: u8) -> (r: Option<PrimitiveTopology>)
        ensures
            r == PrimitiveTopology::from_tag_spec(tag),
    {
        match tag {
            0u8 => Some(PrimitiveTopology::PointList),
            1u8 => Some(PrimitiveTopology::LineList),
            2u8 => Some(PrimitiveTopology::LineStrip),
            3u8 => Some(PrimitiveTopology::TriangleList),
            4u8 => Some(PrimitiveTopology::TriangleStrip),
            _ => None,
        }
    }
}

/// Tags identify variants uniquely: decoding a variant's tag gives the
/// variant back, so no two variants share a tag.
pub proof fn lemma_primitive_topology_tag_injective(a: PrimitiveTopology, b: PrimitiveTopology)
    ensures
        PrimitiveTopology::from_tag_spec(a.tag_spec()) == Some(a),
        a.tag_spec() == b.tag_spec() ==> a == b,
{
}

/// Winding order which classifies the front face.
#[derive(Clone, Copy, Debug, PartialEq, Eq, Hash, Structural)]
pub enum FrontFace {
    /// Triangles with vertices in counter-clockwise order are the front
    /// face. The default for right-handed coordinate spaces.
    Ccw,
    /// Triangles with vertices in clockwise order are the front face. The
    /// default for left-handed coordinate spaces.
    Cw,
}

impl FrontFace {
    /// The fixed wire tag of each variant.
    pub open spec fn tag_spec(self) -> u8 {
        match self {
            FrontFace::Ccw => 0,
            FrontFace::Cw => 1,
        }
    }

    /// The variant with a given wire tag, if any.
    pub open spec fn from_tag_spec(tag: u8) -> Option<FrontFace> {
        match tag {
            0u8 => Some(FrontFace::Ccw),
            1u8 => Some(FrontFace::Cw),
            _ => None,
        }
    }

    /// Returns the fixed wire tag of this variant.
    pub fn tag(self) -> (r: u8)
        ensures
            r == self.tag_spec(),
    {
        match self {
            FrontFace::Ccw => 0,
            FrontFace::Cw => 1,
        }
    }

    /// Decodes a wire tag back into a front-face order.
    pub fn from_tag(tag: u8) -> (r: Option<FrontFace>)
        ensures
            r == FrontFace::from_tag_spec(tag),
    {
        match tag {
            0u8 => Some(FrontFace::Ccw),
            1u8 => Some(FrontFace::Cw),
            _ => None,
        }
    }
}

/// Tags identify variants uniquely: decoding a variant's tag gives the
/// variant back, so no two variants share a tag.
pub proof fn lemma_front_face_tag_injective(a: FrontFace, b: FrontFace)
    ensures
        FrontFace::from_tag_spec(a.tag_spec()) == Some(a),
        a.tag_spec() == b.tag_spec() ==> a == b,
{
}

impl Default for FrontFace {
    fn default() -> (r: FrontFace)
        ensures
            r == FrontFace::Ccw,
    {
        FrontFace::Ccw
    }
}

/// Type of faces to be culled.
#[derive(Clone, Copy, Debug, PartialEq, Eq, Hash, Structural)]
pub enum CullMode {
    /// No faces are culled.
    Disabled,
    /// Front faces are culled.
    Front,
    /// Back faces are culled.
    Back,
}

impl CullMode {
    /// The fixed wire tag of each variant.
    pub open spec fn tag_spec(self) -> u8 {
        match self {
            CullMode::Disabled => 0,
            CullMode::Front => 1,
            CullMode::Back => 2,
        }
    }

    /// The variant with a given wire tag, if any.
    pub open spec fn from_tag_spec(tag: u8) -> Option<CullMode> {
        match tag {
            0u8 => Some(CullMode::Disabled),
            1u8 => Some(CullMode::Front),
            2u8 => Some(CullMode::Back),
            _ => None,
        }
    }

    /// Returns the fixed wire tag of this variant.
    pub fn tag(self) -> (r: u8)
        ensures
            r == self.tag_spec(),
    {
        match self {
            CullMode::Disabled => 0,
            CullMode::Front => 1,
            CullMode::Back => 2,
        }
    }

    /// Decodes a wire tag back into a cull mode.
    pub fn from_tag(tag: u8) -> (r: Option<CullMode>)
        ensures
            r == CullMode::from_tag_spec(tag),
    {
        match tag {
            0u8 => Some(CullMode::Disabled),
            1u8 => Some(CullMode::Front),
            2u8 => Some(CullMode::Back),
            _ => None,
        }
    }
}

/// Tags identify variants uniquely: decoding a variant's tag gives the
/// variant back, so no two variants share a tag.
pub proof fn lemma_cull_mode_tag_injective(a: CullMode, b: CullMode)
    ensures
        CullMode::from_tag_spec(a.tag_spec()) == Some(a),
        a.tag_spec() == b.tag_spec() ==> a == b,
{
}

impl Default for CullMode {
    fn default() -> (r: CullMode)
        ensures
            r == CullMode::Disabled,
    {
        CullMode::Disabled
    }
}

/// Describes the state of the rasterizer in a render pipeline.
///
/// The three depth-bias parameters are IEEE-754 single-precision values
/// carried as their raw 32-bit patterns; this layer never interprets them, it
/// only hands them through to the backend.
#[derive(Clone, Copy, Debug, PartialEq, Eq, Hash)]
pub struct RasterizationStateDescriptor {
    pub front_face: FrontFace,
    pub cull_mode: CullMode,
    /// If enabled, polygon depth is clamped to the 0-1 range instead of
    /// being clipped. Requires the depth-clamping feature to be enabled.
    pub clamp_depth: bool,
    pub depth_bias: i32,
    /// Slope-scaled depth bias, as a raw single-precision bit pattern.
    pub depth_bias_slope_scale: u32,
    /// Depth bias clamp, as a raw single-precision bit pattern.
    pub depth_bias_clamp: u32,
}

impl Default for RasterizationStateDescriptor {
    /// Counter-clockwise front faces, no culling, no clamping and zero
    /// biases; `0` is the bit pattern of a zero single-precision value.
    fn default() -> (r: RasterizationStateDescriptor)
        ensures
            r == (RasterizationStateDescriptor {
                front_face: FrontFace::Ccw,
                cull_mode: CullMode::Disabled,
                clamp_depth: false,
                depth_bias: 0i32,
                depth_bias_slope_scale: 0u32,
                depth_bias_clamp: 0u32,
            }),
    {
        RasterizationStateDescriptor {
            front_face: FrontFace::Ccw,
            cull_mode: CullMode::Disabled,
            clamp_depth: false,
            depth_bias: 0,
            depth_bias_slope_scale: 0,
            depth_bias_clamp: 0,
        }
    }
}

/// Comparison function used for depth and stencil operations.
///
/// Each variant carries a fixed small-integer tag, reported by
/// [`CompareFunction::tag`]; the tags are a stable serialized contract.
#[derive(Clone, Copy, Debug, PartialEq, Eq, Hash, Structural)]
pub enum CompareFunction {
    /// Invalid value; do not use.
    Undefined,
    /// The comparison never passes.
    Never,
    /// Passes if the new value is less than the existing value.
    Less,
    /// Passes if the new value is equal to the existing value.
    Equal,
    /// Passes if the new value is less than or equal to the existing value.
    LessEqual,
    /// Passes if the new value is greater than the existing value.
    Greater,
    /// Passes if the new value is not equal to the existing value.
    NotEqual,
    /// Passes if the new value is greater than or equal to the existing
    /// value.
    GreaterEqual,
    /// The comparison always passes.
    Always,
}

impl CompareFunction {
    /// The fixed wire tag of each variant.
    pub open spec fn tag_spec(self) -> u8 {
        match self {
            CompareFunction::Undefined => 0,
            CompareFunction::Never => 1,
            CompareFunction::Less => 2,
            CompareFunction::Equal => 3,
            CompareFunction::LessEqual => 4,
            CompareFunction::Greater => 5,
            CompareFunction::NotEqual => 6,
            CompareFunction::GreaterEqual => 7,
            CompareFunction::Always => 8,
        }
    }

    /// The variant with a given wire tag, if any.
    pub open spec fn from_tag_spec(tag: u8) -> Option<CompareFunction> {
        match tag {
            0u8 => Some(CompareFunction::Undefined),
            1u8 => Some(CompareFunction::Never),
            2u8 => Some(CompareFunction::Less),
            3u8 => Some(CompareFunction::Equal),
            4u8 => Some(CompareFunction::LessEqual),
            5u8 => Some(CompareFunction::Greater),
            6u8 => Some(CompareFunction::NotEqual),
            7u8 => Some(CompareFunction::GreaterEqual),
            8u8 => Some(CompareFunction::Always),
            _ => None,
        }
    }

    /// Returns the fixed wire tag of this variant.
    pub fn tag(self) -> (r: u8)
        ensures
            r == self.tag_spec(),
    {
        match self {
            CompareFunction::Undefined => 0,
            CompareFunction::Never => 1,
            CompareFunction::Less => 2,
            CompareFunction::Equal => 3,
            CompareFunction::LessEqual => 4,
            CompareFunction::Greater => 5,
            CompareFunction::NotEqual => 6,
            CompareFunction::GreaterEqual => 7,
            CompareFunction::Always => 8,
        }
    }

    /// Decodes a wire tag back into a comparison function.
    pub fn from_tag(tag: u8) -> (r: Option<CompareFunction>)
        ensures
            r == CompareFunction::from_tag_spec(tag),
    {
        match tag {
            0u8 => Some(CompareFunction::Undefined),
            1u8 => Some(CompareFunction::Never),
            2u8 => Some(CompareFunction::Less),
            3u8 => Some(CompareFunction::Equal),
            4u8 => Some(CompareFunction::LessEqual),
            5u8 => Some(CompareFunction::Greater),
            6u8 => Some(CompareFunction::NotEqual),
            7u8 => Some(CompareFunction::GreaterEqual),
            8u8 => Some(CompareFunction::Always),
            _ => None,
        }
    }
}

/// Tags identify variants uniquely: decoding a variant's tag gives the
/// variant back, so no two variants share a tag.
pub proof fn lemma_compare_function_tag_injective(a: CompareFunction, b: CompareFunction)
    ensures
        CompareFunction::from_tag_spec(a.tag_spec()) == Some(a),
        a.tag_spec() == b.tag_spec() ==> a == b,
{
}

impl CompareFunction {
    /// Whether the comparison's outcome never depends on the stored value:
    /// true exactly for `Never` and `Always`.
    pub open spec fn is_trivial_spec(self) -> bool {
        self == CompareFunction::Never || self == CompareFunction::Always
    }

    /// Returns whether the comparison's outcome never depends on the stored
    /// value.
    pub fn is_trivial(self) -> (r: bool)
        ensures
            r == self.is_trivial_spec(),
    {
        match self {
            CompareFunction::Never | CompareFunction::Always => true,
            _ => false,
        }
    }
}

/// Operation to perform on the stencil value.
///
/// Each variant carries a fixed small-integer tag, reported by
/// [`StencilOperation::tag`]; the tags are a stable serialized contract.
#[derive(Clone, Copy, Debug, PartialEq, Eq, Hash, Structural)]
pub enum StencilOperation {
    /// Keep the stencil value unchanged.
    Keep,
    /// Set the stencil value to zero.
    Zero,
    /// Replace the stencil value with the stencil reference.
    Replace,
    /// Bitwise invert the stencil value.
    Invert,
    /// Increment the stencil value by one, clamping on overflow.
    IncrementClamp,
    /// Decrement the stencil value by one, clamping on underflow.
    DecrementClamp,
    /// Increment the stencil value by one, wrapping on overflow.
    IncrementWrap,
    /// Decrement the stencil value by one, wrapping on underflow.
    DecrementWrap,
}

impl StencilOperation {
    /// The fixed wire tag of each variant.
    pub open spec fn tag_spec(self) -> u8 {
        match self {
            StencilOperation::Keep => 0,
            StencilOperation::Zero => 1,
            StencilOperation::Replace => 2,
            StencilOperation::Invert => 3,
            StencilOperation::IncrementClamp => 4,
            StencilOperation::DecrementClamp => 5,
            StencilOperation::IncrementWrap => 6,
            StencilOperation::DecrementWrap => 7,
        }
    }

    /// The variant with a given wire tag, if any.
    pub open spec fn from_tag_spec(tag: u8) -> Option<StencilOperation> {
        match tag {
            0u8 => Some(StencilOperation::Keep),
            1u8 => Some(StencilOperation::Zero),
            2u8 => Some(StencilOperation::Replace),
            3u8 => Some(StencilOperation::Invert),
            4u8 => Some(StencilOperation::IncrementClamp),
            5u8 => Some(StencilOperation::DecrementClamp),
            6u8 => Some(StencilOperation::IncrementWrap),
            7u8 => Some(StencilOperation::DecrementWrap),
            _ => None,
        }
    }

    /// Returns the fixed wire tag of this variant.
    pub fn tag(self) -> (r: u8)
        ensures
            r == self.tag_spec(),
    {
        match self {
            StencilOperation::Keep => 0,
            StencilOperation::Zero => 1,
            StencilOperation::Replace => 2,
            StencilOperation::Invert => 3,
            StencilOperation::IncrementClamp => 4,
            StencilOperation::DecrementClamp => 5,
            StencilOperation::IncrementWrap => 6,
            StencilOperation::DecrementWrap => 7,
        }
    }

    /// Decodes a wire tag back into a stencil operation.
    pub fn from_tag(tag: u8) -> (r: Option<StencilOperation>)
        ensures
            r == StencilOperation::from_tag_spec(tag),
    {
        match tag {
            0u8 => Some(StencilOperation::Keep),
            1u8 => Some(StencilOperation::Zero),
            2u8 => Some(StencilOperation::Replace),
            3u8 => Some(StencilOperation::Invert),
            4u8 => Some(StencilOperation::IncrementClamp),
            5u8 => Some(StencilOperation::DecrementClamp),
            6u8 => Some(StencilOperation::IncrementWrap),
            7u8 => Some(StencilOperation::DecrementWrap),
            _ => None,
        }
    }
}

/// Tags identify variants uniquely: decoding a variant's tag gives the
/// variant back, so no two variants share a tag.
pub proof fn lemma_stencil_operation_tag_injective(a: StencilOperation, b: StencilOperation)
    ensures
        StencilOperation::from_tag_spec(a.tag_spec()) == Some(a),
        a.tag_spec() == b.tag_spec() ==> a == b,
{
}

impl Default for StencilOperation {
    fn default() -> (r: StencilOperation)
        ensures
            r == StencilOperation::Keep,
    {
        StencilOperation::Keep
    }
}

/// Describes the stencil state of one face in a render pipeline.
#[derive(Clone, Copy, Debug, PartialEq, Eq, Hash, Structural)]
pub struct StencilStateFaceDescriptor {
    /// Comparison that decides whether `fail_op` or `pass_op` is used.
    pub compare: CompareFunction,
    /// Operation performed when the stencil test fails.
    pub fail_op: StencilOperation,
    /// Operation performed when the depth test fails but the stencil test
    /// passes.
    pub depth_fail_op: StencilOperation,
    /// Operation performed when the stencil test passes.
    pub pass_op: StencilOperation,
}

impl StencilStateFaceDescriptor {
    /// The face state that ignores the stencil buffer entirely.
    pub open spec fn ignore_spec() -> StencilStateFaceDescriptor {
        StencilStateFaceDescriptor {
            compare: CompareFunction::Always,
            fail_op: StencilOperation::Keep,
            depth_fail_op: StencilOperation::Keep,
            pass_op: StencilOperation::Keep,
        }
    }

    /// The face state that ignores the stencil buffer entirely.
    pub fn ignore() -> (r: StencilStateFaceDescriptor)
        ensures
            r == StencilStateFaceDescriptor::ignore_spec(),
    {
        StencilStateFaceDescriptor {
            compare: CompareFunction::Always,
            fail_op: StencilOperation::Keep,
            depth_fail_op: StencilOperation::Keep,
            pass_op: StencilOperation::Keep,
        }
    }
}

impl Default for StencilStateFaceDescriptor {
    /// The ignoring face state.
    fn default() -> (r: StencilStateFaceDescriptor)
        ensures
            r == StencilStateFaceDescriptor::ignore_spec(),
    {
        StencilStateFaceDescriptor::ignore()
    }
}

/// Describes the depth and stencil state in a render pipeline.
#[derive(Clone, Copy, Debug, PartialEq, Eq, Hash, Structural)]
pub struct DepthStencilStateDescriptor {
    /// Format of the depth/stencil buffer; must be one of the special depth
    /// formats and must match the format of the depth/stencil attachment.
    pub format: crate::texture::TextureFormat,
    /// If disabled, depth is not written to.
    pub depth_write_enabled: bool,
    /// Comparison used in the depth test.
    pub depth_compare: CompareFunction,
    /// Stencil state used for front faces.
    pub stencil_front: StencilStateFaceDescriptor,
    /// Stencil state used for back faces.
    pub stencil_back: StencilStateFaceDescriptor,
    /// Stencil values are ANDed with this mask when read from the stencil
    /// buffer; only the low 8 bits are used.
    pub stencil_read_mask: u32,
    /// Stencil values are ANDed with this mask when written to the stencil
    /// buffer; only the low 8 bits are used.
    pub stencil_write_mask: u32,
}

impl DepthStencilStateDescriptor {
    /// Whether a stencil reference value must be supplied at draw time: true
    /// iff either face's comparison depends on the stored stencil value.
    pub open spec fn needs_stencil_reference_spec(self) -> bool {
        !self.stencil_front.compare.is_trivial_spec() || !self.stencil_back.compare.is_trivial_spec()
    }

    /// Whether this state never writes to the depth/stencil attachment, so
    /// the attachment may be shared read-only across concurrent passes: true
    /// iff depth writes are disabled and the stencil write mask is zero.
    pub open spec fn is_read_only_spec(self) -> bool {
        !self.depth_write_enabled && self.stencil_write_mask == 0
    }

    /// Returns whether a stencil reference value must be supplied at draw
    /// time.
    pub fn needs_stencil_reference(&self) -> (r: bool)
        ensures
            r == self.needs_stencil_reference_spec(),
    {
        !self.stencil_front.compare.is_trivial() || !self.stencil_back.compare.is_trivial()
    }

    /// Returns whether this state never writes to the depth/stencil
    /// attachment.
    pub fn is_read_only(&self) -> (r: bool)
        ensures
            r == self.is_read_only_spec(),
    {
        !self.depth_write_enabled && self.stencil_write_mask == 0
    }
}

/// Format of indices used with a pipeline.
#[derive(Clone, Copy, Debug, PartialEq, Eq, Hash, Structural)]
pub enum IndexFormat {
    /// Indices are 16 bit unsigned integers.
    Uint16,
    /// Indices are 32 bit unsigned integers.
    Uint32,
}

impl IndexFormat {
    /// The fixed wire tag of each variant.
    pub open spec fn tag_spec(self) -> u8 {
        match self {
            IndexFormat::Uint16 => 0,
            IndexFormat::Uint32 => 1,
        }
    }

    /// The variant with a given wire tag, if any.
    pub open spec fn from_tag_spec(tag: u8) -> Option<IndexFormat> {
        match tag {
            0u8 => Some(IndexFormat::Uint16),
            1u8 => Some(IndexFormat::Uint32),
            _ => None,
        }
    }

    /// Returns the fixed wire tag of this variant.
    pub fn tag(self) -> (r: u8)
        ensures
            r == self.tag_spec(),
    {
        match self {
            IndexFormat::Uint16 => 0,
            IndexFormat::Uint32 => 1,
        }
    }

    /// Decodes a wire tag back into an index format.
    pub fn from_tag(tag: u8) -> (r: Option<IndexFormat>)
        ensures
            r == IndexFormat::from_tag_spec(tag),
    {
        match tag {
            0u8 => Some(IndexFormat::Uint16),
            1u8 => Some(IndexFormat::Uint32),
            _ => None,
        }
    }
}

/// Tags identify variants uniquely: decoding a variant's tag gives the
/// variant back, so no two variants share a tag.
pub proof fn lemma_index_format_tag_injective(a: IndexFormat, b: IndexFormat)
    ensures
        IndexFormat::from_tag_spec(a.tag_spec()) == Some(a),
        a.tag_spec() == b.tag_spec() ==> a == b,
{
}

impl Default for IndexFormat {
    fn default() -> (r: IndexFormat)
        ensures
            r == IndexFormat::Uint32,
    {
        IndexFormat::Uint32
    }
}

/// Describes a programmable pipeline stage.
#[derive(Clone, Debug, PartialEq, Eq, Hash)]
pub struct ProgrammableStageDescriptor<M> {
    /// The compiled shader module for this stage.
    pub module: M,
    /// The name of the entry point in the compiled shader; a function
    /// returning void with this name must exist in the shader.
    pub entry_point: String,
}

/// Describes a render (graphics) pipeline.
///
/// The fragment stage, rasterization state and depth/stencil state are each
/// independently optional, to model pipeline stages that may be entirely
/// absent.
#[derive(Clone, Debug)]
pub struct RenderPipelineDescriptor<L, D> {
    /// The layout of bind groups for this pipeline.
    pub layout: L,
    /// The compiled vertex stage and its entry point.
    pub vertex_stage: D,
    /// The compiled fragment stage and its entry point, if any.
    pub fragment_stage: Option<D>,
    /// The rasterization process for this pipeline, if any.
    pub rasterization_state: Option<RasterizationStateDescriptor>,
    /// The primitive topology used to interpret vertices.
    pub primitive_topology: PrimitiveTopology,
    /// The effect of draw calls on the color aspect of the output target,
    /// one entry per color target.
    pub color_states: Vec<ColorStateDescriptor>,
    /// The effect of draw calls on the depth and stencil aspects of the
    /// output target, if any.
    pub depth_stencil_state: Option<DepthStencilStateDescriptor>,
    /// The vertex input state for this pipeline.
    pub vertex_state: VertexStateDescriptor,
    /// The number of samples calculated per pixel for multisampling;
    /// non-multisampled textures take 1.
    pub sample_count: u32,
    /// Bitmask that restricts the samples of a pixel modified by this
    /// pipeline.
    pub sample_mask: u32,
    /// When enabled, produces another sample mask per pixel based on the
    /// alpha output value, ANDed with `sample_mask` and the primitive
    /// coverage.
    pub alpha_to_coverage_enabled: bool,
}

/// Describes a compute pipeline.
#[derive(Clone, Debug, PartialEq, Eq, Hash)]
pub struct ComputePipelineDescriptor<L, D> {
    /// The layout of bind groups for this pipeline.
    pub layout: L,
    /// The compiled compute stage and its entry point.
    pub compute_stage: D,
}

} // verus!
