//! Tests for the validation predicates: bind group layouts, pipeline
//! layouts, push-constant ranges and vertex strides.

use wgpu_types::binding::{
    BindGroupLayoutDescriptor, BindGroupLayoutEntry, BindingError, BindingType, ShaderStage,
};
use wgpu_types::features::Features;
use wgpu_types::limits::Limits;
use wgpu_types::pipeline_layout::{
    validate_push_constant_ranges, PipelineLayoutDescriptor, PipelineLayoutError,
    PushConstantRange,
};
use wgpu_types::texture::{TextureComponentType, TextureViewDimension};
use wgpu_types::vertex::{InputStepMode, VertexAttributeDescriptor, VertexBufferDescriptor, VertexFormat};

fn uniform_entry(binding: u32) -> BindGroupLayoutEntry {
    BindGroupLayoutEntry::new(
        binding,
        ShaderStage::vertex(),
        BindingType::UniformBuffer { dynamic: false, min_binding_size: None },
    )
}

fn sampled_entry(binding: u32, count: Option<u32>) -> BindGroupLayoutEntry {
    BindGroupLayoutEntry {
        binding,
        visibility: ShaderStage::fragment(),
        ty: BindingType::SampledTexture {
            dimension: TextureViewDimension::D2,
            component_type: TextureComponentType::Float,
            multisampled: false,
        },
        count,
    }
}

#[test]
fn entry_new_has_no_count() {
    let e = uniform_entry(3);
    assert_eq!(e.binding, 3);
    assert_eq!(e.count, None);
}

#[test]
fn dynamic_offset_only_for_dynamic_buffers() {
    let dynamic_uniform = BindGroupLayoutEntry::new(
        0,
        ShaderStage::vertex(),
        BindingType::UniformBuffer { dynamic: true, min_binding_size: None },
    );
    assert!(dynamic_uniform.has_dynamic_offset());
    let dynamic_storage = BindGroupLayoutEntry::new(
        1,
        ShaderStage::compute(),
        BindingType::StorageBuffer { dynamic: true, min_binding_size: Some(16), readonly: false },
    );
    assert!(dynamic_storage.has_dynamic_offset());
    let static_uniform = uniform_entry(2);
    assert!(!static_uniform.has_dynamic_offset());
    let sampler = BindGroupLayoutEntry::new(
        3,
        ShaderStage::fragment(),
        BindingType::Sampler { comparison: false },
    );
    assert!(!sampler.has_dynamic_offset());
    let texture = sampled_entry(4, None);
    assert!(!texture.has_dynamic_offset());
}

#[test]
fn layout_with_distinct_bindings_is_valid() {
    let layout = BindGroupLayoutDescriptor {
        label: Some(String::from("globals")),
        entries: vec![uniform_entry(0), sampled_entry(1, None), uniform_entry(2)],
    };
    assert_eq!(layout.validate(&Features::empty()), Ok(()));
}

#[test]
fn duplicate_binding_index_is_invalid() {
    let layout = BindGroupLayoutDescriptor {
        label: None,
        entries: vec![uniform_entry(0), sampled_entry(1, None), uniform_entry(1)],
    };
    assert_eq!(
        layout.validate(&Features::empty()),
        Err(BindingError::DuplicateBindingIndex { binding: 1 })
    );
}

#[test]
fn array_count_on_non_texture_is_invalid() {
    let mut entry = uniform_entry(0);
    entry.count = Some(4);
    let layout = BindGroupLayoutDescriptor { label: None, entries: vec![entry] };
    assert_eq!(
        layout.validate(&Features::sampled_texture_binding_array()),
        Err(BindingError::ArrayNotSampledTexture { binding: 0 })
    );
}

#[test]
fn array_count_zero_is_invalid() {
    let layout = BindGroupLayoutDescriptor { label: None, entries: vec![sampled_entry(0, Some(0))] };
    assert_eq!(
        layout.validate(&Features::sampled_texture_binding_array()),
        Err(BindingError::ArrayCountZero { binding: 0 })
    );
}

#[test]
fn array_count_needs_binding_array_feature() {
    let layout = BindGroupLayoutDescriptor { label: None, entries: vec![sampled_entry(2, Some(8))] };
    assert_eq!(
        layout.validate(&Features::empty()),
        Err(BindingError::ArrayRequiresFeature { binding: 2 })
    );
    assert_eq!(layout.validate(&Features::sampled_texture_binding_array()), Ok(()));
}

fn range(stages: ShaderStage, start: u32, end: u32) -> PushConstantRange {
    PushConstantRange { stages, range: start..end }
}

#[test]
fn disjoint_push_constant_ranges_are_valid() {
    let ranges = vec![
        range(ShaderStage::vertex(), 0, 16),
        range(ShaderStage::fragment(), 16, 32),
        range(ShaderStage::compute(), 0, 64),
    ];
    assert_eq!(validate_push_constant_ranges(&ranges, 128), Ok(()));
}

#[test]
fn stage_claimed_twice_is_invalid() {
    let ranges = vec![
        range(ShaderStage::vertex(), 0, 16),
        range(ShaderStage::vertex(), 16, 32),
    ];
    assert_eq!(
        validate_push_constant_ranges(&ranges, 128),
        Err(PipelineLayoutError::StageClaimedTwice { index: 1 })
    );
}

#[test]
fn stage_overlap_through_union_is_invalid() {
    let both = ShaderStage::vertex().union(ShaderStage::fragment());
    let ranges = vec![range(both, 0, 16), range(ShaderStage::fragment(), 16, 32)];
    assert_eq!(
        validate_push_constant_ranges(&ranges, 128),
        Err(PipelineLayoutError::StageClaimedTwice { index: 1 })
    );
}

#[test]
fn one_range_may_serve_several_stages() {
    let both = ShaderStage::vertex().union(ShaderStage::fragment());
    let ranges = vec![range(both, 0, 16)];
    assert_eq!(validate_push_constant_ranges(&ranges, 128), Ok(()));
}

#[test]
fn unaligned_push_constant_range_is_invalid() {
    let ranges = vec![range(ShaderStage::vertex(), 2, 16)];
    assert_eq!(
        validate_push_constant_ranges(&ranges, 128),
        Err(PipelineLayoutError::RangeUnaligned { index: 0 })
    );
    let ranges = vec![range(ShaderStage::vertex(), 0, 10)];
    assert_eq!(
        validate_push_constant_ranges(&ranges, 128),
        Err(PipelineLayoutError::RangeUnaligned { index: 0 })
    );
}

#[test]
fn out_of_bounds_push_constant_range_is_invalid() {
    let inverted = vec![range(ShaderStage::vertex(), 32, 16)];
    assert_eq!(
        validate_push_constant_ranges(&inverted, 128),
        Err(PipelineLayoutError::RangeOutOfBounds { index: 0 })
    );
    let too_large = vec![range(ShaderStage::vertex(), 0, 256)];
    assert_eq!(
        validate_push_constant_ranges(&too_large, 128),
        Err(PipelineLayoutError::RangeOutOfBounds { index: 0 })
    );
}

#[test]
fn empty_range_list_is_valid() {
    let ranges: Vec<PushConstantRange> = Vec::new();
    assert_eq!(validate_push_constant_ranges(&ranges, 0), Ok(()));
}

#[test]
fn pipeline_layout_push_constants_need_feature() {
    let mut limits = Limits::default();
    limits.max_push_constant_size = 128;
    let layout: PipelineLayoutDescriptor<u32> = PipelineLayoutDescriptor {
        bind_group_layouts: vec![1, 2],
        push_constant_ranges: vec![range(ShaderStage::vertex(), 0, 16)],
    };
    assert_eq!(
        layout.validate(&Features::empty(), &limits),
        Err(PipelineLayoutError::PushConstantsRequireFeature)
    );
    assert_eq!(layout.validate(&Features::push_constants(), &limits), Ok(()));
}

#[test]
fn pipeline_layout_bind_group_count_limited() {
    let limits = Limits::default();
    let layout: PipelineLayoutDescriptor<u32> = PipelineLayoutDescriptor {
        bind_group_layouts: vec![0, 1, 2, 3, 4],
        push_constant_ranges: Vec::new(),
    };
    assert_eq!(
        layout.validate(&Features::empty(), &limits),
        Err(PipelineLayoutError::TooManyBindGroups { count: 5, max: 4 })
    );
    let layout: PipelineLayoutDescriptor<u32> = PipelineLayoutDescriptor {
        bind_group_layouts: vec![0, 1, 2, 3],
        push_constant_ranges: Vec::new(),
    };
    assert_eq!(layout.validate(&Features::empty(), &limits), Ok(()));
}

#[test]
fn shader_stage_set_operations() {
    let v = ShaderStage::vertex();
    let f = ShaderStage::fragment();
    let c = ShaderStage::compute();
    assert_eq!(ShaderStage::none().bits, 0);
    assert_eq!(v.union(f).bits, 3);
    assert_eq!(v.union(f).intersect(f), f);
    assert_eq!(v.intersect(c), ShaderStage::none());
    assert!(v.union(f).contains(v));
    assert!(!v.contains(f));
}

#[test]
fn vertex_attributes_must_fit_stride() {
    let buffer = VertexBufferDescriptor {
        stride: 24,
        step_mode: InputStepMode::Vertex,
        attributes: vec![
            VertexAttributeDescriptor { offset: 0, format: VertexFormat::Float3, shader_location: 0 },
            VertexAttributeDescriptor { offset: 12, format: VertexFormat::Float3, shader_location: 1 },
        ],
    };
    assert!(buffer.attributes_fit_stride());

    let overrun = VertexBufferDescriptor {
        stride: 24,
        step_mode: InputStepMode::Vertex,
        attributes: vec![
            VertexAttributeDescriptor { offset: 0, format: VertexFormat::Float3, shader_location: 0 },
            VertexAttributeDescriptor { offset: 12, format: VertexFormat::Float4, shader_location: 1 },
        ],
    };
    assert!(!overrun.attributes_fit_stride());
}

#[test]
fn vertex_stride_check_handles_extremes() {
    let empty = VertexBufferDescriptor {
        stride: 0,
        step_mode: InputStepMode::Instance,
        attributes: Vec::new(),
    };
    assert!(empty.attributes_fit_stride());

    let huge_offset = VertexBufferDescriptor {
        stride: 16,
        step_mode: InputStepMode::Vertex,
        attributes: vec![VertexAttributeDescriptor {
            offset: u64::MAX,
            format: VertexFormat::Float4,
            shader_location: 0,
        }],
    };
    assert!(!huge_offset.attributes_fit_stride());
}
