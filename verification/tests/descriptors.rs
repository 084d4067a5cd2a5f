//! Tests for descriptor construction, defaults, and the label projection.

use wgpu_types::blend::{BlendDescriptor, BlendFactor, BlendOperation, Color, ColorWrite};
use wgpu_types::buffer::{BufferDescriptor, BufferUsage};
use wgpu_types::command::{CommandBufferDescriptor, CommandEncoderDescriptor, RenderBundleDescriptor};
use wgpu_types::pipeline::{
    CompareFunction, CullMode, DepthStencilStateDescriptor, FrontFace, IndexFormat,
    RasterizationStateDescriptor, StencilOperation, StencilStateFaceDescriptor,
};
use wgpu_types::sampler::{AddressMode, FilterMode, SamplerDescriptor};
use wgpu_types::texture::{
    Extent3d, Origin3d, TextureAspect, TextureDescriptor, TextureDimension, TextureFormat,
    TextureUsage, TextureViewDescriptor, TextureViewDimension,
};

fn sample_buffer_descriptor() -> BufferDescriptor<String> {
    BufferDescriptor {
        label: String::from("staging"),
        size: 1024,
        usage: BufferUsage::copy_src().union(BufferUsage::map_write()),
        mapped_at_creation: true,
    }
}

fn sample_texture_descriptor() -> TextureDescriptor<String> {
    TextureDescriptor {
        label: String::from("albedo"),
        size: Extent3d { width: 256, height: 256, depth: 1 },
        mip_level_count: 1,
        sample_count: 1,
        dimension: TextureDimension::D2,
        format: TextureFormat::Rgba8UnormSrgb,
        usage: TextureUsage::sampled().union(TextureUsage::copy_dst()),
    }
}

#[test]
fn map_label_preserves_every_other_field() {
    let d = sample_buffer_descriptor();
    let mapped = d.map_label(|l| l.len());
    assert_eq!(mapped.label, 7);
    assert_eq!(mapped.size, d.size);
    assert_eq!(mapped.usage, d.usage);
    assert_eq!(mapped.mapped_at_creation, d.mapped_at_creation);

    let t = sample_texture_descriptor();
    let mapped = t.map_label(|l| Some(l.clone()));
    assert_eq!(mapped.label, Some(String::from("albedo")));
    assert_eq!(mapped.size, t.size);
    assert_eq!(mapped.mip_level_count, t.mip_level_count);
    assert_eq!(mapped.sample_count, t.sample_count);
    assert_eq!(mapped.dimension, t.dimension);
    assert_eq!(mapped.format, t.format);
    assert_eq!(mapped.usage, t.usage);
}

#[test]
fn map_label_identity_round_trip() {
    let d = sample_buffer_descriptor();
    let same = d.map_label(|l| l.clone());
    assert_eq!(same, d);
    let t = sample_texture_descriptor();
    let same = t.map_label(|l| l.clone());
    assert_eq!(same, t);
}

#[test]
fn map_label_composes() {
    // Mapping with f then g equals mapping once with g after f.
    let d = sample_buffer_descriptor();
    let f = |l: &String| l.len();
    let g = |n: &usize| (n * 2) as u64;
    let two_steps = d.map_label(f).map_label(g);
    let one_step = d.map_label(|l| (l.len() * 2) as u64);
    assert_eq!(two_steps, one_step);
}

#[test]
fn map_label_on_label_only_descriptors() {
    let e = CommandEncoderDescriptor { label: String::from("frame") };
    assert_eq!(e.map_label(|l| l.len()), CommandEncoderDescriptor { label: 5 });
    let b = RenderBundleDescriptor { label: String::from("bundle") };
    assert_eq!(b.map_label(|l| l.is_empty()), RenderBundleDescriptor { label: false });
}

#[test]
fn map_label_on_view_and_sampler_descriptors() {
    let v = TextureViewDescriptor {
        label: 1u32,
        format: TextureFormat::Depth32Float,
        dimension: TextureViewDimension::D2,
        aspect: TextureAspect::DepthOnly,
        base_mip_level: 0,
        level_count: 1,
        base_array_layer: 0,
        array_layer_count: 1,
    };
    let mapped = v.map_label(|l| *l + 1);
    assert_eq!(mapped.label, 2);
    assert_eq!(mapped.format, v.format);
    assert_eq!(mapped.dimension, v.dimension);
    assert_eq!(mapped.aspect, v.aspect);
    assert_eq!(mapped.level_count, v.level_count);

    let s: SamplerDescriptor<()> = SamplerDescriptor {
        label: (),
        address_mode_u: AddressMode::Repeat,
        address_mode_v: AddressMode::ClampToEdge,
        address_mode_w: AddressMode::MirrorRepeat,
        mag_filter: FilterMode::Linear,
        min_filter: FilterMode::Nearest,
        mipmap_filter: FilterMode::Nearest,
        lod_min_clamp: 0.0f32.to_bits(),
        lod_max_clamp: f32::MAX.to_bits(),
        compare: Some(CompareFunction::LessEqual),
        anisotropy_clamp: Some(16),
    };
    let mapped = s.map_label(|_| String::from("shadow"));
    assert_eq!(mapped.label, "shadow");
    assert_eq!(mapped.address_mode_u, AddressMode::Repeat);
    assert_eq!(mapped.mag_filter, FilterMode::Linear);
    assert_eq!(f32::from_bits(mapped.lod_max_clamp), f32::MAX);
    assert_eq!(mapped.compare, Some(CompareFunction::LessEqual));
    assert_eq!(mapped.anisotropy_clamp, Some(16));
}

#[test]
fn depth_stencil_read_only_scenario() {
    let state = DepthStencilStateDescriptor {
        format: TextureFormat::Depth24PlusStencil8,
        depth_write_enabled: false,
        depth_compare: CompareFunction::Less,
        stencil_front: StencilStateFaceDescriptor::ignore(),
        stencil_back: StencilStateFaceDescriptor::ignore(),
        stencil_read_mask: 0,
        stencil_write_mask: 0,
    };
    assert!(state.is_read_only());
    assert!(!state.needs_stencil_reference());
}

#[test]
fn depth_stencil_writes_or_nontrivial_compare() {
    let mut state = DepthStencilStateDescriptor {
        format: TextureFormat::Depth24PlusStencil8,
        depth_write_enabled: true,
        depth_compare: CompareFunction::Less,
        stencil_front: StencilStateFaceDescriptor::ignore(),
        stencil_back: StencilStateFaceDescriptor::ignore(),
        stencil_read_mask: !0,
        stencil_write_mask: !0,
    };
    assert!(!state.is_read_only());
    state.stencil_back = StencilStateFaceDescriptor {
        compare: CompareFunction::Equal,
        fail_op: StencilOperation::Keep,
        depth_fail_op: StencilOperation::Keep,
        pass_op: StencilOperation::Replace,
    };
    assert!(state.needs_stencil_reference());
}

#[test]
fn compare_function_triviality() {
    assert!(CompareFunction::Never.is_trivial());
    assert!(CompareFunction::Always.is_trivial());
    for c in [
        CompareFunction::Undefined,
        CompareFunction::Less,
        CompareFunction::Equal,
        CompareFunction::LessEqual,
        CompareFunction::Greater,
        CompareFunction::NotEqual,
        CompareFunction::GreaterEqual,
    ] {
        assert!(!c.is_trivial());
    }
}

#[test]
fn blend_descriptor_uses_color_scenario() {
    let d = BlendDescriptor {
        src_factor: BlendFactor::BlendColor,
        dst_factor: BlendFactor::Zero,
        operation: BlendOperation::Add,
    };
    assert!(d.uses_color());
}

#[test]
fn blend_descriptor_color_usage_table() {
    let mk = |src, dst| BlendDescriptor { src_factor: src, dst_factor: dst, operation: BlendOperation::Add };
    assert!(mk(BlendFactor::OneMinusBlendColor, BlendFactor::One).uses_color());
    assert!(mk(BlendFactor::One, BlendFactor::BlendColor).uses_color());
    assert!(mk(BlendFactor::SrcAlpha, BlendFactor::OneMinusBlendColor).uses_color());
    assert!(!mk(BlendFactor::One, BlendFactor::Zero).uses_color());
    assert!(!mk(BlendFactor::SrcAlpha, BlendFactor::OneMinusSrcAlpha).uses_color());
    assert!(!BlendDescriptor::replace().uses_color());
    assert_eq!(BlendDescriptor::default(), BlendDescriptor::replace());
}

#[test]
fn small_defaults() {
    assert_eq!(BlendOperation::default(), BlendOperation::Add);
    assert_eq!(FrontFace::default(), FrontFace::Ccw);
    assert_eq!(CullMode::default(), CullMode::Disabled);
    assert_eq!(IndexFormat::default(), IndexFormat::Uint32);
    assert_eq!(StencilOperation::default(), StencilOperation::Keep);
    assert_eq!(StencilStateFaceDescriptor::default(), StencilStateFaceDescriptor::ignore());
    assert_eq!(AddressMode::default(), AddressMode::ClampToEdge);
    assert_eq!(FilterMode::default(), FilterMode::Nearest);
    assert_eq!(TextureAspect::default(), TextureAspect::All);
    assert_eq!(Origin3d::default(), Origin3d::zero());
    assert_eq!(ColorWrite::default(), ColorWrite::all());
    assert_eq!(CommandBufferDescriptor::default().todo, 0);
}

#[test]
fn sampler_descriptor_default() {
    let s: SamplerDescriptor<Option<String>> = SamplerDescriptor::default();
    assert_eq!(s.label, None);
    assert_eq!(s.address_mode_u, AddressMode::ClampToEdge);
    assert_eq!(s.address_mode_v, AddressMode::ClampToEdge);
    assert_eq!(s.address_mode_w, AddressMode::ClampToEdge);
    assert_eq!(s.mag_filter, FilterMode::Nearest);
    assert_eq!(s.min_filter, FilterMode::Nearest);
    assert_eq!(s.mipmap_filter, FilterMode::Nearest);
    assert_eq!(f32::from_bits(s.lod_min_clamp), 0.0);
    assert_eq!(f32::from_bits(s.lod_max_clamp), f32::MAX);
    assert_eq!(s.compare, None);
    assert_eq!(s.anisotropy_clamp, None);
}

#[test]
fn encoder_and_rasterization_defaults() {
    let e: CommandEncoderDescriptor<String> = CommandEncoderDescriptor::default();
    assert_eq!(e.label, "");
    let r = RasterizationStateDescriptor::default();
    assert_eq!(r.front_face, FrontFace::Ccw);
    assert_eq!(r.cull_mode, CullMode::Disabled);
    assert!(!r.clamp_depth);
    assert_eq!(r.depth_bias, 0);
    assert_eq!(f32::from_bits(r.depth_bias_slope_scale), 0.0);
    assert_eq!(f32::from_bits(r.depth_bias_clamp), 0.0);
}

#[test]
fn stencil_ignore_is_inert() {
    let f = StencilStateFaceDescriptor::ignore();
    assert_eq!(f.compare, CompareFunction::Always);
    assert!(f.compare.is_trivial());
    assert_eq!(f.fail_op, StencilOperation::Keep);
    assert_eq!(f.depth_fail_op, StencilOperation::Keep);
    assert_eq!(f.pass_op, StencilOperation::Keep);
}

#[test]
fn color_write_masks() {
    assert_eq!(
        ColorWrite::red().union(ColorWrite::green()).union(ColorWrite::blue()),
        ColorWrite::color()
    );
    assert_eq!(ColorWrite::color().union(ColorWrite::alpha()), ColorWrite::all());
    assert!(ColorWrite::all().contains(ColorWrite::color()));
    assert!(!ColorWrite::color().contains(ColorWrite::alpha()));
}

#[test]
fn color_constants_carry_ieee_bit_patterns() {
    assert_eq!(f64::from_bits(Color::white().r), 1.0);
    assert_eq!(f64::from_bits(Color::black().a), 1.0);
    assert_eq!(f64::from_bits(Color::transparent().a), 0.0);
    assert_eq!(f64::from_bits(Color::red().r), 1.0);
    assert_eq!(f64::from_bits(Color::red().g), 0.0);
    assert_eq!(f64::from_bits(Color::green().g), 1.0);
    assert_eq!(f64::from_bits(Color::blue().b), 1.0);
}
