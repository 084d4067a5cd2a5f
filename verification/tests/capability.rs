//! Tests for the capability model: backends, features, limits and device
//! request negotiation.

use wgpu_types::backend::{Backend, BackendBit, PowerPreference};
use wgpu_types::device::{validate_device_request, CapabilityViolation, DeviceDescriptor};
use wgpu_types::features::Features;
use wgpu_types::limits::{LimitKind, Limits};

fn all_backends() -> Vec<Backend> {
    vec![
        Backend::Empty,
        Backend::Vulkan,
        Backend::Metal,
        Backend::Dx12,
        Backend::Dx11,
        Backend::Gl,
        Backend::BrowserWebGpu,
    ]
}

#[test]
fn backend_tags_are_fixed() {
    assert_eq!(Backend::Empty.tag(), 0);
    assert_eq!(Backend::Vulkan.tag(), 1);
    assert_eq!(Backend::Metal.tag(), 2);
    assert_eq!(Backend::Dx12.tag(), 3);
    assert_eq!(Backend::Dx11.tag(), 4);
    assert_eq!(Backend::Gl.tag(), 5);
    assert_eq!(Backend::BrowserWebGpu.tag(), 6);
}

#[test]
fn backend_tags_round_trip_and_are_unique() {
    let mut seen = Vec::new();
    for b in all_backends() {
        let t = b.tag();
        assert_eq!(Backend::from_tag(t), Some(b));
        assert!(!seen.contains(&t), "tag {} assigned twice", t);
        seen.push(t);
    }
    assert_eq!(Backend::from_tag(7), None);
}

#[test]
fn backend_set_from_backend_is_singleton() {
    for b in all_backends() {
        let set = BackendBit::from(b);
        assert_eq!(set.bits, 1u32 << (b.tag() as u32));
        assert_eq!(set.bits.count_ones(), 1);
        for other in all_backends() {
            assert_eq!(set.contains(other), other == b);
        }
    }
}

#[test]
fn backend_set_primary_and_secondary() {
    let primary = BackendBit::primary();
    assert_eq!(
        primary,
        BackendBit::vulkan()
            .union(BackendBit::metal())
            .union(BackendBit::dx12())
            .union(BackendBit::browser_webgpu())
    );
    let secondary = BackendBit::secondary();
    assert_eq!(secondary, BackendBit::gl().union(BackendBit::dx11()));
    assert_eq!(primary.intersect(secondary), BackendBit::empty());
    assert!(primary.contains(Backend::Vulkan));
    assert!(!primary.contains(Backend::Gl));
    assert!(secondary.contains(Backend::Dx11));
    assert!(!secondary.contains(Backend::Dx12));
}

#[test]
fn power_preference_default() {
    assert_eq!(PowerPreference::default(), PowerPreference::Default);
}

#[test]
fn features_subset_checks() {
    let none = Features::empty();
    let push = Features::push_constants();
    let both = push.union(Features::depth_clamping());
    assert!(none.is_subset_of(none));
    assert!(push.is_subset_of(push));
    assert!(push.is_subset_of(both));
    assert!(!both.is_subset_of(push));
    assert!(!push.is_subset_of(none));
    assert!(both.contains(push));
    assert!(!push.contains(both));
    assert_eq!(Features::default(), none);
}

#[test]
fn features_web_and_native_partition() {
    assert_eq!(Features::all_webgpu().intersect(Features::all_native()), Features::empty());
    assert_eq!(
        Features::all_webgpu().union(Features::all_native()).bits,
        u64::MAX
    );
    assert!(Features::depth_clamping().is_subset_of(Features::all_webgpu()));
    assert!(Features::push_constants().is_subset_of(Features::all_native()));
}

#[test]
fn limits_default_values() {
    let l = Limits::default();
    assert_eq!(l.max_bind_groups, 4);
    assert_eq!(l.max_dynamic_uniform_buffers_per_pipeline_layout, 8);
    assert_eq!(l.max_dynamic_storage_buffers_per_pipeline_layout, 4);
    assert_eq!(l.max_sampled_textures_per_shader_stage, 16);
    assert_eq!(l.max_samplers_per_shader_stage, 16);
    assert_eq!(l.max_storage_buffers_per_shader_stage, 4);
    assert_eq!(l.max_storage_textures_per_shader_stage, 4);
    assert_eq!(l.max_uniform_buffers_per_shader_stage, 12);
    assert_eq!(l.max_uniform_buffer_binding_size, 16384);
    assert_eq!(l.max_push_constant_size, 0);
}

#[test]
fn limits_fit_within_is_reflexive() {
    let l = Limits::default();
    assert!(l.fits_within(&l));
    let mut bigger = l.clone();
    bigger.max_bind_groups = 8;
    assert!(bigger.fits_within(&bigger));
    assert!(l.fits_within(&bigger));
}

#[test]
fn limits_raising_any_field_breaks_fit() {
    let adv = Limits::default();
    let fields: [fn(&mut Limits); 10] = [
        |l| l.max_bind_groups += 1,
        |l| l.max_dynamic_uniform_buffers_per_pipeline_layout += 1,
        |l| l.max_dynamic_storage_buffers_per_pipeline_layout += 1,
        |l| l.max_sampled_textures_per_shader_stage += 1,
        |l| l.max_samplers_per_shader_stage += 1,
        |l| l.max_storage_buffers_per_shader_stage += 1,
        |l| l.max_storage_textures_per_shader_stage += 1,
        |l| l.max_uniform_buffers_per_shader_stage += 1,
        |l| l.max_uniform_buffer_binding_size += 1,
        |l| l.max_push_constant_size += 1,
    ];
    for raise in fields {
        let mut req = adv.clone();
        raise(&mut req);
        assert!(!req.fits_within(&adv));
    }
}

#[test]
fn limits_first_exceeded_reports_first_field_in_order() {
    let adv = Limits::default();
    let mut req = adv.clone();
    assert_eq!(req.first_exceeded(&adv), None);
    req.max_push_constant_size = 64;
    assert_eq!(req.first_exceeded(&adv), Some(LimitKind::MaxPushConstantSize));
    req.max_bind_groups = 5;
    assert_eq!(req.first_exceeded(&adv), Some(LimitKind::MaxBindGroups));
}

#[test]
fn device_request_within_capabilities_is_ok() {
    let adv_features = Features::push_constants();
    let adv_limits = Limits::default();
    let desc = DeviceDescriptor {
        features: Features::push_constants(),
        limits: Limits::default(),
        shader_validation: true,
    };
    assert_eq!(validate_device_request(&adv_features, &adv_limits, &desc), Ok(()));
}

#[test]
fn requesting_unadvertised_feature_is_contract_violation() {
    let adv_features = Features::empty();
    let adv_limits = Limits::default();
    let desc = DeviceDescriptor {
        features: Features::push_constants(),
        limits: Limits::default(),
        shader_validation: false,
    };
    let r = validate_device_request(&adv_features, &adv_limits, &desc);
    assert_eq!(
        r,
        Err(CapabilityViolation::MissingFeatures { missing: Features::push_constants() })
    );
}

#[test]
fn requesting_limit_above_advertised_is_contract_violation() {
    let adv_features = Features::empty();
    let adv_limits = Limits::default();
    let mut limits = Limits::default();
    limits.max_samplers_per_shader_stage = 32;
    let desc = DeviceDescriptor { features: Features::empty(), limits, shader_validation: false };
    let r = validate_device_request(&adv_features, &adv_limits, &desc);
    assert_eq!(
        r,
        Err(CapabilityViolation::LimitExceeded {
            limit: LimitKind::MaxSamplersPerShaderStage,
            requested: 32,
            allowed: 16,
        })
    );
}

#[test]
fn missing_features_reported_before_limits() {
    let adv_features = Features::empty();
    let adv_limits = Limits::default();
    let mut limits = Limits::default();
    limits.max_bind_groups = 100;
    let desc = DeviceDescriptor {
        features: Features::depth_clamping(),
        limits,
        shader_validation: false,
    };
    let r = validate_device_request(&adv_features, &adv_limits, &desc);
    assert_eq!(
        r,
        Err(CapabilityViolation::MissingFeatures { missing: Features::depth_clamping() })
    );
}

#[test]
fn request_adapter_options_default() {
    let o: wgpu_types::backend::RequestAdapterOptions<u32> = Default::default();
    assert_eq!(o.power_preference, PowerPreference::Default);
    assert_eq!(o.compatible_surface, None);
}

#[test]
fn feature_bits_are_fixed() {
    assert_eq!(Features::depth_clamping().bits, 0x0000_0000_0000_0001);
    assert_eq!(Features::mappable_primary_buffers().bits, 0x0000_0000_0001_0000);
    assert_eq!(Features::sampled_texture_binding_array().bits, 0x0000_0000_0002_0000);
    assert_eq!(Features::sampled_texture_array_dynamic_indexing().bits, 0x0000_0000_0004_0000);
    assert_eq!(Features::sampled_texture_array_non_uniform_indexing().bits, 0x0000_0000_0008_0000);
    assert_eq!(Features::unsized_binding_array().bits, 0x0000_0000_0010_0000);
    assert_eq!(Features::multi_draw_indirect().bits, 0x0000_0000_0020_0000);
    assert_eq!(Features::multi_draw_indirect_count().bits, 0x0000_0000_0040_0000);
    assert_eq!(Features::push_constants().bits, 0x0000_0000_0080_0000);
    assert_eq!(Features::all_webgpu().bits, 0x0000_0000_0000_FFFF);
    assert_eq!(Features::all_native().bits, 0xFFFF_FFFF_FFFF_0000);
}

#[test]
fn device_descriptor_default() {
    let d = DeviceDescriptor::default();
    assert_eq!(d.features, Features::empty());
    assert_eq!(d.limits, Limits::default());
    assert!(!d.shader_validation);
}
