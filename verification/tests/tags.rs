//! Tests that the wire tags of every tagged enumeration are fixed, dense,
//! and round-trip through their decoders.

use wgpu_types::backend::PowerPreference;
use wgpu_types::blend::{BlendFactor, BlendOperation};
use wgpu_types::pipeline::{
    CompareFunction, CullMode, FrontFace, IndexFormat, PrimitiveTopology, StencilOperation,
};
use wgpu_types::sampler::{AddressMode, FilterMode};
use wgpu_types::swapchain::PresentMode;
use wgpu_types::vertex::InputStepMode;

fn round_trip_dense<T, F, G>(count: u8, from_tag: F, tag: G)
where
    T: PartialEq + std::fmt::Debug,
    F: Fn(u8) -> Option<T>,
    G: Fn(&T) -> u8,
{
    for t in 0..count {
        let v = from_tag(t).expect("tag below the variant count names a variant");
        assert_eq!(tag(&v), t);
    }
    assert_eq!(from_tag(count), None);
    assert_eq!(from_tag(u8::MAX), None);
}

#[test]
fn power_preference_tags() {
    round_trip_dense(3, PowerPreference::from_tag, |v| v.tag());
    assert_eq!(PowerPreference::Default.tag(), 0);
    assert_eq!(PowerPreference::LowPower.tag(), 1);
    assert_eq!(PowerPreference::HighPerformance.tag(), 2);
}

#[test]
fn blend_factor_tags() {
    round_trip_dense(13, BlendFactor::from_tag, |v| v.tag());
    assert_eq!(BlendFactor::Zero.tag(), 0);
    assert_eq!(BlendFactor::One.tag(), 1);
    assert_eq!(BlendFactor::SrcAlphaSaturated.tag(), 10);
    assert_eq!(BlendFactor::BlendColor.tag(), 11);
    assert_eq!(BlendFactor::OneMinusBlendColor.tag(), 12);
}

#[test]
fn blend_operation_tags() {
    round_trip_dense(5, BlendOperation::from_tag, |v| v.tag());
    assert_eq!(BlendOperation::Add.tag(), 0);
    assert_eq!(BlendOperation::Subtract.tag(), 1);
    assert_eq!(BlendOperation::ReverseSubtract.tag(), 2);
    assert_eq!(BlendOperation::Min.tag(), 3);
    assert_eq!(BlendOperation::Max.tag(), 4);
}

#[test]
fn primitive_topology_tags() {
    round_trip_dense(5, PrimitiveTopology::from_tag, |v| v.tag());
    assert_eq!(PrimitiveTopology::PointList.tag(), 0);
    assert_eq!(PrimitiveTopology::LineList.tag(), 1);
    assert_eq!(PrimitiveTopology::LineStrip.tag(), 2);
    assert_eq!(PrimitiveTopology::TriangleList.tag(), 3);
    assert_eq!(PrimitiveTopology::TriangleStrip.tag(), 4);
}

#[test]
fn front_face_and_cull_mode_tags() {
    round_trip_dense(2, FrontFace::from_tag, |v| v.tag());
    assert_eq!(FrontFace::Ccw.tag(), 0);
    assert_eq!(FrontFace::Cw.tag(), 1);
    round_trip_dense(3, CullMode::from_tag, |v| v.tag());
    assert_eq!(CullMode::Disabled.tag(), 0);
    assert_eq!(CullMode::Front.tag(), 1);
    assert_eq!(CullMode::Back.tag(), 2);
}

#[test]
fn compare_function_tags() {
    round_trip_dense(9, CompareFunction::from_tag, |v| v.tag());
    assert_eq!(CompareFunction::Undefined.tag(), 0);
    assert_eq!(CompareFunction::Never.tag(), 1);
    assert_eq!(CompareFunction::Less.tag(), 2);
    assert_eq!(CompareFunction::Equal.tag(), 3);
    assert_eq!(CompareFunction::LessEqual.tag(), 4);
    assert_eq!(CompareFunction::Greater.tag(), 5);
    assert_eq!(CompareFunction::NotEqual.tag(), 6);
    assert_eq!(CompareFunction::GreaterEqual.tag(), 7);
    assert_eq!(CompareFunction::Always.tag(), 8);
}

#[test]
fn stencil_operation_tags() {
    round_trip_dense(8, StencilOperation::from_tag, |v| v.tag());
    assert_eq!(StencilOperation::Keep.tag(), 0);
    assert_eq!(StencilOperation::Zero.tag(), 1);
    assert_eq!(StencilOperation::Replace.tag(), 2);
    assert_eq!(StencilOperation::Invert.tag(), 3);
    assert_eq!(StencilOperation::IncrementClamp.tag(), 4);
    assert_eq!(StencilOperation::DecrementClamp.tag(), 5);
    assert_eq!(StencilOperation::IncrementWrap.tag(), 6);
    assert_eq!(StencilOperation::DecrementWrap.tag(), 7);
}

#[test]
fn index_format_and_step_mode_tags() {
    round_trip_dense(2, IndexFormat::from_tag, |v| v.tag());
    assert_eq!(IndexFormat::Uint16.tag(), 0);
    assert_eq!(IndexFormat::Uint32.tag(), 1);
    round_trip_dense(2, InputStepMode::from_tag, |v| v.tag());
    assert_eq!(InputStepMode::Vertex.tag(), 0);
    assert_eq!(InputStepMode::Instance.tag(), 1);
}

#[test]
fn sampler_mode_tags() {
    round_trip_dense(3, AddressMode::from_tag, |v| v.tag());
    assert_eq!(AddressMode::ClampToEdge.tag(), 0);
    assert_eq!(AddressMode::Repeat.tag(), 1);
    assert_eq!(AddressMode::MirrorRepeat.tag(), 2);
    round_trip_dense(2, FilterMode::from_tag, |v| v.tag());
    assert_eq!(FilterMode::Nearest.tag(), 0);
    assert_eq!(FilterMode::Linear.tag(), 1);
}

#[test]
fn present_mode_tags() {
    round_trip_dense(3, PresentMode::from_tag, |v| v.tag());
    assert_eq!(PresentMode::Immediate.tag(), 0);
    assert_eq!(PresentMode::Mailbox.tag(), 1);
    assert_eq!(PresentMode::Fifo.tag(), 2);
}
