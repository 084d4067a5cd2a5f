//! Tests that build the larger descriptors end to end: pipelines, render
//! passes, bind groups, copies and swap chains.

use wgpu_types::binding::{BindGroupDescriptor, BindGroupEntry};
use wgpu_types::blend::{BlendDescriptor, ColorStateDescriptor, ColorWrite};
use wgpu_types::buffer::{BufferCopyView, BufferDescriptor, BufferUsage};
use wgpu_types::command::{
    RenderBundleDescriptor, RenderBundleEncoderDescriptor, RenderPassDescriptor,
};
use wgpu_types::pipeline::{
    ComputePipelineDescriptor, CullMode, FrontFace, PrimitiveTopology, ProgrammableStageDescriptor,
    RasterizationStateDescriptor, RenderPipelineDescriptor,
};
use wgpu_types::swapchain::{PresentMode, SwapChainDescriptor, SwapChainStatus};
use wgpu_types::texture::{
    Extent3d, Origin3d, TextureCopyView, TextureDataLayout, TextureFormat, TextureUsage,
};
use wgpu_types::vertex::{
    InputStepMode, VertexAttributeDescriptor, VertexBufferDescriptor, VertexFormat,
    VertexStateDescriptor,
};
use wgpu_types::pipeline::IndexFormat;

fn vertex_state() -> VertexStateDescriptor {
    VertexStateDescriptor {
        index_format: IndexFormat::Uint16,
        vertex_buffers: vec![
            VertexBufferDescriptor {
                stride: 32,
                step_mode: InputStepMode::Vertex,
                attributes: vec![
                    VertexAttributeDescriptor {
                        offset: 0,
                        format: VertexFormat::Float4,
                        shader_location: 0,
                    },
                    VertexAttributeDescriptor {
                        offset: 16,
                        format: VertexFormat::Float4,
                        shader_location: 1,
                    },
                ],
            },
            VertexBufferDescriptor {
                stride: 8,
                step_mode: InputStepMode::Instance,
                attributes: vec![VertexAttributeDescriptor {
                    offset: 0,
                    format: VertexFormat::Float2,
                    shader_location: 2,
                }],
            },
        ],
    }
}

#[test]
fn vertex_state_strides_checked_across_buffers() {
    let state = vertex_state();
    assert!(state.buffers_fit_strides());

    let mut broken = vertex_state();
    broken.vertex_buffers[1].stride = 4;
    assert!(!broken.buffers_fit_strides());
}

#[test]
fn render_pipeline_descriptor_holds_all_stages() {
    let desc: RenderPipelineDescriptor<u32, ProgrammableStageDescriptor<u32>> =
        RenderPipelineDescriptor {
            layout: 1,
            vertex_stage: ProgrammableStageDescriptor {
                module: 10,
                entry_point: String::from("vs_main"),
            },
            fragment_stage: Some(ProgrammableStageDescriptor {
                module: 11,
                entry_point: String::from("fs_main"),
            }),
            rasterization_state: Some(RasterizationStateDescriptor {
                front_face: FrontFace::Ccw,
                cull_mode: CullMode::Back,
                clamp_depth: false,
                depth_bias: 0,
                depth_bias_slope_scale: 0.0f32.to_bits(),
                depth_bias_clamp: 0.0f32.to_bits(),
            }),
            primitive_topology: PrimitiveTopology::TriangleList,
            color_states: vec![ColorStateDescriptor {
                format: TextureFormat::Bgra8UnormSrgb,
                alpha_blend: BlendDescriptor::replace(),
                color_blend: BlendDescriptor::replace(),
                write_mask: ColorWrite::all(),
            }],
            depth_stencil_state: None,
            vertex_state: vertex_state(),
            sample_count: 1,
            sample_mask: !0,
            alpha_to_coverage_enabled: false,
        };
    assert_eq!(desc.vertex_stage.entry_point, "vs_main");
    assert_eq!(desc.fragment_stage.as_ref().unwrap().module, 11);
    assert_eq!(desc.color_states.len(), 1);
    assert!(desc.depth_stencil_state.is_none());
    assert!(desc.vertex_state.buffers_fit_strides());

    let depth_only: RenderPipelineDescriptor<u32, ProgrammableStageDescriptor<u32>> =
        RenderPipelineDescriptor {
            fragment_stage: None,
            color_states: Vec::new(),
            ..desc.clone()
        };
    assert!(depth_only.fragment_stage.is_none());
    assert!(depth_only.color_states.is_empty());
}

#[test]
fn compute_pipeline_descriptor() {
    let desc = ComputePipelineDescriptor {
        layout: 7u32,
        compute_stage: ProgrammableStageDescriptor {
            module: 3u32,
            entry_point: String::from("cs_main"),
        },
    };
    assert_eq!(desc.layout, 7);
    assert_eq!(desc.compute_stage.entry_point, "cs_main");
}

#[test]
fn render_pass_descriptor_attachments() {
    let pass: RenderPassDescriptor<u32, u64> = RenderPassDescriptor {
        color_attachments: vec![1, 2, 3],
        depth_stencil_attachment: Some(9),
    };
    assert_eq!(pass.color_attachments, vec![1, 2, 3]);
    assert_eq!(pass.depth_stencil_attachment, Some(9));
}

#[test]
fn bind_group_descriptor_entries() {
    let group: BindGroupDescriptor<u32, BindGroupEntry<u64>> = BindGroupDescriptor {
        label: Some(String::from("material")),
        layout: 5,
        entries: vec![
            BindGroupEntry { binding: 0, resource: 100 },
            BindGroupEntry { binding: 1, resource: 200 },
        ],
    };
    assert_eq!(group.entries[1].binding, 1);
    assert_eq!(group.entries[1].resource, 200);
}

#[test]
fn copy_views_carry_layout_and_origin() {
    let buf_view = BufferCopyView {
        buffer: 4u32,
        layout: TextureDataLayout { offset: 256, bytes_per_row: 1024, rows_per_image: 256 },
    };
    assert_eq!(buf_view.layout.offset, 256);
    assert_eq!(buf_view.layout.bytes_per_row % wgpu_types::COPY_BYTES_PER_ROW_ALIGNMENT, 0);

    let tex_view = TextureCopyView {
        texture: 8u32,
        mip_level: 2,
        origin: Origin3d { x: 1, y: 2, z: 0 },
    };
    assert_eq!(tex_view.mip_level, 2);
    assert_eq!(tex_view.origin, Origin3d { x: 1, y: 2, z: 0 });
}

#[test]
fn alignment_constants() {
    assert_eq!(wgpu_types::COPY_BYTES_PER_ROW_ALIGNMENT, 256);
    assert_eq!(wgpu_types::BIND_BUFFER_ALIGNMENT, 256);
    assert_eq!(wgpu_types::COPY_BUFFER_ALIGNMENT, 4);
    assert_eq!(wgpu_types::PUSH_CONSTANT_ALIGNMENT, 4);
}

#[test]
fn swap_chain_descriptor_and_status() {
    let sc = SwapChainDescriptor {
        usage: TextureUsage::output_attachment(),
        format: TextureFormat::Bgra8Unorm,
        width: 1920,
        height: 1080,
        present_mode: PresentMode::Fifo,
    };
    assert_eq!(sc.format.tag(), 22);
    assert_eq!(sc.present_mode, PresentMode::Fifo);
    assert_ne!(SwapChainStatus::Good, SwapChainStatus::Lost);
}

#[test]
fn render_bundle_descriptors() {
    let enc = RenderBundleEncoderDescriptor {
        label: Some(String::from("ui")),
        color_formats: vec![TextureFormat::Bgra8UnormSrgb],
        depth_stencil_format: Some(TextureFormat::Depth24Plus),
        sample_count: 1,
    };
    assert_eq!(enc.color_formats.len(), 1);
    assert_eq!(enc.depth_stencil_format, Some(TextureFormat::Depth24Plus));

    let bundle = RenderBundleDescriptor { label: String::from("ui") };
    let replay = bundle.map_label(|l| l.len() as u32);
    assert_eq!(replay.label, 2);
}

#[test]
fn buffer_usage_combinations() {
    let usage = BufferUsage::vertex().union(BufferUsage::copy_dst());
    assert!(usage.contains(BufferUsage::vertex()));
    assert!(usage.contains(BufferUsage::copy_dst()));
    assert!(!usage.contains(BufferUsage::index()));
    assert_eq!(BufferUsage::map_read().bits, 1);
    assert_eq!(BufferUsage::indirect().bits, 256);
    let desc = BufferDescriptor { label: (), size: 64, usage, mapped_at_creation: false };
    assert_eq!(desc.size, 64);
}

#[test]
fn texture_usage_combinations() {
    let usage = TextureUsage::sampled().union(TextureUsage::copy_src());
    assert!(usage.contains(TextureUsage::sampled()));
    assert!(!usage.contains(TextureUsage::storage()));
    assert_eq!(TextureUsage::copy_src().bits, 1);
    assert_eq!(TextureUsage::output_attachment().bits, 16);
    let extent = Extent3d { width: 16, height: 16, depth: 1 };
    assert_eq!(extent, Extent3d { width: 16, height: 16, depth: 1 });
}
