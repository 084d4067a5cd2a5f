//! Command recording descriptors: encoders, buffers, render passes and
//! render bundles.

use vstd::prelude::*;
use crate::texture::TextureFormat;

verus! {

/// Describes a command encoder.
#[derive(Clone, Debug, PartialEq, Eq, Hash)]
pub struct CommandEncoderDescriptor<L> {
    /// Debug label for the command encoder, shown in graphics debuggers.
    pub label: L,
}

impl<L> CommandEncoderDescriptor<L> {
    /// The same descriptor with the given label in place of the old one.
    pub open spec fn with_label_spec<K>(self, label: K) -> CommandEncoderDescriptor<K> {
        CommandEncoderDescriptor { label }
    }

    /// Rewrites the debug label through `fun`.
    pub fn map_label<K, F: FnOnce(&L) -> K>(&self, fun: F) -> (r: CommandEncoderDescriptor<K>)
        requires
            call_requires(fun, (&self.label,)),
        ensures
            call_ensures(fun, (&self.label,), r.label),
            r == (*self).with_label_spec(r.label),
    {
        CommandEncoderDescriptor { label: fun(&self.label) }
    }
}

impl<L: Default> Default for CommandEncoderDescriptor<L> {
    /// The default label.
    fn default() -> (r: CommandEncoderDescriptor<L>)
    {
        CommandEncoderDescriptor { label: L::default() }
    }
}

/// Relabelling a command encoder descriptor obeys the functor laws.
pub proof fn lemma_command_encoder_relabel_functorial<L, M, K>(
    d: CommandEncoderDescriptor<L>,
    m: M,
    k: K,
)
    ensures
        d.with_label_spec(d.label) == d,
        d.with_label_spec(m).with_label_spec(k) == d.with_label_spec(k),
{
}

/// Describes a command buffer.
#[derive(Clone, Copy, Debug, PartialEq, Eq, Hash, Structural)]
pub struct CommandBufferDescriptor {
    /// Reserved; set this member to zero.
    pub todo: u32,
}

impl Default for CommandBufferDescriptor {
    fn default() -> (r: CommandBufferDescriptor)
        ensures
            r.todo == 0u32,
    {
        CommandBufferDescriptor { todo: 0 }
    }
}

/// Describes the attachments of a render pass.
#[derive(Clone, Debug, PartialEq, Eq, Hash)]
pub struct RenderPassDescriptor<C, D> {
    /// The color attachments of the render pass, in order.
    pub color_attachments: Vec<C>,
    /// The depth and stencil attachment of the render pass, if any.
    pub depth_stencil_attachment: Option<D>,
}

impl<C, D> Default for RenderPassDescriptor<C, D> {
    /// No color attachments and no depth/stencil attachment.
    fn default() -> (r: RenderPassDescriptor<C, D>)
        ensures
            r.color_attachments@.len() == 0,
            r.depth_stencil_attachment is None,
    {
        RenderPassDescriptor { color_attachments: Vec::new(), depth_stencil_attachment: None }
    }
}

/// Describes a render bundle encoder.
#[derive(Clone, Debug, PartialEq, Eq, Hash)]
pub struct RenderBundleEncoderDescriptor {
    /// Debug label of the render bundle encoder, shown in graphics
    /// debuggers.
    pub label: Option<String>,
    /// The formats of the color attachments that this render bundle is
    /// capable of rendering to; they must match the color attachments of the
    /// render pass the bundle is executed in.
    pub color_formats: Vec<TextureFormat>,
    /// The format of the depth attachment this render bundle is capable of
    /// rendering to, if any; it must match the render pass it is used in.
    pub depth_stencil_format: Option<TextureFormat>,
    /// Sample count this render bundle is capable of rendering to; it must
    /// match the pipelines and render passes it is used with.
    pub sample_count: u32,
}

impl Default for RenderBundleEncoderDescriptor {
    /// No label, no attachment formats, zero sample count.
    fn default() -> (r: RenderBundleEncoderDescriptor)
        ensures
            r.label is None,
            r.color_formats@.len() == 0,
            r.depth_stencil_format is None,
            r.sample_count == 0u32,
    {
        RenderBundleEncoderDescriptor {
            label: None,
            color_formats: Vec::new(),
            depth_stencil_format: None,
            sample_count: 0,
        }
    }
}

/// Describes a render bundle.
#[derive(Clone, Debug, PartialEq, Eq, Hash)]
pub struct RenderBundleDescriptor<L> {
    /// Debug label of the render bundle, shown in graphics debuggers.
    pub label: L,
}

impl<L> RenderBundleDescriptor<L> {
    /// The same descriptor with the given label in place of the old one.
    pub open spec fn with_label_spec<K>(self, label: K) -> RenderBundleDescriptor<K> {
        RenderBundleDescriptor { label }
    }

    /// Rewrites the debug label through `fun`.
    pub fn map_label<K, F: FnOnce(&L) -> K>(&self, fun: F) -> (r: RenderBundleDescriptor<K>)
        requires
            call_requires(fun, (&self.label,)),
        ensures
            call_ensures(fun, (&self.label,), r.label),
            r == (*self).with_label_spec(r.label),
    {
        RenderBundleDescriptor { label: fun(&self.label) }
    }
}

/// Relabelling a render bundle descriptor obeys the functor laws.
pub proof fn lemma_render_bundle_relabel_functorial<L, M, K>(
    d: RenderBundleDescriptor<L>,
    m: M,
    k: K,
)
    ensures
        d.with_label_spec(d.label) == d,
        d.with_label_spec(m).with_label_spec(k) == d.with_label_spec(k),
{
}

} // verus!
