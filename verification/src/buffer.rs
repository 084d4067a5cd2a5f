//! Buffer usages and buffer descriptors.

use vstd::prelude::*;

verus! {

/// Different ways that a buffer can be used.
///
/// The usages determine what kind of memory the buffer is allocated from and
/// what actions the buffer can partake in.
#[derive(Clone, Copy, Debug, PartialEq, Eq, Hash, Structural)]
pub struct BufferUsage {
    /// One bit per usage; see the constructors for the bit values.
    pub bits: u32,
}

impl BufferUsage {
    /// The empty usage set.
    pub fn empty() -> (r: BufferUsage)
        ensures
            r.bits == 0u32,
    {
        BufferUsage { bits: 0 }
    }

    /// The buffer may be mapped for reading.
    pub fn map_read() -> (r: BufferUsage)
        ensures
            r.bits == 0x1u32,
    {
        BufferUsage { bits: 0x1 }
    }

    /// The buffer may be mapped for writing.
    pub fn map_write() -> (r: BufferUsage)
        ensures
            r.bits == 0x2u32,
    {
        BufferUsage { bits: 0x2 }
    }

    /// The buffer may be the source of a copy command.
    pub fn copy_src() -> (r: BufferUsage)
        ensures
            r.bits == 0x4u32,
    {
        BufferUsage { bits: 0x4 }
    }

    /// The buffer may be the destination of a copy command or a queue write.
    pub fn copy_dst() -> (r: BufferUsage)
        ensures
            r.bits == 0x8u32,
    {
        BufferUsage { bits: 0x8 }
    }

    /// The buffer may be the index buffer in a draw call.
    pub fn index() -> (r: BufferUsage)
        ensures
            r.bits == 0x10u32,
    {
        BufferUsage { bits: 0x10 }
    }

    /// The buffer may be the vertex buffer in a draw call.
    pub fn vertex() -> (r: BufferUsage)
        ensures
            r.bits == 0x20u32,
    {
        BufferUsage { bits: 0x20 }
    }

    /// The buffer may be a uniform-buffer binding in a bind group.
    pub fn uniform() -> (r: BufferUsage)
        ensures
            r.bits == 0x40u32,
    {
        BufferUsage { bits: 0x40 }
    }

    /// The buffer may be a storage-buffer binding in a bind group.
    pub fn storage() -> (r: BufferUsage)
        ensures
            r.bits == 0x80u32,
    {
        BufferUsage { bits: 0x80 }
    }

    /// The buffer may be the indirect buffer in an indirect draw call.
    pub fn indirect() -> (r: BufferUsage)
        ensures
            r.bits == 0x100u32,
    {
        BufferUsage { bits: 0x100 }
    }

    /// Returns the union of the two usage sets.
    pub fn union(self, other: BufferUsage) -> (r: BufferUsage)
        ensures
            r.bits == self.bits | other.bits,
    {
        BufferUsage { bits: self.bits | other.bits }
    }

    /// Returns whether every usage of `other` is also in `self`.
    pub fn contains(self, other: BufferUsage) -> (r: bool)
        ensures
            r == (self.bits & other.bits == other.bits),
    {
        self.bits & other.bits == other.bits
    }
}

/// Describes a buffer to be created.
#[derive(Clone, Debug, PartialEq, Eq, Hash)]
pub struct BufferDescriptor<L> {
    /// Debug label of the buffer, shown in graphics debuggers.
    pub label: L,
    /// Size of the buffer in bytes.
    pub size: u64,
    /// Allowed usages of the buffer.
    pub usage: BufferUsage,
    /// Allows the buffer to be mapped immediately after it is made, whatever
    /// its usages are.
    pub mapped_at_creation: bool,
}

impl<L> BufferDescriptor<L> {
    /// The same descriptor with the given label in place of the old one and
    /// every other field unchanged.
    pub open spec fn with_label_spec<K>(self, label: K) -> BufferDescriptor<K> {
        BufferDescriptor {
            label,
            size: self.size,
            usage: self.usage,
            mapped_at_creation: self.mapped_at_creation,
        }
    }

    /// Rewrites the debug label through `fun`, leaving every other field
    /// untouched. This projection is the only sanctioned way to change the
    /// label representation of a descriptor.
    pub fn map_label<K, F: FnOnce(&L) -> K>(&self, fun: F) -> (r: BufferDescriptor<K>)
        requires
            call_requires(fun, (&self.label,)),
        ensures
            call_ensures(fun, (&self.label,), r.label),
            r == (*self).with_label_spec(r.label),
    {
        BufferDescriptor {
            label: fun(&self.label),
            size: self.size,
            usage: self.usage,
            mapped_at_creation: self.mapped_at_creation,
        }
    }
}

/// Relabelling a buffer descriptor obeys the functor laws: putting the
/// descriptor's own label back changes nothing, and two successive
/// relabellings are one relabelling with the final label.
pub proof fn lemma_buffer_relabel_functorial<L, M, K>(d: BufferDescriptor<L>, m: M, k: K)
    ensures
        d.with_label_spec(d.label) == d,
        d.with_label_spec(m).with_label_spec(k) == d.with_label_spec(k),
{
}

/// View of a buffer which can be used to copy to or from a texture.
#[derive(Clone, Copy, Debug, PartialEq, Eq, Hash)]
pub struct BufferCopyView<B> {
    /// The buffer to be copied to or from.
    pub buffer: B,
    /// The layout of the texture data in this buffer.
    pub layout: crate::texture::TextureDataLayout,
}

} // verus!
