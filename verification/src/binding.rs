//! Shader stages, binding types, and bind group layouts with their
//! validation.

use vstd::prelude::*;
use crate::features::Features;
use crate::texture::{TextureComponentType, TextureFormat, TextureViewDimension};

verus! {

/// The shader stages that a binding or push-constant range is visible from.
#[derive(Clone, Copy, Debug, PartialEq, Eq, Hash, Structural)]
pub struct ShaderStage {
    /// One bit per stage; see the constructors for the bit values.
    pub bits: u32,
}

impl ShaderStage {
    /// Visible from no shader stage.
    pub fn none() -> (r: ShaderStage)
        ensures
            r.bits == 0u32,
    {
        ShaderStage { bits: 0 }
    }

    /// Visible from the vertex shader of a render pipeline.
    pub fn vertex() -> (r: ShaderStage)
        ensures
            r.bits == 0x1u32,
    {
        ShaderStage { bits: 0x1 }
    }

    /// Visible from the fragment shader of a render pipeline.
    pub fn fragment() -> (r: ShaderStage)
        ensures
            r.bits == 0x2u32,
    {
        ShaderStage { bits: 0x2 }
    }

    /// Visible from the compute shader of a compute pipeline.
    pub fn compute() -> (r: ShaderStage)
        ensures
            r.bits == 0x4u32,
    {
        ShaderStage { bits: 0x4 }
    }

    /// Returns the union of the two stage sets.
    pub fn union(self, other: ShaderStage) -> (r: ShaderStage)
        ensures
            r.bits == self.bits | other.bits,
    {
        ShaderStage { bits: self.bits | other.bits }
    }

    /// Returns the intersection of the two stage sets.
    pub fn intersect(self, other: ShaderStage) -> (r: ShaderStage)
        ensures
            r.bits == self.bits & other.bits,
    {
        ShaderStage { bits: self.bits & other.bits }
    }

    /// Returns whether every stage of `other` is also in `self`.
    pub fn contains(self, other: ShaderStage) -> (r: bool)
        ensures
            r == (self.bits & other.bits == other.bits),
    {
        self.bits & other.bits == other.bits
    }
}

/// Specific type of a binding inside a bind group layout.
///
/// Each variant carries only the fields relevant to it: `dynamic` and
/// `min_binding_size` belong to the two buffer variants alone, `readonly` to
/// the storage variants alone.
#[derive(Clone, Copy, Debug, PartialEq, Eq, Hash)]
pub enum BindingType {
    /// A buffer for uniform values.
    UniformBuffer {
        /// Indicates that the binding has a dynamic offset; one offset must
        /// be supplied per dynamic binding, in increasing order of binding
        /// number, at bind time.
        dynamic: bool,
        /// Minimum size in bytes of the buffer binding required to match
        /// this entry; zero is never a legal size. If absent, the check is
        /// performed at draw call time instead of bind group creation.
        min_binding_size: Option<u64>,
    },
    /// A storage buffer.
    StorageBuffer {
        /// Indicates that the binding has a dynamic offset; one offset must
        /// be supplied per dynamic binding, in increasing order of binding
        /// number, at bind time.
        dynamic: bool,
        /// Minimum size in bytes of the buffer binding required to match
        /// this entry; zero is never a legal size. If absent, the check is
        /// performed at draw call time instead of bind group creation.
        min_binding_size: Option<u64>,
        /// The buffer can only be read in the shader.
        readonly: bool,
    },
    /// A sampler that can be used to sample a texture.
    Sampler {
        /// Use as a comparison sampler instead of a normal sampler.
        comparison: bool,
    },
    /// A sampled texture.
    SampledTexture {
        /// Dimension of the texture view that is going to be sampled.
        dimension: TextureViewDimension,
        /// Component type of the texture; it must be compatible with the
        /// format of the bound texture.
        component_type: TextureComponentType,
        /// True if the texture has a sample count greater than 1.
        multisampled: bool,
    },
    /// A storage texture.
    StorageTexture {
        /// Dimension of the texture view that is going to be accessed.
        dimension: TextureViewDimension,
        /// Format of the texture.
        format: TextureFormat,
        /// The texture can only be read in the shader.
        readonly: bool,
    },
}

/// A structural inconsistency inside a bind group layout: the caller can be
/// told which binding is wrong and retry with a corrected descriptor.
#[derive(Clone, Copy, Debug, PartialEq, Eq, Hash, Structural)]
pub enum BindingError {
    /// Two entries of a layout share a binding index.
    DuplicateBindingIndex { binding: u32 },
    /// `count` is set but the entry is not a sampled texture; only
    /// sampled-texture entries may be arrays.
    ArrayNotSampledTexture { binding: u32 },
    /// `count` is zero; an array binding must have at least one element.
    ArrayCountZero { binding: u32 },
    /// `count` is set but the sampled-texture binding-array feature is not
    /// enabled.
    ArrayRequiresFeature { binding: u32 },
}

/// Describes a single binding inside a bind group layout.
#[derive(Clone, Copy, Debug, PartialEq, Eq, Hash)]
pub struct BindGroupLayoutEntry {
    /// Binding index; it must match the shader index and be unique inside
    /// the layout.
    pub binding: u32,
    /// Which shader stages can see this binding.
    pub visibility: ShaderStage,
    /// The type of the binding.
    pub ty: BindingType,
    /// If set, this entry is an array of bindings of the given size. Only
    /// sampled-texture entries may be arrays, the size must be at least 1,
    /// and the sampled-texture binding-array feature must be enabled.
    pub count: Option<u32>,
}

impl BindGroupLayoutEntry {
    /// Whether bind time must supply a dynamic offset for this entry: true
    /// iff the type is a uniform or storage buffer with `dynamic` set.
    pub open spec fn has_dynamic_offset_spec(self) -> bool {
        match self.ty {
            BindingType::UniformBuffer { dynamic, .. } => dynamic,
            BindingType::StorageBuffer { dynamic, .. } => dynamic,
            _ => false,
        }
    }

    /// The inconsistency of this entry taken alone, if any: an array `count`
    /// is legal only on a sampled-texture entry, must be at least 1, and
    /// needs the sampled-texture binding-array feature (bit
    /// `0x0002_0000`) to be enabled.
    pub open spec fn defect_spec(self, features: Features) -> Option<BindingError> {
        match self.count {
            Option::None => Option::None,
            Option::Some(c) => match self.ty {
                BindingType::SampledTexture { .. } => if c == 0 {
                    Option::Some(BindingError::ArrayCountZero { binding: self.binding })
                } else if features.bits & 0x0000_0000_0002_0000u64 == 0 {
                    Option::Some(BindingError::ArrayRequiresFeature { binding: self.binding })
                } else {
                    Option::None
                },
                _ => Option::Some(BindingError::ArrayNotSampledTexture { binding: self.binding }),
            },
        }
    }

    /// A new non-array entry.
    pub fn new(binding: u32, visibility: ShaderStage, ty: BindingType) -> (r: BindGroupLayoutEntry)
        ensures
            r == (BindGroupLayoutEntry { binding, visibility, ty, count: Option::None }),
    {
        BindGroupLayoutEntry { binding, visibility, ty, count: None }
    }

    /// Returns whether bind time must supply a dynamic offset for this
    /// entry.
    pub fn has_dynamic_offset(&self) -> (r: bool)
        ensures
            r == self.has_dynamic_offset_spec(),
    {
        match self.ty {
            BindingType::UniformBuffer { dynamic, .. }
            | BindingType::StorageBuffer { dynamic, .. } => dynamic,
            _ => false,
        }
    }

    /// Returns the inconsistency of this entry taken alone, if any.
    pub fn defect(&self, features: &Features) -> (r: Option<BindingError>)
        ensures
            r == self.defect_spec(*features),
    {
        match self.count {
            None => None,
            Some(c) => match self.ty {
                BindingType::SampledTexture { .. } => {
                    if c == 0 {
                        Some(BindingError::ArrayCountZero { binding: self.binding })
                    } else if features.bits & 0x0000_0000_0002_0000u64 == 0 {
                        Some(BindingError::ArrayRequiresFeature { binding: self.binding })
                    } else {
                        None
                    }
                },
                _ => Some(BindingError::ArrayNotSampledTexture { binding: self.binding }),
            },
        }
    }
}

/// The first inconsistency of a sequence of layout entries, scanned in
/// order: for each entry, first a binding index already used by an earlier
/// entry, then the entry's own defect.
pub open spec fn layout_defect_spec(
    entries: Seq<BindGroupLayoutEntry>,
    features: Features,
) -> Option<BindingError>
    decreases entries.len(),
{
    if entries.len() == 0 {
        Option::None
    } else {
        let prefix = entries.drop_last();
        let last = entries.last();
        if layout_defect_spec(prefix, features) is Some {
            layout_defect_spec(prefix, features)
        } else if exists|t: int| 0 <= t < prefix.len() && (#[trigger] prefix[t]).binding
            == last.binding {
            Option::Some(BindingError::DuplicateBindingIndex { binding: last.binding })
        } else {
            last.defect_spec(features)
        }
    }
}

/// Once a prefix of the scan has found a defect, scanning the rest of the
/// entries reports that same defect.
pub proof fn lemma_layout_defect_extends(
    entries: Seq<BindGroupLayoutEntry>,
    features: Features,
    n: int,
)
    requires
        0 <= n <= entries.len(),
        layout_defect_spec(entries.take(n), features) is Some,
    ensures
        layout_defect_spec(entries, features) == layout_defect_spec(entries.take(n), features),
    decreases entries.len(),
{
    if n < entries.len() {
        assert(entries.drop_last().take(n) =~= entries.take(n));
        lemma_layout_defect_extends(entries.drop_last(), features, n);
    } else {
        assert(entries.take(n) =~= entries);
    }
}

/// A sequence of layout entries has no defect exactly when the binding
/// indices are pairwise distinct and no entry has a defect of its own.
pub proof fn lemma_layout_defect_none(entries: Seq<BindGroupLayoutEntry>, features: Features)
    ensures
        layout_defect_spec(entries, features) is None <==> ((forall|i: int, j: int|
            0 <= i < j < entries.len() ==> (#[trigger] entries[i]).binding
                != (#[trigger] entries[j]).binding) && (forall|i: int|
            0 <= i < entries.len() ==> (#[trigger] entries[i]).defect_spec(features) is None)),
    decreases entries.len(),
{
    if entries.len() > 0 {
        let prefix = entries.drop_last();
        let last = entries.last();
        lemma_layout_defect_none(prefix, features);
        assert(forall|i: int| 0 <= i < prefix.len() ==> prefix[i] == entries[i]);
        assert(last == entries[entries.len() - 1]);
        if layout_defect_spec(entries, features) is None {
            assert(forall|i: int, j: int|
                0 <= i < j < entries.len() ==> (#[trigger] entries[i]).binding
                    != (#[trigger] entries[j]).binding) by {
                assert(forall|t: int|
                    0 <= t < prefix.len() ==> (#[trigger] prefix[t]).binding != last.binding);
            }
        }
    }
}

/// Describes a bind group layout.
#[derive(Clone, Debug, PartialEq, Eq, Hash)]
pub struct BindGroupLayoutDescriptor {
    /// Debug label of the bind group layout, shown in graphics debuggers.
    pub label: Option<String>,
    /// The entries of this layout, keyed by their binding index.
    pub entries: Vec<BindGroupLayoutEntry>,
}

impl BindGroupLayoutDescriptor {
    /// Checks this layout for structural inconsistencies against the enabled
    /// features.
    ///
    /// Returns `Ok` exactly when the binding indices are pairwise distinct
    /// and every entry is consistent on its own; otherwise reports the first
    /// inconsistency in scan order.
    #[verifier::loop_isolation(false)]
    pub fn validate(&self, features: &Features) -> (r: Result<(), BindingError>)
        ensures
            r is Ok <==> layout_defect_spec(self.entries@, *features) is None,
            r matches Err(e) ==> layout_defect_spec(self.entries@, *features) == Some(e),
    {
        let ghost all = self.entries@;
        let mut i: usize = 0;
        while i < self.entries.len()
            invariant
                0 <= i <= all.len(),
                all == self.entries@,
                layout_defect_spec(all.take(i as int), *features) is None,
            decreases all.len() - i,
        {
            proof {
                assert(all.take(i + 1).drop_last() =~= all.take(i as int));
                assert(all.take(i + 1).last() == all[i as int]);
            }
            let mut j: usize = 0;
            while j < i
                invariant
                    0 <= j <= i < all.len(),
                    all == self.entries@,
                    forall|t: int|
                        0 <= t < j ==> (#[trigger] all[t]).binding != all[i as int].binding,
                decreases i - j,
            {
                if self.entries[j].binding == self.entries[i].binding {
                    proof {
                        assert(all.take(i as int)[j as int] == all[j as int]);
                        assert(layout_defect_spec(all.take(i + 1), *features) == Some(
                            BindingError::DuplicateBindingIndex { binding: all[i as int].binding },
                        ));
                        lemma_layout_defect_extends(all, *features, i + 1);
                    }
                    return Err(
                        BindingError::DuplicateBindingIndex { binding: self.entries[i].binding },
                    );
                }
                j += 1;
            }
            proof {
                assert(forall|t: int|
                    0 <= t < i ==> (#[trigger] all.take(i as int)[t]).binding == all[t].binding);
            }
            match self.entries[i].defect(features) {
                Some(e) => {
                    proof {
                        assert(layout_defect_spec(all.take(i + 1), *features) == Some(e));
                        lemma_layout_defect_extends(all, *features, i + 1);
                    }
                    return Err(e);
                },
                None => {},
            }
            i += 1;
        }
        proof {
            assert(all.take(all.len() as int) =~= all);
        }
        Ok(())
    }
}

/// A bindable resource and the slot to bind it to.
#[derive(Clone, Copy, Debug, PartialEq, Eq, Hash)]
pub struct BindGroupEntry<R> {
    /// Slot for which the binding provides its resource; it corresponds to
    /// the entry of the same binding index in the bind group layout.
    pub binding: u32,
    /// Resource to attach to the binding.
    pub resource: R,
}

/// Describes a group of bindings and the resources to be bound.
#[derive(Clone, Debug, PartialEq, Eq, Hash)]
pub struct BindGroupDescriptor<L, B> {
    /// Debug label of the bind group, shown in graphics debuggers.
    pub label: Option<String>,
    /// The bind group layout that corresponds to this bind group.
    pub layout: L,
    /// The resources to bind to this bind group.
    pub entries: Vec<B>,
}

} // verus!
