//! Texture addressing and filtering, and sampler descriptors.

use vstd::prelude::*;
use crate::pipeline::CompareFunction;

verus! {

/// How edges should be handled in texture addressing.
#[derive(Clone, Copy, Debug, PartialEq, Eq, Hash, Structural)]
pub enum AddressMode {
    /// Clamp the coordinate to the edge of the texture.
    ClampToEdge,
    /// Repeat the texture in a tiling fashion.
    Repeat,
    /// Repeat the texture, mirroring it every repeat.
    MirrorRepeat,
}

impl AddressMode {
    /// The fixed wire tag of each variant.
    pub open spec fn tag_spec(self) -> u8 {
        match self {
            AddressMode::ClampToEdge => 0,
            AddressMode::Repeat => 1,
            AddressMode::MirrorRepeat => 2,
        }
    }

    /// The variant with a given wire tag, if any.
    pub open spec fn from_tag_spec(tag: u8) -> Option<AddressMode> {
        match tag {
            0u8 => Some(AddressMode::ClampToEdge),
            1u8 => Some(AddressMode::Repeat),
            2u8 => Some(AddressMode::MirrorRepeat),
            _ => None,
        }
    }

    /// Returns the fixed wire tag of this variant.
    pub fn tag(self) -> (r: u8)
        ensures
            r == self.tag_spec(),
    {
        match self {
            AddressMode::ClampToEdge => 0,
            AddressMode::Repeat => 1,
            AddressMode::MirrorRepeat => 2,
        }
    }

    /// Decodes a wire tag back into an address mode.
    pub fn from_tag(tag: u8) -> (r: Option<AddressMode>)
        ensures
            r == AddressMode::from_tag_spec(tag),
    {
        match tag {
            0u8 => Some(AddressMode::ClampToEdge),
            1u8 => Some(AddressMode::Repeat),
            2u8 => Some(AddressMode::MirrorRepeat),
            _ => None,
        }
    }
}

/// Tags identify variants uniquely: decoding a variant's tag gives the
/// variant back, so no two variants share a tag.
pub proof fn lemma_address_mode_tag_injective(a: AddressMode, b: AddressMode)
    ensures
        AddressMode::from_tag_spec(a.tag_spec()) == Some(a),
        a.tag_spec() == b.tag_spec() ==> a == b,
{
}

impl Default for AddressMode {
    fn default() -> (r: AddressMode)
        ensures
            r == AddressMode::ClampToEdge,
    {
        AddressMode::ClampToEdge
    }
}

/// Texel mixing mode when sampling between texels.
#[derive(Clone, Copy, Debug, PartialEq, Eq, Hash, Structural)]
pub enum FilterMode {
    /// Nearest neighbor sampling.
    Nearest,
    /// Linear interpolation.
    Linear,
}

impl FilterMode {
    /// The fixed wire tag of each variant.
    pub open spec fn tag_spec(self) -> u8 {
        match self {
            FilterMode::Nearest => 0,
            FilterMode::Linear => 1,
        }
    }

    /// The variant with a given wire tag, if any.
    pub open spec fn from_tag_spec(tag: u8) -> Option<FilterMode> {
        match tag {
            0u8 => Some(FilterMode::Nearest),
            1u8 => Some(FilterMode::Linear),
            _ => None,
        }
    }

    /// Returns the fixed wire tag of this variant.
    pub fn tag(self) -> (r: u8)
        ensures
            r == self.tag_spec(),
    {
        match self {
            FilterMode::Nearest => 0,
            FilterMode::Linear => 1,
        }
    }

    /// Decodes a wire tag back into a filter mode.
    pub fn from_tag(tag: u8) -> (r: Option<FilterMode>)
        ensures
            r == FilterMode::from_tag_spec(tag),
    {
        match tag {
            0u8 => Some(FilterMode::Nearest),
            1u8 => Some(FilterMode::Linear),
            _ => None,
        }
    }
}

/// Tags identify variants uniquely: decoding a variant's tag gives the
/// variant back, so no two variants share a tag.
pub proof fn lemma_filter_mode_tag_injective(a: FilterMode, b: FilterMode)
    ensures
        FilterMode::from_tag_spec(a.tag_spec()) == Some(a),
        a.tag_spec() == b.tag_spec() ==> a == b,
{
}

impl Default for FilterMode {
    fn default() -> (r: FilterMode)
        ensures
            r == FilterMode::Nearest,
    {
        FilterMode::Nearest
    }
}

/// Describes a sampler to be created.
///
/// The two level-of-detail clamps are IEEE-754 single-precision values
/// carried as their raw 32-bit patterns; this layer never interprets them, it
/// only hands them through to the backend.
#[derive(Clone, Copy, Debug, PartialEq, Eq, Hash)]
pub struct SamplerDescriptor<L> {
    /// Debug label of the sampler, shown in graphics debuggers.
    pub label: L,
    /// How to deal with out-of-bounds accesses in the u (x) direction.
    pub address_mode_u: AddressMode,
    /// How to deal with out-of-bounds accesses in the v (y) direction.
    pub address_mode_v: AddressMode,
    /// How to deal with out-of-bounds accesses in the w (z) direction.
    pub address_mode_w: AddressMode,
    /// How to filter the texture when it needs to be magnified.
    pub mag_filter: FilterMode,
    /// How to filter the texture when it needs to be minified.
    pub min_filter: FilterMode,
    /// How to filter between mip map levels.
    pub mipmap_filter: FilterMode,
    /// Minimum level of detail to use, as a raw single-precision bit pattern.
    pub lod_min_clamp: u32,
    /// Maximum level of detail to use, as a raw single-precision bit pattern.
    pub lod_max_clamp: u32,
    /// If set, the sampler is a comparison sampler using the given function.
    pub compare: Option<CompareFunction>,
    /// Anisotropy clamp; valid values are 1, 2, 4, 8 and 16.
    pub anisotropy_clamp: Option<u8>,
}

impl<L> SamplerDescriptor<L> {
    /// The same descriptor with the given label in place of the old one and
    /// every other field unchanged.
    pub open spec fn with_label_spec<K>(self, label: K) -> SamplerDescriptor<K> {
        SamplerDescriptor {
            label,
            address_mode_u: self.address_mode_u,
            address_mode_v: self.address_mode_v,
            address_mode_w: self.address_mode_w,
            mag_filter: self.mag_filter,
            min_filter: self.min_filter,
            mipmap_filter: self.mipmap_filter,
            lod_min_clamp: self.lod_min_clamp,
            lod_max_clamp: self.lod_max_clamp,
            compare: self.compare,
            anisotropy_clamp: self.anisotropy_clamp,
        }
    }

    /// Rewrites the debug label through `fun`, leaving every other field
    /// untouched.
    pub fn map_label<K, F: FnOnce(&L) -> K>(&self, fun: F) -> (r: SamplerDescriptor<K>)
        requires
            call_requires(fun, (&self.label,)),
        ensures
            call_ensures(fun, (&self.label,), r.label),
            r == (*self).with_label_spec(r.label),
    {
        SamplerDescriptor {
            label: fun(&self.label),
            address_mode_u: self.address_mode_u,
            address_mode_v: self.address_mode_v,
            address_mode_w: self.address_mode_w,
            mag_filter: self.mag_filter,
            min_filter: self.min_filter,
            mipmap_filter: self.mipmap_filter,
            lod_min_clamp: self.lod_min_clamp,
            lod_max_clamp: self.lod_max_clamp,
            compare: self.compare,
            anisotropy_clamp: self.anisotropy_clamp,
        }
    }
}

impl<L: Default> Default for SamplerDescriptor<L> {
    /// Clamped addressing, nearest filtering, the full level-of-detail
    /// range, no comparison and no anisotropy clamp. `0x7F7F_FFFF` is the
    /// bit pattern of the largest finite single-precision value.
    fn default() -> (r: SamplerDescriptor<L>)
        ensures
            r.address_mode_u == AddressMode::ClampToEdge,
            r.address_mode_v == AddressMode::ClampToEdge,
            r.address_mode_w == AddressMode::ClampToEdge,
            r.mag_filter == FilterMode::Nearest,
            r.min_filter == FilterMode::Nearest,
            r.mipmap_filter == FilterMode::Nearest,
            r.lod_min_clamp == 0u32,
            r.lod_max_clamp == 0x7F7F_FFFFu32,
            r.compare is None,
            r.anisotropy_clamp is None,
    {
        SamplerDescriptor {
            label: L::default(),
            address_mode_u: AddressMode::ClampToEdge,
            address_mode_v: AddressMode::ClampToEdge,
            address_mode_w: AddressMode::ClampToEdge,
            mag_filter: FilterMode::Nearest,
            min_filter: FilterMode::Nearest,
            mipmap_filter: FilterMode::Nearest,
            lod_min_clamp: 0,
            lod_max_clamp: 0x7F7F_FFFF,
            compare: None,
            anisotropy_clamp: None,
        }
    }
}

/// Relabelling a sampler descriptor obeys the functor laws.
pub proof fn lemma_sampler_relabel_functorial<L, M, K>(d: SamplerDescriptor<L>, m: M, k: K)
    ensures
        d.with_label_spec(d.label) == d,
        d.with_label_spec(m).with_label_spec(k) == d.with_label_spec(k),
{
}

} // verus!
