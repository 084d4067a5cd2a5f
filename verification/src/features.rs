//! Optional capabilities that an adapter may advertise and a device request
//! may demand.

use vstd::prelude::*;

verus! {

/// A 64-bit set of independently enableable capabilities.
///
/// The low 16 bits are reserved for cross-backend ("web") features; the
/// remaining bits are native-only extensions. A feature must be advertised by
/// the adapter before a device request may demand it; see
/// [`crate::device::validate_device_request`].
#[derive(Clone, Copy, Debug, PartialEq, Eq, Hash, Structural)]
pub struct Features {
    /// One bit per feature; bit positions are a stable contract.
    pub bits: u64,
}

impl Features {
    /// Whether every feature of `self` is also in `other`.
    pub open spec fn is_subset_of_spec(self, other: Features) -> bool {
        self.bits & !other.bits == 0
    }

    /// The set with no features.
    pub fn empty() -> (r: Features)
        ensures
            r.bits == 0u64,
    {
        Features { bits: 0 }
    }

    /// Clamp polygon depth to the 0-1 range instead of clipping it, so shadow
    /// map occluders can render into a tighter depth range.
    ///
    /// This is a web and native feature.
    pub fn depth_clamping() -> (r: Features)
        ensures
            r.bits == 0x0000_0000_0000_0001u64,
    {
        Features { bits: 0x0000_0000_0000_0001 }
    }

    /// Allow map-read and map-write buffer usages to be combined with usages
    /// other than copy-destination and copy-source respectively.
    ///
    /// This is a native-only feature.
    pub fn mappable_primary_buffers() -> (r: Features)
        ensures
            r.bits == 0x0000_0000_0001_0000u64,
    {
        Features { bits: 0x0000_0000_0001_0000 }
    }

    /// Allow uniform arrays of sampled textures in shaders, indexed by
    /// compile-time constants.
    ///
    /// This is a native-only feature.
    pub fn sampled_texture_binding_array() -> (r: Features)
        ensures
            r.bits == 0x0000_0000_0002_0000u64,
    {
        Features { bits: 0x0000_0000_0002_0000 }
    }

    /// Allow shaders to index sampled texture arrays with dynamically uniform
    /// values.
    ///
    /// This is a native-only feature.
    pub fn sampled_texture_array_dynamic_indexing() -> (r: Features)
        ensures
            r.bits == 0x0000_0000_0004_0000u64,
    {
        Features { bits: 0x0000_0000_0004_0000 }
    }

    /// Allow shaders to index sampled texture arrays with dynamically
    /// non-uniform values.
    ///
    /// This is a native-only feature.
    pub fn sampled_texture_array_non_uniform_indexing() -> (r: Features)
        ensures
            r.bits == 0x0000_0000_0008_0000u64,
    {
        Features { bits: 0x0000_0000_0008_0000 }
    }

    /// Allow unsized uniform arrays of bindings in shaders.
    ///
    /// This is a native-only feature.
    pub fn unsized_binding_array() -> (r: Features)
        ensures
            r.bits == 0x0000_0000_0010_0000u64,
    {
        Features { bits: 0x0000_0000_0010_0000 }
    }

    /// Allow multiple indirect draw calls to be dispatched from a single
    /// buffer.
    ///
    /// This is a native-only feature.
    pub fn multi_draw_indirect() -> (r: Features)
        ensures
            r.bits == 0x0000_0000_0020_0000u64,
    {
        Features { bits: 0x0000_0000_0020_0000 }
    }

    /// Allow an indirect buffer that also holds the actual number of draw
    /// calls.
    ///
    /// This is a native-only feature.
    pub fn multi_draw_indirect_count() -> (r: Features)
        ensures
            r.bits == 0x0000_0000_0040_0000u64,
    {
        Features { bits: 0x0000_0000_0040_0000 }
    }

    /// Allow push constants: small, fast bits of memory updated inside a
    /// render pass. Needed before a non-zero push-constant limit may be
    /// requested.
    ///
    /// This is a native-only feature.
    pub fn push_constants() -> (r: Features)
        ensures
            r.bits == 0x0000_0000_0080_0000u64,
    {
        Features { bits: 0x0000_0000_0080_0000 }
    }

    /// Every feature that is part of the upstream web standard: the low 16
    /// bits.
    pub fn all_webgpu() -> (r: Features)
        ensures
            r.bits == 0x0000_0000_0000_FFFFu64,
    {
        Features { bits: 0x0000_0000_0000_FFFF }
    }

    /// Every feature that is only available when targeting native: all but
    /// the low 16 bits.
    pub fn all_native() -> (r: Features)
        ensures
            r.bits == 0xFFFF_FFFF_FFFF_0000u64,
    {
        Features { bits: 0xFFFF_FFFF_FFFF_0000 }
    }

    /// Returns the union of the two feature sets.
    pub fn union(self, other: Features) -> (r: Features)
        ensures
            r.bits == self.bits | other.bits,
    {
        Features { bits: self.bits | other.bits }
    }

    /// Returns the intersection of the two feature sets.
    pub fn intersect(self, other: Features) -> (r: Features)
        ensures
            r.bits == self.bits & other.bits,
    {
        Features { bits: self.bits & other.bits }
    }

    /// Returns the features of `self` that are not in `other`.
    pub fn difference(self, other: Features) -> (r: Features)
        ensures
            r.bits == self.bits & !other.bits,
    {
        Features { bits: self.bits & !other.bits }
    }

    /// Returns whether every feature of `other` is also in `self`.
    pub fn contains(self, other: Features) -> (r: bool)
        ensures
            r == other.is_subset_of_spec(self),
    {
        proof {
            let a = self.bits;
            let b = other.bits;
            assert((b & !a == 0) <==> (a & b == b)) by (bit_vector);
        }
        self.bits & other.bits == other.bits
    }

    /// Returns whether every feature of `self` is also in `other`: the
    /// containment check a device request must pass against the advertised
    /// features.
    pub fn is_subset_of(self, other: Features) -> (r: bool)
        ensures
            r == self.is_subset_of_spec(other),
    {
        self.bits & !other.bits == 0
    }
}

impl Default for Features {
    /// The empty feature set.
    fn default() -> (r: Features)
        ensures
            r.bits == 0u64,
    {
        Features { bits: 0 }
    }
}

/// Subset containment between feature sets is reflexive and transitive, and
/// the empty set is below every set.
pub proof fn lemma_features_subset_order(a: Features, b: Features, c: Features)
    ensures
        a.is_subset_of_spec(a),
        a.is_subset_of_spec(b) && b.is_subset_of_spec(c) ==> a.is_subset_of_spec(c),
        (Features { bits: 0u64 }).is_subset_of_spec(a),
{
    let x = a.bits;
    let y = b.bits;
    let z = c.bits;
    assert(x & !x == 0) by (bit_vector);
    assert((x & !y == 0 && y & !z == 0) ==> x & !z == 0) by (bit_vector);
    assert(0u64 & !x == 0) by (bit_vector);
}

} // verus!
