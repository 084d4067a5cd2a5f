//! Backends an adapter can run on, and sets of them.

use vstd::prelude::*;

verus! {

/// A graphics backend that an adapter may run on.
///
/// Each variant carries a fixed small-integer tag, reported by [`Backend::tag`];
/// the tags are a stable serialized contract and are never renumbered.
#[derive(Clone, Copy, Debug, PartialEq, Eq, Hash, Structural)]
pub enum Backend {
    Empty,
    Vulkan,
    Metal,
    Dx12,
    Dx11,
    Gl,
    BrowserWebGpu,
}

impl Backend {
    /// The fixed wire tag of each backend.
    pub open spec fn tag_spec(self) -> u8 {
        match self {
            Backend::Empty => 0,
            Backend::Vulkan => 1,
            Backend::Metal => 2,
            Backend::Dx12 => 3,
            Backend::Dx11 => 4,
            Backend::Gl => 5,
            Backend::BrowserWebGpu => 6,
        }
    }

    /// The backend with a given wire tag, if any.
    pub open spec fn from_tag_spec(tag: u8) -> Option<Backend> {
        match tag {
            0u8 => Some(Backend::Empty),
            1u8 => Some(Backend::Vulkan),
            2u8 => Some(Backend::Metal),
            3u8 => Some(Backend::Dx12),
            4u8 => Some(Backend::Dx11),
            5u8 => Some(Backend::Gl),
            6u8 => Some(Backend::BrowserWebGpu),
            _ => None,
        }
    }

    /// Returns the fixed wire tag of this backend.
    pub fn tag(self) -> (r: u8)
        ensures
            r == self.tag_spec(),
    {
        match self {
            Backend::Empty => 0,
            Backend::Vulkan => 1,
            Backend::Metal => 2,
            Backend::Dx12 => 3,
            Backend::Dx11 => 4,
            Backend::Gl => 5,
            Backend::BrowserWebGpu => 6,
        }
    }

    /// Decodes a wire tag back into a backend.
    pub fn from_tag(tag: u8) -> (r: Option<Backend>)
        ensures
            r == Backend::from_tag_spec(tag),
    {
        match tag {
            0u8 => Some(Backend::Empty),
            1u8 => Some(Backend::Vulkan),
            2u8 => Some(Backend::Metal),
            3u8 => Some(Backend::Dx12),
            4u8 => Some(Backend::Dx11),
            5u8 => Some(Backend::Gl),
            6u8 => Some(Backend::BrowserWebGpu),
            _ => None,
        }
    }
}

/// Tags identify backends uniquely: decoding a backend's tag gives the
/// backend back, so no two backends share a tag.
pub proof fn lemma_backend_tag_injective(a: Backend, b: Backend)
    ensures
        Backend::from_tag_spec(a.tag_spec()) == Some(a),
        a.tag_spec() == b.tag_spec() ==> a == b,
{
}

/// Power preference when choosing a physical adapter.
#[derive(Clone, Copy, Debug, PartialEq, Eq, Hash, Structural)]
pub enum PowerPreference {
    /// Prefer low power when on battery, high performance when on mains.
    Default,
    /// The adapter that uses the least possible power, often an integrated GPU.
    LowPower,
    /// The adapter with the highest performance, often a discrete GPU.
    HighPerformance,
}

impl PowerPreference {
    /// The fixed wire tag of each variant.
    pub open spec fn tag_spec(self) -> u8 {
        match self {
            PowerPreference::Default => 0,
            PowerPreference::LowPower => 1,
            PowerPreference::HighPerformance => 2,
        }
    }

    /// The variant with a given wire tag, if any.
    pub open spec fn from_tag_spec(tag: u8) -> Option<PowerPreference> {
        match tag {
            0u8 => Some(PowerPreference::Default),
            1u8 => Some(PowerPreference::LowPower),
            2u8 => Some(PowerPreference::HighPerformance),
            _ => None,
        }
    }

    /// Returns the fixed wire tag of this variant.
    pub fn tag(self) -> (r: u8)
        ensures
            r == self.tag_spec(),
    {
        match self {
            PowerPreference::Default => 0,
            PowerPreference::LowPower => 1,
            PowerPreference::HighPerformance => 2,
        }
    }

    /// Decodes a wire tag back into a power preference.
    pub fn from_tag(tag: u8) -> (r: Option<PowerPreference>)
        ensures
            r == PowerPreference::from_tag_spec(tag),
    {
        match tag {
            0u8 => Some(PowerPreference::Default),
            1u8 => Some(PowerPreference::LowPower),
            2u8 => Some(PowerPreference::HighPerformance),
            _ => None,
        }
    }
}

/// Tags identify variants uniquely: decoding a variant's tag gives the
/// variant back, so no two variants share a tag.
pub proof fn lemma_power_preference_tag_injective(a: PowerPreference, b: PowerPreference)
    ensures
        PowerPreference::from_tag_spec(a.tag_spec()) == Some(a),
        a.tag_spec() == b.tag_spec() ==> a == b,
{
}

impl Default for PowerPreference {
    fn default() -> (r: PowerPreference)
        ensures
            r == PowerPreference::Default,
    {
        PowerPreference::Default
    }
}

/// A set of [`Backend`] values, stored as one bit per backend tag.
#[derive(Clone, Copy, Debug, PartialEq, Eq, Hash, Structural)]
pub struct BackendBit {
    /// One bit per backend: bit `tag(b)` is set iff `b` is in the set.
    pub bits: u32,
}

/// The single bit that stands for one backend inside a [`BackendBit`] set:
/// bit number `tag_spec(b)`.
pub open spec fn backend_flag_spec(b: Backend) -> u32 {
    match b {
        Backend::Empty => 0x1,
        Backend::Vulkan => 0x2,
        Backend::Metal => 0x4,
        Backend::Dx12 => 0x8,
        Backend::Dx11 => 0x10,
        Backend::Gl => 0x20,
        Backend::BrowserWebGpu => 0x40,
    }
}

/// Each backend's flag is exactly `1 << tag(b)`.
pub proof fn lemma_backend_flag_is_shifted_tag(b: Backend)
    ensures
        backend_flag_spec(b) == 1u32 << (b.tag_spec() as u32),
{
    let t = b.tag_spec() as u32;
    assert((t == 0 ==> 1u32 << t == 0x1) && (t == 1 ==> 1u32 << t == 0x2) && (t == 2 ==> 1u32 << t
        == 0x4) && (t == 3 ==> 1u32 << t == 0x8) && (t == 4 ==> 1u32 << t == 0x10) && (t == 5
        ==> 1u32 << t == 0x20) && (t == 6 ==> 1u32 << t == 0x40)) by (bit_vector);
}

impl BackendBit {
    /// Whether a backend is a member of this set.
    pub open spec fn contains_spec(self, backend: Backend) -> bool {
        self.bits & backend_flag_spec(backend) != 0
    }

    /// The set with no backends.
    pub fn empty() -> (r: BackendBit)
        ensures
            r.bits == 0u32,
    {
        BackendBit { bits: 0 }
    }

    /// The Vulkan backend alone.
    pub fn vulkan() -> (r: BackendBit)
        ensures
            r.bits == backend_flag_spec(Backend::Vulkan),
    {
        BackendBit { bits: 0x2 }
    }

    /// The OpenGL backend alone.
    pub fn gl() -> (r: BackendBit)
        ensures
            r.bits == backend_flag_spec(Backend::Gl),
    {
        BackendBit { bits: 0x20 }
    }

    /// The Metal backend alone.
    pub fn metal() -> (r: BackendBit)
        ensures
            r.bits == backend_flag_spec(Backend::Metal),
    {
        BackendBit { bits: 0x4 }
    }

    /// The DirectX 12 backend alone.
    pub fn dx12() -> (r: BackendBit)
        ensures
            r.bits == backend_flag_spec(Backend::Dx12),
    {
        BackendBit { bits: 0x8 }
    }

    /// The DirectX 11 backend alone.
    pub fn dx11() -> (r: BackendBit)
        ensures
            r.bits == backend_flag_spec(Backend::Dx11),
    {
        BackendBit { bits: 0x10 }
    }

    /// The browser WebGPU backend alone.
    pub fn browser_webgpu() -> (r: BackendBit)
        ensures
            r.bits == backend_flag_spec(Backend::BrowserWebGpu),
    {
        BackendBit { bits: 0x40 }
    }

    /// The backends with first-tier support: Vulkan, Metal, DX12 and browser
    /// WebGPU.
    pub fn primary() -> (r: BackendBit)
        ensures
            forall|b: Backend| #[trigger] r.contains_spec(b) <==> (b == Backend::Vulkan
                || b == Backend::Metal || b == Backend::Dx12 || b == Backend::BrowserWebGpu),
    {
        let r = BackendBit { bits: 0x2 | 0x4 | 0x8 | 0x40 };
        proof {
            assert forall|b: Backend| #[trigger] r.contains_spec(b) <==> (b == Backend::Vulkan
                || b == Backend::Metal || b == Backend::Dx12 || b == Backend::BrowserWebGpu) by {
                let f = backend_flag_spec(b);
                assert((f == 0x1 || f == 0x2 || f == 0x4 || f == 0x8 || f == 0x10 || f == 0x20
                    || f == 0x40) ==> ((((0x2u32 | 0x4 | 0x8 | 0x40) & f) != 0) <==> (f == 0x2
                    || f == 0x4 || f == 0x8 || f == 0x40))) by (bit_vector);
            }
        }
        r
    }

    /// The backends with second-tier, possibly experimental support: OpenGL
    /// and DX11.
    pub fn secondary() -> (r: BackendBit)
        ensures
            forall|b: Backend| #[trigger] r.contains_spec(b) <==> (b == Backend::Gl
                || b == Backend::Dx11),
    {
        let r = BackendBit { bits: 0x20 | 0x10 };
        proof {
            assert forall|b: Backend| #[trigger] r.contains_spec(b) <==> (b == Backend::Gl
                || b == Backend::Dx11) by {
                let f = backend_flag_spec(b);
                assert((f == 0x1 || f == 0x2 || f == 0x4 || f == 0x8 || f == 0x10 || f == 0x20
                    || f == 0x40) ==> ((((0x20u32 | 0x10) & f) != 0) <==> (f == 0x20
                    || f == 0x10))) by (bit_vector);
            }
        }
        r
    }

    /// Returns the union of the two sets.
    pub fn union(self, other: BackendBit) -> (r: BackendBit)
        ensures
            r.bits == self.bits | other.bits,
    {
        BackendBit { bits: self.bits | other.bits }
    }

    /// Returns the intersection of the two sets.
    pub fn intersect(self, other: BackendBit) -> (r: BackendBit)
        ensures
            r.bits == self.bits & other.bits,
    {
        BackendBit { bits: self.bits & other.bits }
    }

    /// Returns whether a backend is a member of this set.
    pub fn contains(self, backend: Backend) -> (r: bool)
        ensures
            r == self.contains_spec(backend),
    {
        let flag: u32 = match backend {
            Backend::Empty => 0x1,
            Backend::Vulkan => 0x2,
            Backend::Metal => 0x4,
            Backend::Dx12 => 0x8,
            Backend::Dx11 => 0x10,
            Backend::Gl => 0x20,
            Backend::BrowserWebGpu => 0x40,
        };
        self.bits & flag != 0
    }
}

impl From<Backend> for BackendBit {
    /// The singleton set holding exactly the given backend.
    fn from(backend: Backend) -> (r: BackendBit)
        ensures
            r.bits == backend_flag_spec(backend),
    {
        let flag: u32 = match backend {
            Backend::Empty => 0x1,
            Backend::Vulkan => 0x2,
            Backend::Metal => 0x4,
            Backend::Dx12 => 0x8,
            Backend::Dx11 => 0x10,
            Backend::Gl => 0x20,
            Backend::BrowserWebGpu => 0x40,
        };
        BackendBit { bits: flag }
    }
}

impl vstd::std_specs::convert::FromSpecImpl<Backend> for BackendBit {
    open spec fn obeys_from_spec() -> bool {
        true
    }

    open spec fn from_spec(backend: Backend) -> BackendBit {
        BackendBit { bits: backend_flag_spec(backend) }
    }
}

/// Converting a backend into a backend set always gives a singleton: the
/// resulting set holds that backend and no other, and its one bit is
/// `1 << tag(b)`.
pub proof fn lemma_backend_set_singleton(b: Backend)
    ensures
        (BackendBit { bits: backend_flag_spec(b) }).bits == 1u32 << (b.tag_spec() as u32),
        forall|b2: Backend| #[trigger] (BackendBit {
            bits: backend_flag_spec(b),
        }).contains_spec(b2) <==> b2 == b,
{
    lemma_backend_flag_is_shifted_tag(b);
    let s = BackendBit { bits: backend_flag_spec(b) };
    assert forall|b2: Backend| #[trigger] s.contains_spec(b2) <==> b2 == b by {
        let f1 = backend_flag_spec(b);
        let f2 = backend_flag_spec(b2);
        assert(((f1 == 0x1 || f1 == 0x2 || f1 == 0x4 || f1 == 0x8 || f1 == 0x10 || f1 == 0x20
            || f1 == 0x40) && (f2 == 0x1 || f2 == 0x2 || f2 == 0x4 || f2 == 0x8 || f2 == 0x10
            || f2 == 0x20 || f2 == 0x40)) ==> (((f1 & f2) != 0) <==> f1 == f2)) by (bit_vector);
    }
}

/// Options for requesting an adapter.
#[derive(Clone, Debug, PartialEq, Eq, Hash)]
pub struct RequestAdapterOptions<S> {
    /// Power preference for the adapter.
    pub power_preference: PowerPreference,
    /// Surface that the requested adapter must be able to present to, if any.
    /// This does not create the surface; it only constrains the choice of
    /// adapter.
    pub compatible_surface: Option<S>,
}

impl<S> Default for RequestAdapterOptions<S> {
    /// The default power preference and no surface constraint.
    fn default() -> (r: RequestAdapterOptions<S>)
        ensures
            r.power_preference == PowerPreference::Default,
            r.compatible_surface is None,
    {
        RequestAdapterOptions {
            power_preference: PowerPreference::Default,
            compatible_surface: None,
        }
    }
}

} // verus!
