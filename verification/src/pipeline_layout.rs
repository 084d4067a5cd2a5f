//! Pipeline layouts, push-constant ranges, and their validation.

use vstd::prelude::*;
use core::ops::Range;
use crate::binding::ShaderStage;
use crate::features::Features;
use crate::limits::Limits;

verus! {

/// A range of push-constant memory to pass to a shader stage.
#[derive(Debug, PartialEq, Eq, Hash)]
pub struct PushConstantRange {
    /// Stages the push-constant range is visible from. Each stage may be
    /// served by at most one range, but one range may serve several stages.
    pub stages: ShaderStage,
    /// Range in push-constant memory to use for the stages, in bytes. Start
    /// and end must be aligned to [`crate::PUSH_CONSTANT_ALIGNMENT`] and the
    /// end must stay within the push-constant size limit.
    pub range: Range<u32>,
}

impl Clone for PushConstantRange {
    fn clone(&self) -> (r: PushConstantRange)
        ensures
            r == *self,
    {
        PushConstantRange {
            stages: self.stages,
            range: self.range.start..self.range.end,
        }
    }
}

impl PushConstantRange {
    /// Whether the byte range is well formed against a push-constant size
    /// limit: start and end aligned, not inverted, end within the limit.
    pub open spec fn well_formed_spec(self, max_size: u32) -> bool {
        &&& self.range.start % crate::PUSH_CONSTANT_ALIGNMENT == 0
        &&& self.range.end % crate::PUSH_CONSTANT_ALIGNMENT == 0
        &&& self.range.start <= self.range.end
        &&& self.range.end <= max_size
    }

    /// Whether start and end are aligned to the push-constant alignment.
    pub open spec fn aligned_spec(self) -> bool {
        self.range.start % crate::PUSH_CONSTANT_ALIGNMENT == 0 && self.range.end
            % crate::PUSH_CONSTANT_ALIGNMENT == 0
    }
}

/// A structural inconsistency inside a pipeline layout: the caller can be
/// told which part is wrong and retry with a corrected descriptor.
#[derive(Clone, Copy, Debug, PartialEq, Eq, Hash, Structural)]
pub enum PipelineLayoutError {
    /// More bind group layouts than the bind-group limit allows.
    TooManyBindGroups { count: usize, max: u32 },
    /// Push-constant ranges are present but the push-constant feature is not
    /// enabled.
    PushConstantsRequireFeature,
    /// A push-constant range's start or end is not aligned to
    /// [`crate::PUSH_CONSTANT_ALIGNMENT`].
    RangeUnaligned { index: usize },
    /// A push-constant range is inverted or ends above the push-constant
    /// size limit.
    RangeOutOfBounds { index: usize },
    /// A shader stage is claimed by more than one push-constant range.
    StageClaimedTwice { index: usize },
}

/// The union of the stage bits claimed by a sequence of push-constant
/// ranges.
pub open spec fn claimed_stages_spec(ranges: Seq<PushConstantRange>) -> u32
    decreases ranges.len(),
{
    if ranges.len() == 0 {
        0u32
    } else {
        claimed_stages_spec(ranges.drop_last()) | ranges.last().stages.bits
    }
}

/// Whether no shader stage is claimed by two ranges: the stage sets of any
/// two ranges are disjoint.
pub open spec fn stages_pairwise_disjoint_spec(ranges: Seq<PushConstantRange>) -> bool {
    forall|i: int, j: int|
        0 <= i < j < ranges.len() ==> ((#[trigger] ranges[i]).stages.bits
            & (#[trigger] ranges[j]).stages.bits == 0)
}

/// A stage set is disjoint from everything a sequence of ranges claims
/// exactly when it is disjoint from each range's stages.
pub proof fn lemma_claimed_stages_disjoint(ranges: Seq<PushConstantRange>, x: u32)
    ensures
        (x & claimed_stages_spec(ranges) == 0) <==> (forall|i: int|
            0 <= i < ranges.len() ==> x & (#[trigger] ranges[i]).stages.bits == 0),
    decreases ranges.len(),
{
    if ranges.len() > 0 {
        let prefix = ranges.drop_last();
        lemma_claimed_stages_disjoint(prefix, x);
        let a = claimed_stages_spec(prefix);
        let b = ranges.last().stages.bits;
        assert((x & (a | b) == 0) <==> (x & a == 0 && x & b == 0)) by (bit_vector);
        assert(claimed_stages_spec(ranges) == (a | b));
        if x & claimed_stages_spec(ranges) == 0 {
            assert forall|i: int| 0 <= i < ranges.len() implies x
                & (#[trigger] ranges[i]).stages.bits == 0 by {
                if i < ranges.len() - 1 {
                    assert(ranges[i] == prefix[i]);
                } else {
                    assert(ranges[i] == ranges.last());
                }
            }
        }
        if forall|i: int| 0 <= i < ranges.len() ==> x & (#[trigger] ranges[i]).stages.bits == 0 {
            assert forall|i: int| 0 <= i < prefix.len() implies x
                & (#[trigger] prefix[i]).stages.bits == 0 by {
                assert(prefix[i] == ranges[i]);
            }
            assert(ranges.last() == ranges[ranges.len() - 1]);
            assert(x & b == 0);
        }
    } else {
        assert(x & 0u32 == 0) by (bit_vector);
    }
}

/// The first inconsistency of a sequence of push-constant ranges, scanned in
/// order: for each range, first misalignment, then an out-of-bounds byte
/// range, then a stage already claimed by an earlier range.
pub open spec fn ranges_defect_spec(
    ranges: Seq<PushConstantRange>,
    max_size: u32,
) -> Option<PipelineLayoutError>
    decreases ranges.len(),
{
    if ranges.len() == 0 {
        Option::None
    } else {
        let prefix = ranges.drop_last();
        let last = ranges.last();
        if ranges_defect_spec(prefix, max_size) is Some {
            ranges_defect_spec(prefix, max_size)
        } else if !last.aligned_spec() {
            Option::Some(PipelineLayoutError::RangeUnaligned { index: (ranges.len() - 1) as usize })
        } else if !(last.range.start <= last.range.end && last.range.end <= max_size) {
            Option::Some(
                PipelineLayoutError::RangeOutOfBounds { index: (ranges.len() - 1) as usize },
            )
        } else if last.stages.bits & claimed_stages_spec(prefix) != 0 {
            Option::Some(
                PipelineLayoutError::StageClaimedTwice { index: (ranges.len() - 1) as usize },
            )
        } else {
            Option::None
        }
    }
}

/// Once a prefix of the scan has found a defect, scanning the rest of the
/// ranges reports that same defect.
pub proof fn lemma_ranges_defect_extends(ranges: Seq<PushConstantRange>, max_size: u32, n: int)
    requires
        0 <= n <= ranges.len(),
        ranges_defect_spec(ranges.take(n), max_size) is Some,
    ensures
        ranges_defect_spec(ranges, max_size) == ranges_defect_spec(ranges.take(n), max_size),
    decreases ranges.len(),
{
    if n < ranges.len() {
        assert(ranges.drop_last().take(n) =~= ranges.take(n));
        lemma_ranges_defect_extends(ranges.drop_last(), max_size, n);
    } else {
        assert(ranges.take(n) =~= ranges);
    }
}

/// A sequence of push-constant ranges has no defect exactly when every range
/// is well formed and no shader stage is claimed twice.
pub proof fn lemma_ranges_defect_none(ranges: Seq<PushConstantRange>, max_size: u32)
    ensures
        ranges_defect_spec(ranges, max_size) is None <==> ((forall|i: int|
            0 <= i < ranges.len() ==> (#[trigger] ranges[i]).well_formed_spec(max_size))
            && stages_pairwise_disjoint_spec(ranges)),
    decreases ranges.len(),
{
    if ranges.len() > 0 {
        let prefix = ranges.drop_last();
        let last = ranges.last();
        lemma_ranges_defect_none(prefix, max_size);
        lemma_claimed_stages_disjoint(prefix, last.stages.bits);
        assert(forall|i: int| 0 <= i < prefix.len() ==> prefix[i] == ranges[i]);
        assert(last == ranges[ranges.len() - 1]);
        assert forall|x: u32, y: u32| (x & y == 0) implies (y & x == 0) by {
            assert(x & y == y & x) by (bit_vector);
        }
        if ranges_defect_spec(ranges, max_size) is None {
            assert(stages_pairwise_disjoint_spec(ranges)) by {
                assert(forall|i: int|
                    0 <= i < prefix.len() ==> last.stages.bits & (#[trigger] prefix[i]).stages.bits
                        == 0);
            }
        } else {
            if ranges_defect_spec(prefix, max_size) is None && last.well_formed_spec(max_size) {
                assert(last.stages.bits & claimed_stages_spec(prefix) != 0);
                if stages_pairwise_disjoint_spec(ranges) {
                    assert(forall|i: int|
                        0 <= i < prefix.len() ==> (#[trigger] prefix[i]).stages.bits
                            & last.stages.bits == 0);
                    assert(false);
                }
            }
        }
    }
}

/// Checks a sequence of push-constant ranges against a push-constant size
/// limit.
///
/// Returns `Ok` exactly when every range is aligned, in bounds and no shader
/// stage is claimed by two ranges; otherwise reports the first inconsistency
/// in scan order.
#[verifier::loop_isolation(false)]
pub fn validate_push_constant_ranges(ranges: &Vec<PushConstantRange>, max_size: u32) -> (r: Result<
    (),
    PipelineLayoutError,
>)
    ensures
        r is Ok <==> ranges_defect_spec(ranges@, max_size) is None,
        r matches Err(e) ==> ranges_defect_spec(ranges@, max_size) == Some(e),
{
    let ghost all = ranges@;
    let mut seen: u32 = 0;
    let mut i: usize = 0;
    while i < ranges.len()
        invariant
            0 <= i <= all.len(),
            all == ranges@,
            ranges_defect_spec(all.take(i as int), max_size) is None,
            seen == claimed_stages_spec(all.take(i as int)),
        decreases all.len() - i,
    {
        proof {
            assert(all.take(i + 1).drop_last() =~= all.take(i as int));
            assert(all.take(i + 1).last() == all[i as int]);
        }
        let r = &ranges[i];
        if r.range.start % crate::PUSH_CONSTANT_ALIGNMENT != 0 || r.range.end
            % crate::PUSH_CONSTANT_ALIGNMENT != 0 {
            proof {
                lemma_ranges_defect_extends(all, max_size, i + 1);
            }
            return Err(PipelineLayoutError::RangeUnaligned { index: i });
        }
        if !(r.range.start <= r.range.end && r.range.end <= max_size) {
            proof {
                lemma_ranges_defect_extends(all, max_size, i + 1);
            }
            return Err(PipelineLayoutError::RangeOutOfBounds { index: i });
        }
        if r.stages.bits & seen != 0 {
            proof {
                lemma_ranges_defect_extends(all, max_size, i + 1);
            }
            return Err(PipelineLayoutError::StageClaimedTwice { index: i });
        }
        seen = seen | r.stages.bits;
        i += 1;
    }
    proof {
        assert(all.take(all.len() as int) =~= all);
    }
    Ok(())
}

/// Describes a pipeline layout.
#[derive(Clone, Debug, PartialEq, Eq, Hash)]
pub struct PipelineLayoutDescriptor<B> {
    /// Bind group layouts this pipeline uses, in set order: the first entry
    /// provides the bindings for set 0, the second for set 1, and so on.
    pub bind_group_layouts: Vec<B>,
    /// Push-constant ranges this pipeline uses. Each shader stage that uses
    /// push constants must define the range in push-constant memory that
    /// corresponds to its single push-constant uniform block. If this list
    /// is non-empty, the push-constant feature must be enabled.
    pub push_constant_ranges: Vec<PushConstantRange>,
}

impl<B> PipelineLayoutDescriptor<B> {
    /// The first inconsistency of this layout against the enabled features
    /// (push-constant feature: bit `0x0080_0000`) and limits: too many bind
    /// groups, then push constants without their feature, then the
    /// push-constant range defects in scan order.
    pub open spec fn defect_spec(self, features: Features, limits: Limits) -> Option<
        PipelineLayoutError,
    > {
        if self.bind_group_layouts@.len() > limits.max_bind_groups {
            Option::Some(
                PipelineLayoutError::TooManyBindGroups {
                    count: self.bind_group_layouts@.len() as usize,
                    max: limits.max_bind_groups,
                },
            )
        } else if self.push_constant_ranges@.len() > 0 && features.bits
            & 0x0000_0000_0080_0000u64 == 0 {
            Option::Some(PipelineLayoutError::PushConstantsRequireFeature)
        } else {
            ranges_defect_spec(self.push_constant_ranges@, limits.max_push_constant_size)
        }
    }

    /// Checks this layout against the enabled features and limits.
    ///
    /// Returns `Ok` exactly when the bind group count is within the limit,
    /// push constants are only used with their feature enabled, and every
    /// push-constant range is well formed with no stage claimed twice;
    /// otherwise reports the first inconsistency.
    pub fn validate(&self, features: &Features, limits: &Limits) -> (r: Result<
        (),
        PipelineLayoutError,
    >)
        ensures
            r is Ok <==> self.defect_spec(*features, *limits) is None,
            r matches Err(e) ==> self.defect_spec(*features, *limits) == Some(e),
    {
        if self.bind_group_layouts.len() > limits.max_bind_groups as usize {
            return Err(
                PipelineLayoutError::TooManyBindGroups {
                    count: self.bind_group_layouts.len(),
                    max: limits.max_bind_groups,
                },
            );
        }
        if self.push_constant_ranges.len() > 0 && features.bits & 0x0000_0000_0080_0000u64 == 0 {
            return Err(PipelineLayoutError::PushConstantsRequireFeature);
        }
        validate_push_constant_ranges(&self.push_constant_ranges, limits.max_push_constant_size)
    }
}

} // verus!
