//! Device requests and the negotiation rule between requested and advertised
//! capabilities.

use vstd::prelude::*;
use crate::features::Features;
use crate::limits::{LimitKind, Limits};

verus! {

/// Describes a device to be requested from an adapter.
#[derive(Clone, Copy, Debug, PartialEq, Eq, Hash, Structural)]
pub struct DeviceDescriptor {
    /// Features that the device should support. Every one of them must be
    /// advertised by the adapter, or the request is a contract violation.
    pub features: Features,
    /// Limits that the device should support. Every field must stay at or
    /// below the advertised value, or the request is a contract violation.
    pub limits: Limits,
    /// Switch shader validation on or off.
    pub shader_validation: bool,
}

impl Default for DeviceDescriptor {
    /// No features, the default limits, shader validation off.
    fn default() -> (r: DeviceDescriptor)
        ensures
            r.features.bits == 0u64,
            r.limits == (Limits::default_spec()),
            !r.shader_validation,
    {
        DeviceDescriptor {
            features: Features { bits: 0 },
            limits: Limits::default(),
            shader_validation: false,
        }
    }
}

/// A contract violation: the caller asked for a capability that the queried
/// adapter already said was unavailable. This is a programming error in the
/// caller, distinct from a recoverable invalid descriptor.
#[derive(Clone, Copy, Debug, PartialEq, Eq, Hash, Structural)]
pub enum CapabilityViolation {
    /// The request demanded features that the adapter does not advertise;
    /// `missing` holds exactly the demanded-but-unavailable ones.
    MissingFeatures { missing: Features },
    /// The request rose above an advertised limit; the named field is the
    /// first one, in declaration order, that does.
    LimitExceeded { limit: LimitKind, requested: u32, allowed: u32 },
}

/// Whether a device request is legal against an adapter's advertised
/// capabilities: the requested features are a subset of the advertised ones
/// and the requested limits fit within the advertised ones.
pub open spec fn device_request_legal_spec(
    advertised_features: Features,
    advertised_limits: Limits,
    desc: DeviceDescriptor,
) -> bool {
    &&& desc.features.is_subset_of_spec(advertised_features)
    &&& desc.limits.fits_within_spec(advertised_limits)
}

/// Checks a device request against an adapter's advertised capabilities.
///
/// Returns `Ok` exactly when the request is legal; otherwise reports the
/// violation precisely: first any missing features, then the first exceeded
/// limit field.
pub fn validate_device_request(
    advertised_features: &Features,
    advertised_limits: &Limits,
    desc: &DeviceDescriptor,
) -> (r: Result<(), CapabilityViolation>)
    ensures
        r is Ok <==> device_request_legal_spec(*advertised_features, *advertised_limits, *desc),
        !desc.features.is_subset_of_spec(*advertised_features) ==> r == Result::<
            (),
            CapabilityViolation,
        >::Err(
            CapabilityViolation::MissingFeatures {
                missing: Features { bits: desc.features.bits & !advertised_features.bits },
            },
        ),
        desc.features.is_subset_of_spec(*advertised_features)
            && !desc.limits.fits_within_spec(*advertised_limits) ==> (r matches Err(
            CapabilityViolation::LimitExceeded { limit, requested, allowed },
        ) && Some(limit) == desc.limits.first_exceeded_spec(*advertised_limits) && requested
            == desc.limits.field_spec(limit) && allowed == advertised_limits.field_spec(limit)),
{
    if !desc.features.is_subset_of(*advertised_features) {
        let missing = desc.features.difference(*advertised_features);
        return Err(CapabilityViolation::MissingFeatures { missing });
    }
    match desc.limits.first_exceeded(advertised_limits) {
        Some(kind) => {
            proof {
                crate::limits::lemma_first_exceeded_agrees(desc.limits, *advertised_limits);
            }
            let requested = desc.limits.field(kind);
            let allowed = advertised_limits.field(kind);
            Err(CapabilityViolation::LimitExceeded { limit: kind, requested, allowed })
        },
        None => {
            proof {
                crate::limits::lemma_first_exceeded_agrees(desc.limits, *advertised_limits);
            }
            Ok(())
        },
    }
}

} // verus!
