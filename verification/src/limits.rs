//! Numeric capacity ceilings that an adapter advertises and a device request
//! must stay within.

use vstd::prelude::*;

verus! {

/// The set of numeric limits an adapter or device supports.
///
/// Every field is a ceiling: higher is more permissive. A request is legal
/// only if it stays at or below the advertised value in every field; see
/// [`Limits::fits_within`].
#[derive(Clone, Copy, Debug, PartialEq, Eq, Hash, Structural)]
pub struct Limits {
    /// Amount of bind groups that can be attached to a pipeline at the same
    /// time. Defaults to 4.
    pub max_bind_groups: u32,
    /// Amount of uniform buffer bindings that can be dynamic in a single
    /// pipeline. Defaults to 8.
    pub max_dynamic_uniform_buffers_per_pipeline_layout: u32,
    /// Amount of storage buffer bindings that can be dynamic in a single
    /// pipeline. Defaults to 4.
    pub max_dynamic_storage_buffers_per_pipeline_layout: u32,
    /// Amount of sampled textures visible in a single shader stage. Defaults
    /// to 16.
    pub max_sampled_textures_per_shader_stage: u32,
    /// Amount of samplers visible in a single shader stage. Defaults to 16.
    pub max_samplers_per_shader_stage: u32,
    /// Amount of storage buffers visible in a single shader stage. Defaults
    /// to 4.
    pub max_storage_buffers_per_shader_stage: u32,
    /// Amount of storage textures visible in a single shader stage. Defaults
    /// to 4.
    pub max_storage_textures_per_shader_stage: u32,
    /// Amount of uniform buffers visible in a single shader stage. Defaults
    /// to 12.
    pub max_uniform_buffers_per_shader_stage: u32,
    /// Maximum size in bytes of a binding to a uniform buffer. Defaults to
    /// 16384.
    pub max_uniform_buffer_binding_size: u32,
    /// Amount of storage available for push constants in bytes. Defaults to
    /// 0. Requesting more than 0 requires the push-constant feature to be
    /// enabled.
    pub max_push_constant_size: u32,
}

/// Names one limit field, so an exceeded limit can be reported precisely.
#[derive(Clone, Copy, Debug, PartialEq, Eq, Hash, Structural)]
pub enum LimitKind {
    MaxBindGroups,
    MaxDynamicUniformBuffersPerPipelineLayout,
    MaxDynamicStorageBuffersPerPipelineLayout,
    MaxSampledTexturesPerShaderStage,
    MaxSamplersPerShaderStage,
    MaxStorageBuffersPerShaderStage,
    MaxStorageTexturesPerShaderStage,
    MaxUniformBuffersPerShaderStage,
    MaxUniformBufferBindingSize,
    MaxPushConstantSize,
}

impl Limits {
    /// The documented default value of every limit.
    pub open spec fn default_spec() -> Limits {
        Limits {
            max_bind_groups: 4,
            max_dynamic_uniform_buffers_per_pipeline_layout: 8,
            max_dynamic_storage_buffers_per_pipeline_layout: 4,
            max_sampled_textures_per_shader_stage: 16,
            max_samplers_per_shader_stage: 16,
            max_storage_buffers_per_shader_stage: 4,
            max_storage_textures_per_shader_stage: 4,
            max_uniform_buffers_per_shader_stage: 12,
            max_uniform_buffer_binding_size: 16384,
            max_push_constant_size: 0,
        }
    }

    /// Returns the value of the field that a [`LimitKind`] names.
    pub fn field(&self, kind: LimitKind) -> (r: u32)
        ensures
            r == self.field_spec(kind),
    {
        match kind {
            LimitKind::MaxBindGroups => self.max_bind_groups,
            LimitKind::MaxDynamicUniformBuffersPerPipelineLayout => self.max_dynamic_uniform_buffers_per_pipeline_layout,
            LimitKind::MaxDynamicStorageBuffersPerPipelineLayout => self.max_dynamic_storage_buffers_per_pipeline_layout,
            LimitKind::MaxSampledTexturesPerShaderStage => self.max_sampled_textures_per_shader_stage,
            LimitKind::MaxSamplersPerShaderStage => self.max_samplers_per_shader_stage,
            LimitKind::MaxStorageBuffersPerShaderStage => self.max_storage_buffers_per_shader_stage,
            LimitKind::MaxStorageTexturesPerShaderStage => self.max_storage_textures_per_shader_stage,
            LimitKind::MaxUniformBuffersPerShaderStage => self.max_uniform_buffers_per_shader_stage,
            LimitKind::MaxUniformBufferBindingSize => self.max_uniform_buffer_binding_size,
            LimitKind::MaxPushConstantSize => self.max_push_constant_size,
        }
    }

    /// The value of the field that a [`LimitKind`] names.
    pub open spec fn field_spec(self, kind: LimitKind) -> u32 {
        match kind {
            LimitKind::MaxBindGroups => self.max_bind_groups,
            LimitKind::MaxDynamicUniformBuffersPerPipelineLayout => self.max_dynamic_uniform_buffers_per_pipeline_layout,
            LimitKind::MaxDynamicStorageBuffersPerPipelineLayout => self.max_dynamic_storage_buffers_per_pipeline_layout,
            LimitKind::MaxSampledTexturesPerShaderStage => self.max_sampled_textures_per_shader_stage,
            LimitKind::MaxSamplersPerShaderStage => self.max_samplers_per_shader_stage,
            LimitKind::MaxStorageBuffersPerShaderStage => self.max_storage_buffers_per_shader_stage,
            LimitKind::MaxStorageTexturesPerShaderStage => self.max_storage_textures_per_shader_stage,
            LimitKind::MaxUniformBuffersPerShaderStage => self.max_uniform_buffers_per_shader_stage,
            LimitKind::MaxUniformBufferBindingSize => self.max_uniform_buffer_binding_size,
            LimitKind::MaxPushConstantSize => self.max_push_constant_size,
        }
    }

    /// Whether `self`, taken as a request, stays at or below `advertised` in
    /// every field. No field is skipped.
    pub open spec fn fits_within_spec(self, advertised: Limits) -> bool {
        &&& self.max_bind_groups <= advertised.max_bind_groups
        &&& self.max_dynamic_uniform_buffers_per_pipeline_layout
            <= advertised.max_dynamic_uniform_buffers_per_pipeline_layout
        &&& self.max_dynamic_storage_buffers_per_pipeline_layout
            <= advertised.max_dynamic_storage_buffers_per_pipeline_layout
        &&& self.max_sampled_textures_per_shader_stage
            <= advertised.max_sampled_textures_per_shader_stage
        &&& self.max_samplers_per_shader_stage <= advertised.max_samplers_per_shader_stage
        &&& self.max_storage_buffers_per_shader_stage
            <= advertised.max_storage_buffers_per_shader_stage
        &&& self.max_storage_textures_per_shader_stage
            <= advertised.max_storage_textures_per_shader_stage
        &&& self.max_uniform_buffers_per_shader_stage
            <= advertised.max_uniform_buffers_per_shader_stage
        &&& self.max_uniform_buffer_binding_size <= advertised.max_uniform_buffer_binding_size
        &&& self.max_push_constant_size <= advertised.max_push_constant_size
    }

    /// The first field, in declaration order, in which `self` exceeds
    /// `advertised`; `None` when `self` fits within `advertised`.
    pub open spec fn first_exceeded_spec(self, advertised: Limits) -> Option<LimitKind> {
        if self.max_bind_groups > advertised.max_bind_groups {
            Some(LimitKind::MaxBindGroups)
        } else if self.max_dynamic_uniform_buffers_per_pipeline_layout
            > advertised.max_dynamic_uniform_buffers_per_pipeline_layout {
            Some(LimitKind::MaxDynamicUniformBuffersPerPipelineLayout)
        } else if self.max_dynamic_storage_buffers_per_pipeline_layout
            > advertised.max_dynamic_storage_buffers_per_pipeline_layout {
            Some(LimitKind::MaxDynamicStorageBuffersPerPipelineLayout)
        } else if self.max_sampled_textures_per_shader_stage
            > advertised.max_sampled_textures_per_shader_stage {
            Some(LimitKind::MaxSampledTexturesPerShaderStage)
        } else if self.max_samplers_per_shader_stage > advertised.max_samplers_per_shader_stage {
            Some(LimitKind::MaxSamplersPerShaderStage)
        } else if self.max_storage_buffers_per_shader_stage
            > advertised.max_storage_buffers_per_shader_stage {
            Some(LimitKind::MaxStorageBuffersPerShaderStage)
        } else if self.max_storage_textures_per_shader_stage
            > advertised.max_storage_textures_per_shader_stage {
            Some(LimitKind::MaxStorageTexturesPerShaderStage)
        } else if self.max_uniform_buffers_per_shader_stage
            > advertised.max_uniform_buffers_per_shader_stage {
            Some(LimitKind::MaxUniformBuffersPerShaderStage)
        } else if self.max_uniform_buffer_binding_size
            > advertised.max_uniform_buffer_binding_size {
            Some(LimitKind::MaxUniformBufferBindingSize)
        } else if self.max_push_constant_size > advertised.max_push_constant_size {
            Some(LimitKind::MaxPushConstantSize)
        } else {
            None
        }
    }

    /// Returns whether `self`, taken as a request, stays at or below
    /// `advertised` in every field.
    pub fn fits_within(&self, advertised: &Limits) -> (r: bool)
        ensures
            r == self.fits_within_spec(*advertised),
    {
        self.max_bind_groups <= advertised.max_bind_groups
            && self.max_dynamic_uniform_buffers_per_pipeline_layout
            <= advertised.max_dynamic_uniform_buffers_per_pipeline_layout
            && self.max_dynamic_storage_buffers_per_pipeline_layout
            <= advertised.max_dynamic_storage_buffers_per_pipeline_layout
            && self.max_sampled_textures_per_shader_stage
            <= advertised.max_sampled_textures_per_shader_stage
            && self.max_samplers_per_shader_stage <= advertised.max_samplers_per_shader_stage
            && self.max_storage_buffers_per_shader_stage
            <= advertised.max_storage_buffers_per_shader_stage
            && self.max_storage_textures_per_shader_stage
            <= advertised.max_storage_textures_per_shader_stage
            && self.max_uniform_buffers_per_shader_stage
            <= advertised.max_uniform_buffers_per_shader_stage
            && self.max_uniform_buffer_binding_size <= advertised.max_uniform_buffer_binding_size
            && self.max_push_constant_size <= advertised.max_push_constant_size
    }

    /// Returns the first field, in declaration order, in which `self`
    /// exceeds `advertised`, or `None` when every field fits.
    pub fn first_exceeded(&self, advertised: &Limits) -> (r: Option<LimitKind>)
        ensures
            r == self.first_exceeded_spec(*advertised),
    {
        if self.max_bind_groups > advertised.max_bind_groups {
            Some(LimitKind::MaxBindGroups)
        } else if self.max_dynamic_uniform_buffers_per_pipeline_layout
            > advertised.max_dynamic_uniform_buffers_per_pipeline_layout {
            Some(LimitKind::MaxDynamicUniformBuffersPerPipelineLayout)
        } else if self.max_dynamic_storage_buffers_per_pipeline_layout
            > advertised.max_dynamic_storage_buffers_per_pipeline_layout {
            Some(LimitKind::MaxDynamicStorageBuffersPerPipelineLayout)
        } else if self.max_sampled_textures_per_shader_stage
            > advertised.max_sampled_textures_per_shader_stage {
            Some(LimitKind::MaxSampledTexturesPerShaderStage)
        } else if self.max_samplers_per_shader_stage > advertised.max_samplers_per_shader_stage {
            Some(LimitKind::MaxSamplersPerShaderStage)
        } else if self.max_storage_buffers_per_shader_stage
            > advertised.max_storage_buffers_per_shader_stage {
            Some(LimitKind::MaxStorageBuffersPerShaderStage)
        } else if self.max_storage_textures_per_shader_stage
            > advertised.max_storage_textures_per_shader_stage {
            Some(LimitKind::MaxStorageTexturesPerShaderStage)
        } else if self.max_uniform_buffers_per_shader_stage
            > advertised.max_uniform_buffers_per_shader_stage {
            Some(LimitKind::MaxUniformBuffersPerShaderStage)
        } else if self.max_uniform_buffer_binding_size
            > advertised.max_uniform_buffer_binding_size {
            Some(LimitKind::MaxUniformBufferBindingSize)
        } else if self.max_push_constant_size > advertised.max_push_constant_size {
            Some(LimitKind::MaxPushConstantSize)
        } else {
            None
        }
    }
}

impl Default for Limits {
    /// The documented default value of every limit.
    fn default() -> (r: Limits)
        ensures
            r == Limits::default_spec(),
    {
        Limits {
            max_bind_groups: 4,
            max_dynamic_uniform_buffers_per_pipeline_layout: 8,
            max_dynamic_storage_buffers_per_pipeline_layout: 4,
            max_sampled_textures_per_shader_stage: 16,
            max_samplers_per_shader_stage: 16,
            max_storage_buffers_per_shader_stage: 4,
            max_storage_textures_per_shader_stage: 4,
            max_uniform_buffers_per_shader_stage: 12,
            max_uniform_buffer_binding_size: 16384,
            max_push_constant_size: 0,
        }
    }
}

/// Fitting is exactly the field-wise order: `a` fits within `b` iff every
/// field of `a` is at or below the field of `b` that the same kind names.
pub proof fn lemma_fits_within_is_fieldwise(a: Limits, b: Limits)
    ensures
        a.fits_within_spec(b) <==> (forall|k: LimitKind| a.field_spec(k) <= b.field_spec(k)),
{
    if a.fits_within_spec(b) {
        assert forall|k: LimitKind| a.field_spec(k) <= b.field_spec(k) by {
            match k {
                LimitKind::MaxBindGroups => {},
                LimitKind::MaxDynamicUniformBuffersPerPipelineLayout => {},
                LimitKind::MaxDynamicStorageBuffersPerPipelineLayout => {},
                LimitKind::MaxSampledTexturesPerShaderStage => {},
                LimitKind::MaxSamplersPerShaderStage => {},
                LimitKind::MaxStorageBuffersPerShaderStage => {},
                LimitKind::MaxStorageTexturesPerShaderStage => {},
                LimitKind::MaxUniformBuffersPerShaderStage => {},
                LimitKind::MaxUniformBufferBindingSize => {},
                LimitKind::MaxPushConstantSize => {},
            }
        }
    }
    if forall|k: LimitKind| a.field_spec(k) <= b.field_spec(k) {
        assert(a.field_spec(LimitKind::MaxBindGroups) <= b.field_spec(LimitKind::MaxBindGroups));
        assert(a.field_spec(LimitKind::MaxDynamicUniformBuffersPerPipelineLayout) <= b.field_spec(
            LimitKind::MaxDynamicUniformBuffersPerPipelineLayout,
        ));
        assert(a.field_spec(LimitKind::MaxDynamicStorageBuffersPerPipelineLayout) <= b.field_spec(
            LimitKind::MaxDynamicStorageBuffersPerPipelineLayout,
        ));
        assert(a.field_spec(LimitKind::MaxSampledTexturesPerShaderStage) <= b.field_spec(
            LimitKind::MaxSampledTexturesPerShaderStage,
        ));
        assert(a.field_spec(LimitKind::MaxSamplersPerShaderStage) <= b.field_spec(
            LimitKind::MaxSamplersPerShaderStage,
        ));
        assert(a.field_spec(LimitKind::MaxStorageBuffersPerShaderStage) <= b.field_spec(
            LimitKind::MaxStorageBuffersPerShaderStage,
        ));
        assert(a.field_spec(LimitKind::MaxStorageTexturesPerShaderStage) <= b.field_spec(
            LimitKind::MaxStorageTexturesPerShaderStage,
        ));
        assert(a.field_spec(LimitKind::MaxUniformBuffersPerShaderStage) <= b.field_spec(
            LimitKind::MaxUniformBuffersPerShaderStage,
        ));
        assert(a.field_spec(LimitKind::MaxUniformBufferBindingSize) <= b.field_spec(
            LimitKind::MaxUniformBufferBindingSize,
        ));
        assert(a.field_spec(LimitKind::MaxPushConstantSize) <= b.field_spec(
            LimitKind::MaxPushConstantSize,
        ));
    }
}

/// Fitting is reflexive: every set of limits fits within itself.
pub proof fn lemma_fits_within_reflexive(x: Limits)
    ensures
        x.fits_within_spec(x),
{
}

/// Fitting is antitonic in the request: as soon as any one field of the
/// request rises above the advertised field of the same kind, the request no
/// longer fits.
pub proof fn lemma_fits_within_antitonic(requested: Limits, advertised: Limits, k: LimitKind)
    requires
        requested.field_spec(k) > advertised.field_spec(k),
    ensures
        !requested.fits_within_spec(advertised),
{
    lemma_fits_within_is_fieldwise(requested, advertised);
}

/// The first-exceeded report agrees with fitting: there is no exceeded field
/// exactly when the request fits, and a reported field is indeed exceeded.
pub proof fn lemma_first_exceeded_agrees(requested: Limits, advertised: Limits)
    ensures
        requested.first_exceeded_spec(advertised) is None <==> requested.fits_within_spec(
            advertised,
        ),
        requested.first_exceeded_spec(advertised) matches Some(k) ==> requested.field_spec(k)
            > advertised.field_spec(k),
{
}

} // verus!
