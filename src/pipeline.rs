//! Creation of render pipelines from descriptors, with the configuration
//! checks that a descriptor cannot make by itself.
use vstd::prelude::*;
use crate::builders::{PipelineView, RenderPipelineDesc};

verus! {

/// A descriptor that cannot describe a working pipeline.
#[derive(Clone, Copy, Debug, PartialEq, Eq, Structural)]
pub enum ConfigurationError {
    /// A fragment stage is present but there is no color target for it to
    /// write.
    FragmentStageWithoutColorTargets,
}

/// Why a pipeline could not be created.
#[derive(Clone, Copy, Debug, PartialEq, Eq, Structural)]
pub enum PipelineCreationError {
    Configuration(ConfigurationError),
}

/// The configuration error of a descriptor, if it has one.
pub open spec fn configuration_error(d: PipelineView) -> Option<ConfigurationError> {
    if d.fragment_stage is Some && d.color_states.len() == 0 {
        Some(ConfigurationError::FragmentStageWithoutColorTargets)
    } else {
        None
    }
}

/// A pipeline whose descriptor passed the configuration checks.
pub struct RenderPipeline {
    desc: RenderPipelineDesc,
}

impl View for RenderPipeline {
    type V = PipelineView;

    closed spec fn view(&self) -> PipelineView {
        self.desc@
    }
}

impl RenderPipeline {
    /// The descriptor the pipeline was created from.
    pub fn desc(&self) -> (r: &RenderPipelineDesc)
        ensures
            r@ == self@,
    {
        &self.desc
    }
}

/// Creates a pipeline from `desc`, or reports the configuration error that
/// makes `desc` unusable.
pub fn create_render_pipeline(desc: RenderPipelineDesc) -> (r: Result<RenderPipeline, PipelineCreationError>)
    ensures
        match configuration_error(desc@) {
            None => r is Ok && r->Ok_0@ == desc@,
            Some(e) => r == Err::<RenderPipeline, PipelineCreationError>(
                PipelineCreationError::Configuration(e),
            ),
        },
{
    if desc.fragment_stage.is_some() && desc.color_states.len() == 0 {
        Err(PipelineCreationError::Configuration(ConfigurationError::FragmentStageWithoutColorTargets))
    } else {
        Ok(RenderPipeline { desc })
    }
}

} // verus!
