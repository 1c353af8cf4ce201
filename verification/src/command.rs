use vstd::prelude::*;
use crate::color::Rgba8;

verus! {

/// Which of the two compute pipelines a recorded command binds.
#[derive(Clone, Copy, PartialEq, Eq, Structural, Debug)]
pub enum PipelineKind {
    /// The pipeline whose shader writes one pixel per invocation into the
    /// storage image.
    Generate,
    /// The pipeline whose shader multiplies one buffer element per
    /// invocation in place.
    Mutate,
}

/// One GPU command as a pass records it into an open command buffer.
///
/// Every command addresses the resources of the pass that records it: its
/// image, its staging buffer, its element buffer, its pipeline and its
/// descriptor set at set index 0, binding 0.
#[derive(Clone, Copy, PartialEq, Eq, Structural, Debug)]
pub enum GpuCommand {
    /// Clear every pixel of the pass's image to `color`.
    ClearColorImage { color: Rgba8 },
    /// Copy the pass's image, row-major and four bytes per pixel, into its
    /// staging buffer.
    CopyImageToBuffer,
    /// Bind one of the two compute pipelines.
    BindComputePipeline { pipeline: PipelineKind },
    /// Bind the pass's descriptor set at the given set index.
    BindDescriptorSets { set_index: u32 },
    /// Launch a grid of workgroups on the bound pipeline.
    Dispatch { x: u32, y: u32, z: u32 },
}

} // verus!
