use vstd::prelude::*;
use crate::color::Rgba8;
use crate::command::{GpuCommand, PipelineKind};
use crate::geometry::{
    BYTES_PER_PIXEL, GENERATE_LOCAL_SIZE, IMAGE_WIDTH, MUTATE_FACTOR, MUTATE_LOCAL_SIZE,
};

verus! {

/// The GPU-visible memory a single pass can touch, as the harness models it:
/// the pixels of the pass's image, the bytes of its host-visible staging
/// buffer, the words of its storage buffer, and the binding state of the
/// command buffer being recorded into.
///
/// This is the reference semantics that one fenced `render_once` submission
/// is held to: the readback the host performs after the fence signals is the
/// `transfer` or `data` component of the state this model reaches.
pub struct DeviceState {
    /// Pixels of the device-local image, row-major.
    pub image: Seq<Rgba8>,
    /// Bytes of the host-visible staging buffer.
    pub transfer: Seq<u8>,
    /// 32-bit elements of the storage buffer.
    pub data: Seq<u32>,
    /// The compute pipeline currently bound, if any.
    pub bound_pipeline: Option<PipelineKind>,
    /// Whether a descriptor set has been bound for the bound pipeline.
    pub descriptors_bound: bool,
}

/// The value the mutating shader leaves in an element: the element times the
/// fixed factor, truncated to 32 bits.
pub open spec fn mutated_element(x: u32) -> u32 {
    (((x as int) * (MUTATE_FACTOR as int)) % 0x1_0000_0000) as u32
}

/// An image laid out as the copy-to-buffer command writes it: row-major,
/// four bytes per pixel, channels in the order red, green, blue, alpha.
pub open spec fn image_bytes(image: Seq<Rgba8>) -> Seq<u8> {
    Seq::new(
        (image.len() * (BYTES_PER_PIXEL as int)) as nat,
        |j: int| image[j / 4].spec_channel(j % 4),
    )
}

/// Whether the image-generating dispatch of a workgroup grid `x` by `y`
/// reaches the pixel at column `px`, row `py`: each workgroup spans the
/// shader's local size in both dimensions.
pub open spec fn generate_covered(x: u32, y: u32, px: int, py: int) -> bool {
    &&& px < (x as int) * (GENERATE_LOCAL_SIZE as int)
    &&& py < (y as int) * (GENERATE_LOCAL_SIZE as int)
}

/// Whether the element-mutating dispatch of `x` workgroups reaches element
/// `i`: each workgroup spans the shader's local size along one row.
pub open spec fn mutate_covered(x: u32, i: int) -> bool {
    i < (x as int) * (MUTATE_LOCAL_SIZE as int)
}

/// The effect of one recorded command on the device state.
///
/// `gen` stands for the image-generating shader: the pixel it writes at each
/// column and row. The shader is an opaque precompiled artifact, so the model
/// is stated for every such function rather than for one in particular.
///
/// A dispatch takes effect only when a pipeline and a descriptor set are
/// bound, and the model gives it its meaning for the grids this harness
/// launches: a single-plane grid for the image pipeline and a single-row grid
/// for the element pipeline.
pub open spec fn step(s: DeviceState, c: GpuCommand, gen: spec_fn(int, int) -> Rgba8) -> DeviceState {
    match c {
        GpuCommand::ClearColorImage { color } => DeviceState {
            image: Seq::new(s.image.len(), |i: int| color),
            ..s
        },
        GpuCommand::CopyImageToBuffer => DeviceState { transfer: image_bytes(s.image), ..s },
        GpuCommand::BindComputePipeline { pipeline } => DeviceState {
            bound_pipeline: Some(pipeline),
            ..s
        },
        GpuCommand::BindDescriptorSets { set_index } => DeviceState {
            descriptors_bound: s.descriptors_bound || set_index == 0,
            ..s
        },
        GpuCommand::Dispatch { x, y, z } => {
            if s.bound_pipeline == Some(PipelineKind::Mutate) && s.descriptors_bound && y == 1 && z
                == 1 {
                DeviceState {
                    data: Seq::new(
                        s.data.len(),
                        |i: int|
                            if mutate_covered(x, i) {
                                mutated_element(s.data[i])
                            } else {
                                s.data[i]
                            },
                    ),
                    ..s
                }
            } else if s.bound_pipeline == Some(PipelineKind::Generate) && s.descriptors_bound && z
                == 1 {
                DeviceState {
                    image: Seq::new(
                        s.image.len(),
                        |i: int|
                            if generate_covered(
                                x,
                                y,
                                i % (IMAGE_WIDTH as int),
                                i / (IMAGE_WIDTH as int),
                            ) {
                                gen(i % (IMAGE_WIDTH as int), i / (IMAGE_WIDTH as int))
                            } else {
                                s.image[i]
                            },
                    ),
                    ..s
                }
            } else {
                s
            }
        },
    }
}

/// The effect of a recorded command sequence, first command first.
pub open spec fn run(
    s: DeviceState,
    cmds: Seq<GpuCommand>,
    gen: spec_fn(int, int) -> Rgba8,
) -> DeviceState
    decreases cmds.len(),
{
    if cmds.len() == 0 {
        s
    } else {
        run(step(s, cmds[0], gen), cmds.subrange(1, cmds.len() as int), gen)
    }
}

/// The effect of submitting the same command sequence `k` times in a row,
/// each submission running to completion before the next.
pub open spec fn run_times(
    s: DeviceState,
    cmds: Seq<GpuCommand>,
    k: nat,
    gen: spec_fn(int, int) -> Rgba8,
) -> DeviceState
    decreases k,
{
    if k == 0 {
        s
    } else {
        run(run_times(s, cmds, (k - 1) as nat, gen), cmds, gen)
    }
}

} // verus!
