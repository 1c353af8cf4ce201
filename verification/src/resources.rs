use vstd::prelude::*;
use crate::command::PipelineKind;
use crate::geometry::{BYTES_PER_PIXEL, IMAGE_HEIGHT, IMAGE_WIDTH};

verus! {

/// A device-local 2-D image: its extent and the usages its creation
/// declared. The fixed format is four 8-bit channels per pixel.
#[derive(Clone, Copy, PartialEq, Eq, Structural, Debug)]
pub struct ImageResource {
    pub width: u32,
    pub height: u32,
    /// The image may be the source of a transfer (copy to a buffer).
    pub transfer_src: bool,
    /// The image may be the destination of a transfer or of a clear.
    pub transfer_dst: bool,
    /// The image may be written by a compute shader through a storage
    /// binding.
    pub storage: bool,
}

impl ImageResource {
    /// The image has the one extent this harness renders at.
    pub open spec fn has_fixed_extent(self) -> bool {
        self.width == IMAGE_WIDTH && self.height == IMAGE_HEIGHT
    }

    /// Byte footprint of the image: width times height times four.
    pub open spec fn byte_count(self) -> int {
        (self.width as int) * (self.height as int) * (BYTES_PER_PIXEL as int)
    }
}

/// A linear buffer: its length in elements and the flags its allocation
/// declared.
#[derive(Clone, Copy, PartialEq, Eq, Structural, Debug)]
pub struct BufferResource {
    /// Number of elements; an element is a byte for staging buffers and a
    /// 32-bit word for the element buffer.
    pub len: usize,
    /// The buffer may be the destination of a transfer.
    pub transfer_dst: bool,
    /// The buffer may be read and written by a compute shader.
    pub storage: bool,
    /// The buffer lives in memory the host can map and read.
    pub host_visible: bool,
    /// The buffer prefers device-local memory.
    pub device_local: bool,
}

/// A compute pipeline: one shader with entry point `main`, its declared
/// local workgroup size, and the layout inferred from its bindings.
#[derive(Clone, Copy, PartialEq, Eq, Structural, Debug)]
pub struct PipelineResource {
    pub kind: PipelineKind,
    pub local_size_x: u32,
    pub local_size_y: u32,
    pub local_size_z: u32,
}

/// What a descriptor set binds at its one binding slot.
#[derive(Clone, Copy, PartialEq, Eq, Structural, Debug)]
pub enum BindingTarget {
    /// The view of the pass's storage image.
    ImageView,
    /// The pass's storage buffer.
    StorageBuffer,
}

/// A descriptor set: one concrete resource bound at a set index and a
/// binding slot that must match what the shader declares.
#[derive(Clone, Copy, PartialEq, Eq, Structural, Debug)]
pub struct DescriptorBinding {
    pub set_index: u32,
    pub binding: u32,
    pub target: BindingTarget,
}

impl DescriptorBinding {
    /// Every shader of this harness declares its one resource at set 0,
    /// binding 0.
    pub open spec fn matches_shader_layout(self) -> bool {
        self.set_index == 0 && self.binding == 0
    }
}

} // verus!
