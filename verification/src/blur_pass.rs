use vstd::prelude::*;
use crate::color::{clear_color, spec_clear_color, Rgba8};
use crate::command::GpuCommand;
use crate::context::VulkanContext;
use crate::geometry::{image_byte_count, image_byte_len, pixel_count, IMAGE_HEIGHT, IMAGE_WIDTH};
use crate::machine::{run, step, DeviceState};
use crate::resources::{BufferResource, ImageResource};

verus! {

/// The command sequence the clear/copy pass records: clear every pixel of
/// its image to the fixed color, then copy the image into its staging
/// buffer.
pub open spec fn clear_copy_commands() -> Seq<GpuCommand> {
    seq![
        GpuCommand::ClearColorImage { color: spec_clear_color() },
        GpuCommand::CopyImageToBuffer,
    ]
}

/// The clear-and-copy pass: a device-local image that can be cleared and
/// copied out, and a matching host-visible staging buffer. It builds no
/// pipeline and dispatches nothing; named for the blur filter it was meant
/// to grow into, its literal contract is clear plus copy.
pub struct BlurPass {
    pub image: ImageResource,
    pub transfer_buffer: BufferResource,
}

impl BlurPass {
    /// The pass owns an image of the fixed extent usable as both transfer
    /// source and destination, and a staging buffer of exactly the image's
    /// byte footprint.
    pub open spec fn wf(self) -> bool {
        &&& self.image.has_fixed_extent()
        &&& self.image.transfer_src
        &&& self.image.transfer_dst
        &&& !self.image.storage
        &&& self.transfer_buffer.len == image_byte_count()
        &&& self.transfer_buffer.transfer_dst
        &&& self.transfer_buffer.host_visible
        &&& !self.transfer_buffer.storage
    }

    /// Allocate the pass's resources against the context: the device-local
    /// image and the host-visible staging buffer sized to its byte
    /// footprint.
    pub fn new(_context: &VulkanContext) -> (p: Self)
        ensures
            p.wf(),
            p.image == (ImageResource {
                width: IMAGE_WIDTH,
                height: IMAGE_HEIGHT,
                transfer_src: true,
                transfer_dst: true,
                storage: false,
            }),
            p.transfer_buffer.len == image_byte_count(),
    {
        let image = ImageResource {
            width: IMAGE_WIDTH,
            height: IMAGE_HEIGHT,
            transfer_src: true,
            transfer_dst: true,
            storage: false,
        };
        let transfer_buffer = BufferResource {
            len: image_byte_len(),
            transfer_dst: true,
            storage: false,
            host_visible: true,
            device_local: false,
        };
        BlurPass { image, transfer_buffer }
    }

    /// Append this pass's commands to the open command buffer, without
    /// submitting them.
    pub fn execute(&self, cmd_buffer: &mut Vec<GpuCommand>)
        ensures
            final(cmd_buffer)@ == old(cmd_buffer)@ + clear_copy_commands(),
    {
        cmd_buffer.push(GpuCommand::ClearColorImage { color: clear_color() });
        cmd_buffer.push(GpuCommand::CopyImageToBuffer);
        proof {
            assert(cmd_buffer@ =~= old(cmd_buffer)@ + clear_copy_commands());
        }
    }
}

/// After one run of the clear/copy commands on an image of the fixed
/// extent, every pixel of the image holds the fixed clear color, and every
/// byte of the staging buffer holds the matching channel of that color —
/// whatever the image, the buffer and the binding state held before.
pub proof fn lemma_clear_copy_run(s: DeviceState, gen: spec_fn(int, int) -> Rgba8)
    requires
        s.image.len() == pixel_count(),
    ensures
        ({
            let t = run(s, clear_copy_commands(), gen);
            &&& t.image.len() == pixel_count()
            &&& forall|p: int| 0 <= p < pixel_count() ==> t.image[p] == spec_clear_color()
            &&& t.transfer.len() == image_byte_count()
            &&& forall|j: int|
                0 <= j < image_byte_count() ==> t.transfer[j] == spec_clear_color().spec_channel(
                    j % 4,
                )
            &&& t.data == s.data
        }),
{
    let c = clear_copy_commands();
    let s1 = step(s, c[0], gen);
    let rest1 = c.subrange(1, 2);
    assert(run(s, c, gen) == run(s1, rest1, gen));
    let s2 = step(s1, rest1[0], gen);
    let rest2 = rest1.subrange(1, 1);
    assert(run(s1, rest1, gen) == run(s2, rest2, gen));
    assert(run(s2, rest2, gen) == s2);
    assert(rest1[0] == c[1]);
    let t = run(s, c, gen);
    assert(t == s2);
    assert forall|j: int| 0 <= j < image_byte_count() implies t.transfer[j]
        == spec_clear_color().spec_channel(j % 4) by {
        lemma_div_in_pixel_range(j);
    }
}

/// A byte index inside the image footprint addresses a pixel inside the
/// image: dividing by the pixel stride stays below the pixel count.
proof fn lemma_div_in_pixel_range(j: int)
    requires
        0 <= j < image_byte_count(),
    ensures
        0 <= j / 4 < pixel_count(),
{
    assert(image_byte_count() == pixel_count() * 4);
    assert(0 <= j / 4 < pixel_count()) by (nonlinear_arith)
        requires
            0 <= j < pixel_count() * 4,
    ;
}

} // verus!
