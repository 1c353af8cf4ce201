use vstd::prelude::*;
use vstd::arithmetic::div_mod::lemma_div_is_ordered;
use crate::color::Rgba8;
use crate::command::{GpuCommand, PipelineKind};
use crate::context::VulkanContext;
use crate::geometry::{
    image_byte_count, image_byte_len, pixel_count, GENERATE_GROUP_COUNT, GENERATE_LOCAL_SIZE,
    IMAGE_HEIGHT, IMAGE_WIDTH,
};
use crate::machine::{generate_covered, image_bytes, run, step, DeviceState};
use crate::resources::{
    BindingTarget, BufferResource, DescriptorBinding, ImageResource, PipelineResource,
};

verus! {

/// The command sequence the image-generating pass records: bind its compute
/// pipeline, bind its descriptor set at set 0, dispatch a workgroup grid
/// that covers every pixel exactly once, then copy the image into its
/// staging buffer.
pub open spec fn generate_commands() -> Seq<GpuCommand> {
    seq![
        GpuCommand::BindComputePipeline { pipeline: PipelineKind::Generate },
        GpuCommand::BindDescriptorSets { set_index: 0 },
        GpuCommand::Dispatch { x: GENERATE_GROUP_COUNT, y: GENERATE_GROUP_COUNT, z: 1 },
        GpuCommand::CopyImageToBuffer,
    ]
}

/// The image-generating pass: a device-local storage image a compute shader
/// writes one pixel per invocation into, a matching host-visible staging
/// buffer, the pipeline built from that shader, and the descriptor set
/// binding the image's view to slot 0.
pub struct FractalPass {
    pub image: ImageResource,
    pub transfer_buffer: BufferResource,
    /// The pipeline built from the image-generating shader.
    pub compute_pipeline: PipelineResource,
    /// Index of the one descriptor set layout of that pipeline.
    pub dset_layout_idx: u32,
    /// The descriptor set binding the image view at set 0, binding 0.
    pub dset: DescriptorBinding,
}

impl FractalPass {
    /// The pass owns a storage image of the fixed extent that is also a
    /// transfer source, a staging buffer of the image's byte footprint, a
    /// pipeline of the generating kind with the shader's declared local
    /// size, and a descriptor set matching the shader's layout.
    pub open spec fn wf(self) -> bool {
        &&& self.image.has_fixed_extent()
        &&& self.image.transfer_src
        &&& self.image.storage
        &&& !self.image.transfer_dst
        &&& self.transfer_buffer.len == image_byte_count()
        &&& self.transfer_buffer.transfer_dst
        &&& self.transfer_buffer.host_visible
        &&& !self.transfer_buffer.storage
        &&& self.compute_pipeline.kind == PipelineKind::Generate
        &&& self.compute_pipeline.local_size_x == GENERATE_LOCAL_SIZE
        &&& self.compute_pipeline.local_size_y == GENERATE_LOCAL_SIZE
        &&& self.compute_pipeline.local_size_z == 1
        &&& self.dset_layout_idx == 0
        &&& self.dset.matches_shader_layout()
        &&& self.dset.target == BindingTarget::ImageView
    }

    /// Allocate the pass's resources against the context: the storage
    /// image, the staging buffer sized to its byte footprint, the pipeline
    /// from the generating shader, and the descriptor set binding the
    /// image's view to slot 0 of that pipeline's one set layout.
    pub fn new(_context: &VulkanContext) -> (p: Self)
        ensures
            p.wf(),
    {
        FractalPass {
            image: ImageResource {
                width: IMAGE_WIDTH,
                height: IMAGE_HEIGHT,
                transfer_src: true,
                transfer_dst: false,
                storage: true,
            },
            transfer_buffer: BufferResource {
                len: image_byte_len(),
                transfer_dst: true,
                storage: false,
                host_visible: true,
                device_local: false,
            },
            compute_pipeline: PipelineResource {
                kind: PipelineKind::Generate,
                local_size_x: GENERATE_LOCAL_SIZE,
                local_size_y: GENERATE_LOCAL_SIZE,
                local_size_z: 1,
            },
            dset_layout_idx: 0,
            dset: DescriptorBinding {
                set_index: 0,
                binding: 0,
                target: BindingTarget::ImageView,
            },
        }
    }

    /// Append this pass's commands to the open command buffer, without
    /// submitting them.
    pub fn execute(&self, cmd_buffer: &mut Vec<GpuCommand>)
        ensures
            final(cmd_buffer)@ == old(cmd_buffer)@ + generate_commands(),
    {
        cmd_buffer.push(
            GpuCommand::BindComputePipeline { pipeline: PipelineKind::Generate },
        );
        cmd_buffer.push(GpuCommand::BindDescriptorSets { set_index: 0 });
        cmd_buffer.push(
            GpuCommand::Dispatch { x: GENERATE_GROUP_COUNT, y: GENERATE_GROUP_COUNT, z: 1 },
        );
        cmd_buffer.push(GpuCommand::CopyImageToBuffer);
        proof {
            assert(cmd_buffer@ =~= old(cmd_buffer)@ + generate_commands());
        }
    }
}

/// One run of the generating commands overwrites every pixel of the image
/// with the shader's value for that pixel's column and row, and copies the
/// whole image into the staging buffer — nothing of the image's prior
/// contents survives.
pub proof fn lemma_generate_run(s: DeviceState, gen: spec_fn(int, int) -> Rgba8)
    requires
        s.image.len() == pixel_count(),
    ensures
        ({
            let t = run(s, generate_commands(), gen);
            &&& t.image.len() == pixel_count()
            &&& forall|p: int|
                0 <= p < pixel_count() ==> t.image[p] == gen(
                    p % (IMAGE_WIDTH as int),
                    p / (IMAGE_WIDTH as int),
                )
            &&& t.transfer == image_bytes(t.image)
            &&& t.transfer.len() == image_byte_count()
            &&& t.data == s.data
        }),
{
    let c = generate_commands();
    let s1 = step(s, c[0], gen);
    let r1 = c.subrange(1, 4);
    assert(run(s, c, gen) == run(s1, r1, gen));
    let s2 = step(s1, r1[0], gen);
    let r2 = r1.subrange(1, 3);
    assert(run(s1, r1, gen) == run(s2, r2, gen));
    let s3 = step(s2, r2[0], gen);
    let r3 = r2.subrange(1, 2);
    assert(run(s2, r2, gen) == run(s3, r3, gen));
    let s4 = step(s3, r3[0], gen);
    let r4 = r3.subrange(1, 1);
    assert(run(s3, r3, gen) == run(s4, r4, gen));
    assert(run(s4, r4, gen) == s4);
    assert(r1[0] == c[1]);
    assert(r2[0] == c[2]);
    assert(r3[0] == c[3]);
    assert((GENERATE_GROUP_COUNT as int) * (GENERATE_LOCAL_SIZE as int) == IMAGE_WIDTH)
        by (nonlinear_arith)
        requires
            GENERATE_GROUP_COUNT == 128 && GENERATE_LOCAL_SIZE == 8 && IMAGE_WIDTH == 1024,
    ;
    assert((IMAGE_WIDTH as int) * (IMAGE_HEIGHT as int) == 1048576) by (nonlinear_arith)
        requires
            IMAGE_WIDTH == 1024 && IMAGE_HEIGHT == 1024,
    ;
    let t = run(s, c, gen);
    assert forall|p: int| 0 <= p < pixel_count() implies #[trigger] t.image[p] == gen(
        p % (IMAGE_WIDTH as int),
        p / (IMAGE_WIDTH as int),
    ) by {
        lemma_div_is_ordered(p, 1048575, IMAGE_WIDTH as int);
        assert(1048575int / 1024 == 1023);
        assert(generate_covered(
            GENERATE_GROUP_COUNT,
            GENERATE_GROUP_COUNT,
            p % (IMAGE_WIDTH as int),
            p / (IMAGE_WIDTH as int),
        ));
    }
}

/// Running the generating commands from two different starting states —
/// two fresh contexts, whatever their images, buffers and binding state
/// held — yields byte-identical staging buffers: the output is a function
/// of the shader alone.
pub proof fn lemma_generate_deterministic(
    s1: DeviceState,
    s2: DeviceState,
    gen: spec_fn(int, int) -> Rgba8,
)
    requires
        s1.image.len() == pixel_count(),
        s2.image.len() == pixel_count(),
    ensures
        run(s1, generate_commands(), gen).transfer == run(s2, generate_commands(), gen).transfer,
{
    lemma_generate_run(s1, gen);
    lemma_generate_run(s2, gen);
    let t1 = run(s1, generate_commands(), gen);
    let t2 = run(s2, generate_commands(), gen);
    assert(t1.image =~= t2.image);
    assert(t1.transfer =~= t2.transfer);
}

} // verus!
