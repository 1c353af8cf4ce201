use vstd::prelude::*;
use vstd::arithmetic::div_mod::lemma_mul_mod_noop_left;
use vstd::arithmetic::mul::lemma_mul_is_associative;
use vstd::arithmetic::power::pow;
use crate::color::Rgba8;
use crate::command::{GpuCommand, PipelineKind};
use crate::context::VulkanContext;
use crate::geometry::{ELEMENT_COUNT, MUTATE_FACTOR, MUTATE_GROUP_COUNT, MUTATE_LOCAL_SIZE};
use crate::machine::{mutate_covered, mutated_element, run, run_times, step, DeviceState};
use crate::resources::{
    BindingTarget, BufferResource, DescriptorBinding, PipelineResource,
};

verus! {

/// The command sequence the element-mutating pass records: bind its compute
/// pipeline, bind its descriptor set at set 0, and dispatch one workgroup
/// row covering every element once. There is no copy-out step: the storage
/// buffer itself is the readback surface.
pub open spec fn mutate_commands() -> Seq<GpuCommand> {
    seq![
        GpuCommand::BindComputePipeline { pipeline: PipelineKind::Mutate },
        GpuCommand::BindDescriptorSets { set_index: 0 },
        GpuCommand::Dispatch { x: MUTATE_GROUP_COUNT, y: 1, z: 1 },
    ]
}

/// The element-mutating pass: a storage buffer pre-filled with the
/// sequence 0, 1, 2, … and a compute pipeline whose shader multiplies each
/// element in place by the fixed factor.
pub struct TestPass {
    /// The storage buffer: device-preferred, host-writable for its initial
    /// fill and host-readable after the run.
    pub data_buffer: BufferResource,
    /// The deterministic initial contents the host uploads at creation:
    /// element `i` holds `i`.
    pub initial_data: Vec<u32>,
    /// The pipeline built from the multiplying shader.
    pub compute_pipeline: PipelineResource,
    /// Index of the one descriptor set layout of that pipeline.
    pub dset_layout_idx: u32,
    /// The descriptor set binding the storage buffer at set 0, binding 0.
    pub dset: DescriptorBinding,
}

impl TestPass {
    /// The pass owns a storage buffer of the fixed element count, a
    /// pipeline of the mutating kind with the shader's declared local size,
    /// a descriptor set matching the shader's layout, and an initial fill
    /// where element `i` holds `i`.
    pub open spec fn wf(self) -> bool {
        &&& self.data_buffer.len == ELEMENT_COUNT
        &&& self.data_buffer.storage
        &&& self.data_buffer.host_visible
        &&& self.data_buffer.device_local
        &&& self.initial_data@.len() == ELEMENT_COUNT
        &&& forall|i: int| 0 <= i < self.initial_data@.len() ==> self.initial_data@[i] == i
        &&& self.compute_pipeline.kind == PipelineKind::Mutate
        &&& self.compute_pipeline.local_size_x == MUTATE_LOCAL_SIZE
        &&& self.compute_pipeline.local_size_y == 1
        &&& self.compute_pipeline.local_size_z == 1
        &&& self.dset_layout_idx == 0
        &&& self.dset.matches_shader_layout()
        &&& self.dset.target == BindingTarget::StorageBuffer
    }

    /// Allocate the pass's resources against the context: the pre-filled
    /// storage buffer, the pipeline from the multiplying shader, and the
    /// descriptor set binding the buffer to slot 0 of that pipeline's one
    /// set layout.
    pub fn new(_context: &VulkanContext) -> (p: Self)
        ensures
            p.wf(),
    {
        let mut initial_data: Vec<u32> = Vec::new();
        let mut i: u32 = 0;
        while i < ELEMENT_COUNT
            invariant
                i <= ELEMENT_COUNT,
                initial_data@.len() == i,
                forall|j: int| 0 <= j < i ==> initial_data@[j] == j,
            decreases ELEMENT_COUNT - i,
        {
            initial_data.push(i);
            i = i + 1;
        }
        TestPass {
            data_buffer: BufferResource {
                len: ELEMENT_COUNT as usize,
                transfer_dst: false,
                storage: true,
                host_visible: true,
                device_local: true,
            },
            initial_data,
            compute_pipeline: PipelineResource {
                kind: PipelineKind::Mutate,
                local_size_x: MUTATE_LOCAL_SIZE,
                local_size_y: 1,
                local_size_z: 1,
            },
            dset_layout_idx: 0,
            dset: DescriptorBinding {
                set_index: 0,
                binding: 0,
                target: BindingTarget::StorageBuffer,
            },
        }
    }

    /// Append this pass's commands to the open command buffer, without
    /// submitting them.
    pub fn execute(&self, cmd_buffer: &mut Vec<GpuCommand>)
        ensures
            final(cmd_buffer)@ == old(cmd_buffer)@ + mutate_commands(),
    {
        cmd_buffer.push(
            GpuCommand::BindComputePipeline { pipeline: PipelineKind::Mutate },
        );
        cmd_buffer.push(GpuCommand::BindDescriptorSets { set_index: 0 });
        cmd_buffer.push(GpuCommand::Dispatch { x: MUTATE_GROUP_COUNT, y: 1, z: 1 });
        proof {
            assert(cmd_buffer@ =~= old(cmd_buffer)@ + mutate_commands());
        }
    }
}

/// One run of the mutating commands multiplies every element of the storage
/// buffer by the fixed factor, truncated to 32 bits, and touches nothing
/// else — whatever the buffer held before.
pub proof fn lemma_mutate_run(s: DeviceState, gen: spec_fn(int, int) -> Rgba8)
    requires
        s.data.len() == ELEMENT_COUNT,
    ensures
        ({
            let t = run(s, mutate_commands(), gen);
            &&& t.data.len() == s.data.len()
            &&& forall|i: int| 0 <= i < s.data.len() ==> t.data[i] == mutated_element(s.data[i])
            &&& t.image == s.image
            &&& t.transfer == s.transfer
        }),
{
    let c = mutate_commands();
    let s1 = step(s, c[0], gen);
    let r1 = c.subrange(1, 3);
    assert(run(s, c, gen) == run(s1, r1, gen));
    let s2 = step(s1, r1[0], gen);
    let r2 = r1.subrange(1, 2);
    assert(run(s1, r1, gen) == run(s2, r2, gen));
    let s3 = step(s2, r2[0], gen);
    let r3 = r2.subrange(1, 1);
    assert(run(s2, r2, gen) == run(s3, r3, gen));
    assert(run(s3, r3, gen) == s3);
    assert(r1[0] == c[1]);
    assert(r2[0] == c[2]);
    assert((MUTATE_GROUP_COUNT as int) * (MUTATE_LOCAL_SIZE as int) == ELEMENT_COUNT)
        by (nonlinear_arith)
        requires
            MUTATE_GROUP_COUNT == 1024 && MUTATE_LOCAL_SIZE == 64 && ELEMENT_COUNT == 65536,
    ;
    assert(forall|i: int| 0 <= i < s.data.len() ==> mutate_covered(MUTATE_GROUP_COUNT, i));
}

/// The mutating pass applied to its deterministic initial fill: after one
/// run, element `i` of the readback holds `i` times the fixed factor,
/// truncated to 32 bits.
pub proof fn lemma_mutate_initial_sequence(s: DeviceState, gen: spec_fn(int, int) -> Rgba8)
    requires
        s.data.len() == ELEMENT_COUNT,
        forall|i: int| 0 <= i < s.data.len() ==> s.data[i] == i,
    ensures
        forall|i: int|
            0 <= i < ELEMENT_COUNT ==> run(s, mutate_commands(), gen).data[i] == (i * (
            MUTATE_FACTOR as int)) % 0x1_0000_0000,
{
    lemma_mutate_run(s, gen);
}

/// Submitting the mutating commands `k` times in a row leaves element `i`
/// holding its initial value times the `k`-th power of the fixed factor,
/// truncated to 32 bits: repeated application composes multiplicatively.
pub proof fn lemma_mutate_run_times(s: DeviceState, k: nat, gen: spec_fn(int, int) -> Rgba8)
    requires
        s.data.len() == ELEMENT_COUNT,
    ensures
        ({
            let t = run_times(s, mutate_commands(), k, gen);
            &&& t.data.len() == s.data.len()
            &&& forall|i: int|
                0 <= i < s.data.len() ==> t.data[i] == ((s.data[i] as int) * pow(
                    MUTATE_FACTOR as int,
                    k,
                )) % 0x1_0000_0000
            &&& t.image == s.image
            &&& t.transfer == s.transfer
        }),
    decreases k,
{
    reveal(pow);
    let c = mutate_commands();
    let f = MUTATE_FACTOR as int;
    let m = 0x1_0000_0000int;
    if k == 0 {
        assert(pow(f, 0) == 1);
        assert forall|i: int| 0 <= i < s.data.len() implies s.data[i] == ((s.data[i] as int) * pow(
            f,
            k,
        )) % m by {
            assert((s.data[i] as int) * 1 == s.data[i] as int);
            assert(0 <= (s.data[i] as int) < m);
        }
    } else {
        lemma_mutate_run_times(s, (k - 1) as nat, gen);
        let t0 = run_times(s, c, (k - 1) as nat, gen);
        lemma_mutate_run(t0, gen);
        let t = run_times(s, c, k, gen);
        assert(t == run(t0, c, gen));
        assert(pow(f, k) == f * pow(f, (k - 1) as nat));
        assert forall|i: int| 0 <= i < s.data.len() implies t.data[i] == ((s.data[i] as int) * pow(
            f,
            k,
        )) % m by {
            let a = s.data[i] as int;
            let p = pow(f, (k - 1) as nat);
            assert(t0.data[i] == (a * p) % m);
            assert(t.data[i] == mutated_element(t0.data[i]));
            assert(0 <= (a * p) % m < m);
            assert(t0.data[i] as int == (a * p) % m);
            lemma_mul_mod_noop_left(a * p, f, m);
            assert(t.data[i] == (a * p * f) % m);
            lemma_mul_is_associative(a, p, f);
            assert(a * p * f == a * (p * f));
            assert(p * f == f * p);
            assert(t.data[i] == (a * pow(f, k)) % m);
        }
    }
}

} // verus!

