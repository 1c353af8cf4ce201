use vstd::prelude::*;
use crate::command::GpuCommand;

verus! {

/// The capabilities of one queue family of a physical device, as the host
/// reads them from the device's queue family properties.
#[derive(Clone, Copy, PartialEq, Eq, Structural, Debug)]
pub struct QueueFamilyProperties {
    pub supports_graphics: bool,
    pub supports_compute: bool,
}

/// A queue family is suitable when it advertises both graphics and compute
/// capability: the context refuses to fall back to anything less.
pub open spec fn family_suitable(f: QueueFamilyProperties) -> bool {
    f.supports_graphics && f.supports_compute
}

/// The queue families of one physical device.
#[derive(Debug)]
pub struct PhysicalDeviceInfo {
    pub queue_families: Vec<QueueFamilyProperties>,
}

/// Why a context could not be constructed: the environment offers no device,
/// or the device offers no queue family with both graphics and compute.
#[derive(Clone, Copy, PartialEq, Eq, Structural, Debug)]
pub enum ContextError {
    NoPhysicalDevice,
    NoSuitableQueueFamily,
}

/// The index of the first suitable queue family, scanning from index zero.
pub fn pick_queue_family(families: &Vec<QueueFamilyProperties>) -> (r: Option<u32>)
    requires
        families@.len() <= u32::MAX,
    ensures
        match r {
            Some(i) => {
                &&& i < families@.len()
                &&& family_suitable(families@[i as int])
                &&& forall|j: int| 0 <= j < i ==> !family_suitable(families@[j])
            },
            None => forall|j: int| 0 <= j < families@.len() ==> !family_suitable(families@[j]),
        },
{
    let mut i: usize = 0;
    while i < families.len()
        invariant
            i <= families@.len(),
            families@.len() <= u32::MAX,
            forall|j: int| 0 <= j < i ==> !family_suitable(families@[j]),
        decreases families@.len() - i,
    {
        let f = families[i];
        if f.supports_graphics && f.supports_compute {
            return Some(i as u32);
        }
        i = i + 1;
    }
    None
}

/// The context that owns the device and the one compute-capable queue, and
/// through which all GPU work is submitted.
///
/// The invariant of a constructed context: its queue family index points at
/// the first queue family of its device that supports both graphics and
/// compute.
pub struct VulkanContext {
    /// Index of the selected queue family on the selected device.
    pub queue_family_index: u32,
    /// The queue families the device advertised at construction.
    pub families: Ghost<Seq<QueueFamilyProperties>>,
}

impl VulkanContext {
    /// The selected queue family exists, is the first suitable one, and
    /// supports both graphics and compute.
    pub open spec fn wf(self) -> bool {
        &&& self.queue_family_index < self.families@.len()
        &&& family_suitable(self.families@[self.queue_family_index as int])
        &&& forall|j: int| 0 <= j < self.queue_family_index ==> !family_suitable(self.families@[j])
    }

    /// Build a context from what the environment offers: take the first
    /// physical device, then the first of its queue families that supports
    /// both graphics and compute.
    ///
    /// Construction never yields a partial context: it returns a context
    /// satisfying the queue invariant, or exactly the error naming what the
    /// environment lacks.
    pub fn new(devices: &Vec<PhysicalDeviceInfo>) -> (r: Result<VulkanContext, ContextError>)
        requires
            devices@.len() > 0 ==> devices@[0].queue_families@.len() <= u32::MAX,
        ensures
            match r {
                Ok(ctx) => {
                    &&& devices@.len() > 0
                    &&& ctx.families@ == devices@[0].queue_families@
                    &&& ctx.wf()
                },
                Err(e) => match e {
                    ContextError::NoPhysicalDevice => devices@.len() == 0,
                    ContextError::NoSuitableQueueFamily => {
                        &&& devices@.len() > 0
                        &&& forall|j: int|
                            0 <= j < devices@[0].queue_families@.len()
                                ==> !family_suitable(devices@[0].queue_families@[j])
                    },
                },
            },
    {
        if devices.len() == 0 {
            return Err(ContextError::NoPhysicalDevice);
        }
        let device = &devices[0];
        match pick_queue_family(&device.queue_families) {
            Some(queue_family_index) => Ok(VulkanContext {
                queue_family_index,
                families: Ghost(device.queue_families@),
            }),
            None => Err(ContextError::NoSuitableQueueFamily),
        }
    }
}

/// One fenced, blocking submission as `render_once` assembles it: a primary
/// command buffer on the context's queue family, marked for a single use,
/// holding the commands one pass recorded.
pub struct Submission {
    /// Queue family the command buffer is allocated on and submitted to.
    pub queue_family_index: u32,
    /// The command buffer is tagged single-submission, never reused.
    pub one_time_submit: bool,
    /// The recorded commands, in recording order.
    pub commands: Vec<GpuCommand>,
}

impl VulkanContext {
    /// Assemble the one submission of a run: open a fresh single-use command
    /// buffer on the selected queue family, let the caller's recorded
    /// commands stand in it in order, and hand it over for the synchronous
    /// submit-then-wait step.
    ///
    /// The caller records by building `commands`; the device work and the
    /// fence wait are the environment's side of the protocol.
    pub fn render_once(&self, commands: Vec<GpuCommand>) -> (s: Submission)
        ensures
            s.queue_family_index == self.queue_family_index,
            s.one_time_submit,
            s.commands@ == commands@,
    {
        Submission { queue_family_index: self.queue_family_index, one_time_submit: true, commands }
    }
}

} // verus!
