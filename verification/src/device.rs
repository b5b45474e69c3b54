//! The Mantle context: creation of a device on a GPU, its memory heaps, and
//! the submission of command buffers to its queue.
use vstd::prelude::*;

use crate::command_buffer::CommandBuffer;
use crate::ffi::{
    GR_CMD_BUFFER, GR_DEVICE, GR_DEVICE_CREATE_FLAGS, GR_DEVICE_CREATE_INFO, GR_DEVICE_QUEUE_CREATE_INFO, GR_FENCE, GR_FENCE_CREATE_INFO, GR_INFO_TYPE, GR_MEMORY_HEAP_PROPERTIES, GR_MEMORY_REF, GR_PHYSICAL_GPU, GR_QUEUE, GR_QUEUE_TYPE, GR_RESULT, GR_UINT, GR_VALIDATION_LEVEL,
};
use crate::instance::Gpu;

verus! {

/// Information about a memory heap.
#[derive(Debug, Clone, Copy, PartialEq, Eq, Structural)]
pub struct HeapInfos {
    pub id: GR_UINT,
    pub size: usize,
    pub page_size: usize,
}

/// What the library records of the heap with the given id, from the
/// properties that the driver reported for it.
pub open spec fn heap_from_properties(id: GR_UINT, props: GR_MEMORY_HEAP_PROPERTIES) -> HeapInfos {
    HeapInfos { id, size: props.heapSize as usize, page_size: props.pageSize as usize }
}

/// The heaps that a creation run records from the properties the driver
/// reported, in order: heap `i` has the id `i` and the sizes of report `i`.
pub open spec fn heaps_from_reports(reports: Seq<GR_MEMORY_HEAP_PROPERTIES>) -> Seq<HeapInfos> {
    Seq::new(reports.len(), |i: int| heap_from_properties(i as GR_UINT, reports[i]))
}

/// Over a whole creation run, heap `i` is made of the id `i`, the heap size
/// and the page size of the `i`-th report, and nothing else; a further
/// report adds its heap at the end and leaves the others as they were.
pub proof fn lemma_heaps_from_reports(reports: Seq<GR_MEMORY_HEAP_PROPERTIES>, props: GR_MEMORY_HEAP_PROPERTIES)
    requires
        reports.len() < 0x1_0000_0000,
    ensures
        heaps_from_reports(reports).len() == reports.len(),
        forall|i: int|
            0 <= i < reports.len() ==> #[trigger] heaps_from_reports(reports)[i] == (HeapInfos {
                id: i as GR_UINT,
                size: reports[i].heapSize as usize,
                page_size: reports[i].pageSize as usize,
            }),
        heaps_numbered(heaps_from_reports(reports)),
        heaps_from_reports(reports.push(props)) == heaps_from_reports(reports).push(
            heap_from_properties(reports.len() as GR_UINT, props),
        ),
{
    assert(heaps_from_reports(reports.push(props)) =~= heaps_from_reports(reports).push(
        heap_from_properties(reports.len() as GR_UINT, props),
    ));
}

/// Heap lists in which each heap's id is its position.
pub open spec fn heaps_numbered(heaps: Seq<HeapInfos>) -> bool {
    forall|i: int| 0 <= i < heaps.len() ==> #[trigger] heaps[i].id == i
}

/// The name of the window system extension that every device enables:
/// "GR_WSI_WINDOWS" in ASCII.
pub open spec fn wsi_extension_name() -> Seq<u8> {
    seq![71u8, 82, 95, 87, 83, 73, 95, 87, 73, 78, 68, 79, 87, 83]
}

fn wsi_extension() -> (name: Vec<u8>)
    ensures
        name@ == wsi_extension_name(),
{
    let name: Vec<u8> = vec![71u8, 82, 95, 87, 83, 73, 95, 87, 73, 78, 68, 79, 87, 83];
    assert(name@ =~= wsi_extension_name());
    name
}

/// The description of every device that the library creates: one universal
/// queue, the window system extension, the highest validation level, and
/// validation switched on.
pub open spec fn device_create_info_spec(info: GR_DEVICE_CREATE_INFO) -> bool {
    &&& info.queueRecordCount == 1
    &&& info.pRequestedQueues@ == seq![
        GR_DEVICE_QUEUE_CREATE_INFO { queueType: GR_QUEUE_TYPE::GR_QUEUE_UNIVERSAL, queueCount: 1 },
    ]
    &&& info.extensionCount == 1
    &&& info.ppEnabledExtensionNames@.len() == 1
    &&& info.ppEnabledExtensionNames@[0]@ == wsi_extension_name()
    &&& info.maxValidationLevel == GR_VALIDATION_LEVEL::GR_VALIDATION_LEVEL_4
    &&& info.flags == GR_DEVICE_CREATE_FLAGS { validation: true }
}

/// Represents a Mantle context.
pub struct Device {
    device: GR_DEVICE,
    queue: GR_QUEUE,
    heaps: Vec<HeapInfos>,
}

impl Device {
    #[verifier::type_invariant]
    spec fn wf(&self) -> bool {
        heaps_numbered(self.heaps@)
    }

    /// The driver's handle of the device.
    pub closed spec fn handle(&self) -> GR_DEVICE {
        self.device
    }

    /// The driver's handle of the device's universal queue.
    pub closed spec fn queue(&self) -> GR_QUEUE {
        self.queue
    }

    /// The memory heaps of the device.
    pub closed spec fn heaps(&self) -> Seq<HeapInfos> {
        self.heaps@
    }

    /// Builds a new Mantle context for the given GPU. The first call is the
    /// query of the support of the window system extension.
    pub fn new(gpu: &Gpu) -> (q: ExtensionQuery)
        ensures
            q.gpu() == gpu@,
    {
        ExtensionQuery { gpu: gpu.get_id() }
    }

    pub fn get_id(&self) -> (id: GR_DEVICE)
        ensures
            id == self.handle(),
    {
        self.device
    }

    pub fn get_queue(&self) -> (q: GR_QUEUE)
        ensures
            q == self.queue(),
    {
        self.queue
    }

    /// The memory heaps, in the order of their ids: the heap at position `i`
    /// has the id `i`.
    pub fn get_heaps(&self) -> (heaps: &[HeapInfos])
        ensures
            heaps@ == self.heaps(),
            heaps_numbered(heaps@),
    {
        proof {
            use_type_invariant(self);
        }
        self.heaps.as_slice()
    }

    /// Starts the destruction of the device: the one call destroys it. The
    /// device cannot be given up while an object borrows it.
    pub fn release(self) -> (d: DeviceDestruction)
        ensures
            d.device() == self.handle(),
    {
        DeviceDestruction { device: self.device }
    }

    /// Submits a command buffer to the device's queue. The first call
    /// creates the fence that the submission signals.
    pub fn submit<'a>(&'a self, commands: &CommandBuffer) -> (s: FenceCreation<'a>)
        ensures
            s.device() == self.handle(),
            s.queue() == self.queue(),
            s.command_buffer() == commands.handle(),
            s.memory_refs() == commands.memory_refs(),
    {
        FenceCreation {
            device: self,
            cmd: commands.get_id(),
            memory_refs: commands.build_memory_refs(),
        }
    }
}

/// The destruction of a device in progress.
pub struct DeviceDestruction {
    device: GR_DEVICE,
}

impl DeviceDestruction {
    pub closed spec fn device(&self) -> GR_DEVICE {
        self.device
    }

    pub fn get_id(&self) -> (d: GR_DEVICE)
        ensures
            d == self.device(),
    {
        self.device
    }

    /// Finishes after the success of the destruction of the device.
    pub fn destroyed(self, result: GR_RESULT)
        requires
            result == GR_RESULT::GR_SUCCESS,
    {
    }
}

/// Device creation, first step: the query of the support of the window
/// system extension by the GPU.
pub struct ExtensionQuery {
    gpu: GR_PHYSICAL_GPU,
}

impl ExtensionQuery {
    pub closed spec fn gpu(&self) -> GR_PHYSICAL_GPU {
        self.gpu
    }

    pub fn get_gpu(&self) -> (g: GR_PHYSICAL_GPU)
        ensures
            g == self.gpu(),
    {
        self.gpu
    }

    /// The name of the extension to ask about, without its terminator.
    pub fn extension_name(&self) -> (name: Vec<u8>)
        ensures
            name@ == wsi_extension_name(),
    {
        wsi_extension()
    }

    /// Goes on after the success of the query; the next call creates the
    /// device.
    pub fn resume(self, result: GR_RESULT) -> (r: DeviceCreation)
        requires
            result == GR_RESULT::GR_SUCCESS,
        ensures
            r.gpu() == self.gpu(),
    {
        DeviceCreation { gpu: self.gpu }
    }
}

/// Device creation, second step: the creation of the device.
pub struct DeviceCreation {
    gpu: GR_PHYSICAL_GPU,
}

impl DeviceCreation {
    pub closed spec fn gpu(&self) -> GR_PHYSICAL_GPU {
        self.gpu
    }

    pub fn get_gpu(&self) -> (g: GR_PHYSICAL_GPU)
        ensures
            g == self.gpu(),
    {
        self.gpu
    }

    /// The description of the device to create.
    pub fn create_info(&self) -> (info: GR_DEVICE_CREATE_INFO)
        ensures
            device_create_info_spec(info),
    {
        let mut queues: Vec<GR_DEVICE_QUEUE_CREATE_INFO> = Vec::new();
        queues.push(GR_DEVICE_QUEUE_CREATE_INFO { queueType: GR_QUEUE_TYPE::GR_QUEUE_UNIVERSAL, queueCount: 1 });
        let mut names: Vec<Vec<u8>> = Vec::new();
        names.push(wsi_extension());
        let info = GR_DEVICE_CREATE_INFO {
            queueRecordCount: 1,
            pRequestedQueues: queues,
            extensionCount: 1,
            ppEnabledExtensionNames: names,
            maxValidationLevel: GR_VALIDATION_LEVEL::GR_VALIDATION_LEVEL_4,
            flags: GR_DEVICE_CREATE_FLAGS { validation: true },
        };
        assert(info.pRequestedQueues@ =~= seq![
            GR_DEVICE_QUEUE_CREATE_INFO { queueType: GR_QUEUE_TYPE::GR_QUEUE_UNIVERSAL, queueCount: 1 },
        ]);
        info
    }

    /// Goes on after the success of the creation and the device it wrote; the
    /// next call asks for the device's universal queue.
    pub fn resume(self, result: GR_RESULT, device: GR_DEVICE) -> (r: QueueQuery)
        requires
            result == GR_RESULT::GR_SUCCESS,
        ensures
            r.device() == device,
    {
        QueueQuery { device }
    }
}

/// Device creation, third step: the query of the first universal queue.
pub struct QueueQuery {
    device: GR_DEVICE,
}

impl QueueQuery {
    pub closed spec fn device(&self) -> GR_DEVICE {
        self.device
    }

    pub fn get_device(&self) -> (d: GR_DEVICE)
        ensures
            d == self.device(),
    {
        self.device
    }

    /// The queue to ask for: the first queue of the universal type.
    pub fn queue_request(&self) -> (q: (GR_QUEUE_TYPE, GR_UINT))
        ensures
            q == (GR_QUEUE_TYPE::GR_QUEUE_UNIVERSAL, 0u32),
    {
        (GR_QUEUE_TYPE::GR_QUEUE_UNIVERSAL, 0)
    }

    /// Goes on after the success of the query and the queue it wrote; the next
    /// call asks for the number of memory heaps.
    pub fn resume(self, result: GR_RESULT, queue: GR_QUEUE) -> (r: HeapCountQuery)
        requires
            result == GR_RESULT::GR_SUCCESS,
        ensures
            r.device() == self.device() && r.queue() == queue,
    {
        HeapCountQuery { device: self.device, queue }
    }
}

/// Device creation, fourth step: the query of the number of memory heaps.
pub struct HeapCountQuery {
    device: GR_DEVICE,
    queue: GR_QUEUE,
}

impl HeapCountQuery {
    pub closed spec fn device(&self) -> GR_DEVICE {
        self.device
    }

    pub closed spec fn queue(&self) -> GR_QUEUE {
        self.queue
    }

    pub fn get_device(&self) -> (d: GR_DEVICE)
        ensures
            d == self.device(),
    {
        self.device
    }

    /// Goes on after the success of the query and the count it wrote; then
    /// each heap is asked for in turn.
    pub fn resume(self, result: GR_RESULT, count: GR_UINT) -> (r: HeapQuery)
        requires
            result == GR_RESULT::GR_SUCCESS,
        ensures
            r.device() == self.device() && r.queue() == self.queue()
                && r.count() == count && r.collected() == Seq::<HeapInfos>::empty()
                && r.reported() == Seq::<GR_MEMORY_HEAP_PROPERTIES>::empty(),
    {
        let heaps: Vec<HeapInfos> = Vec::new();
        assert(heaps@ =~= heaps_from_reports(Seq::<GR_MEMORY_HEAP_PROPERTIES>::empty()));
        HeapQuery { device: self.device, queue: self.queue, count, heaps, reports: Ghost(Seq::empty()) }
    }
}

/// Device creation, last step: the query of each heap's properties, in the
/// order of their ids.
pub struct HeapQuery {
    device: GR_DEVICE,
    queue: GR_QUEUE,
    count: GR_UINT,
    heaps: Vec<HeapInfos>,
    reports: Ghost<Seq<GR_MEMORY_HEAP_PROPERTIES>>,
}

impl HeapQuery {
    #[verifier::type_invariant]
    spec fn wf(&self) -> bool {
        &&& self.heaps.len() <= self.count
        &&& heaps_numbered(self.heaps@)
        &&& self.heaps@ == heaps_from_reports(self.reports@)
    }

    pub closed spec fn device(&self) -> GR_DEVICE {
        self.device
    }

    pub closed spec fn queue(&self) -> GR_QUEUE {
        self.queue
    }

    /// The number of heaps that the driver reported.
    pub closed spec fn count(&self) -> GR_UINT {
        self.count
    }

    /// The properties that the driver reported so far, in order.
    pub closed spec fn reported(&self) -> Seq<GR_MEMORY_HEAP_PROPERTIES> {
        self.reports@
    }

    /// The heaps whose properties have been read so far.
    pub closed spec fn collected(&self) -> Seq<HeapInfos> {
        self.heaps@
    }

    pub fn get_device(&self) -> (d: GR_DEVICE)
        ensures
            d == self.device(),
    {
        self.device
    }

    /// The id of the next heap to ask about, `None` once all have been read.
    pub fn pending(&self) -> (id: Option<GR_UINT>)
        ensures
            self.collected().len() <= self.count(),
            heaps_numbered(self.collected()),
            self.collected() == heaps_from_reports(self.reported()),
            self.collected().len() < self.count() ==> id == Some(self.collected().len() as GR_UINT),
            self.collected().len() == self.count() ==> id is None,
    {
        proof {
            use_type_invariant(self);
        }
        if (self.heaps.len() as u64) < (self.count as u64) {
            Some(self.heaps.len() as GR_UINT)
        } else {
            None
        }
    }

    /// The kind of information to ask of each heap.
    pub fn info_type(&self) -> (t: GR_INFO_TYPE)
        ensures
            t == GR_INFO_TYPE::GR_INFO_TYPE_MEMORY_HEAP_PROPERTIES,
    {
        GR_INFO_TYPE::GR_INFO_TYPE_MEMORY_HEAP_PROPERTIES
    }

    /// Goes on after the success of the query of the pending heap and the
    /// properties it wrote.
    pub fn resume(self, result: GR_RESULT, props: GR_MEMORY_HEAP_PROPERTIES) -> (r: HeapQuery)
        requires
            result == GR_RESULT::GR_SUCCESS,
            self.collected().len() < self.count(),
        ensures
            r.device() == self.device() && r.queue() == self.queue()
                && r.count() == self.count()
                && r.collected() == self.collected().push(
                    heap_from_properties(self.collected().len() as GR_UINT, props),
                )
                && r.reported() == self.reported().push(props),
    {
        proof {
            use_type_invariant(&self);
        }
        let id = self.heaps.len() as GR_UINT;
        let HeapQuery { device, queue, count, heaps, reports } = self;
        let mut heaps = heaps;
        heaps.push(HeapInfos { id, size: props.heapSize as usize, page_size: props.pageSize as usize });
        let ghost new_reports = reports@.push(props);
        proof {
            lemma_heaps_from_reports(reports@, props);
            assert(heaps@ =~= heaps_from_reports(new_reports));
        }
        HeapQuery { device, queue, count, heaps, reports: Ghost(new_reports) }
    }

    /// Builds the device once every heap has been read.
    pub fn finish(self) -> (d: Device)
        requires
            self.collected().len() == self.count(),
        ensures
            d.handle() == self.device(),
            d.queue() == self.queue(),
            d.heaps() == self.collected(),
            d.heaps() == heaps_from_reports(self.reported()),
            d.heaps().len() == self.count(),
    {
        proof {
            use_type_invariant(&self);
        }
        let HeapQuery { device, queue, count: _, heaps, reports: _ } = self;
        Device { device, queue, heaps }
    }
}

/// Submission, first step: the creation of the fence.
pub struct FenceCreation<'a> {
    device: &'a Device,
    cmd: GR_CMD_BUFFER,
    memory_refs: Vec<GR_MEMORY_REF>,
}

impl<'a> FenceCreation<'a> {
    pub closed spec fn device(&self) -> GR_DEVICE {
        self.device.handle()
    }

    pub closed spec fn queue(&self) -> GR_QUEUE {
        self.device.queue()
    }

    pub closed spec fn command_buffer(&self) -> GR_CMD_BUFFER {
        self.cmd
    }

    pub closed spec fn memory_refs(&self) -> Seq<GR_MEMORY_REF> {
        self.memory_refs@
    }

    pub fn get_device(&self) -> (d: GR_DEVICE)
        ensures
            d == self.device(),
    {
        self.device.get_id()
    }

    /// The description of the fence: no flags.
    pub fn create_info(&self) -> (info: GR_FENCE_CREATE_INFO)
        ensures
            info == (GR_FENCE_CREATE_INFO { flags: 0 }),
    {
        GR_FENCE_CREATE_INFO { flags: 0 }
    }

    /// Goes on after the success of the creation and the fence it wrote; the
    /// next call submits the command buffer.
    pub fn resume(self, result: GR_RESULT, fence: GR_FENCE) -> (r: QueueSubmission<'a>)
        requires
            result == GR_RESULT::GR_SUCCESS,
        ensures
            r.device() == self.device() && r.queue() == self.queue()
                && r.command_buffers() == seq![self.command_buffer()]
                && r.memory_refs() == self.memory_refs() && r.fence() == fence,
    {
        let mut commands: Vec<GR_CMD_BUFFER> = Vec::new();
        commands.push(self.cmd);
        assert(commands@ =~= seq![self.cmd]);
        QueueSubmission {
            device: self.device,
            commands,
            memory_refs: self.memory_refs,
            fence,
        }
    }
}

/// Submission, last step: the submission of the command buffer with the
/// memory it references.
pub struct QueueSubmission<'a> {
    device: &'a Device,
    commands: Vec<GR_CMD_BUFFER>,
    memory_refs: Vec<GR_MEMORY_REF>,
    fence: GR_FENCE,
}

impl<'a> QueueSubmission<'a> {
    pub closed spec fn device(&self) -> GR_DEVICE {
        self.device.handle()
    }

    pub closed spec fn queue(&self) -> GR_QUEUE {
        self.device.queue()
    }

    pub closed spec fn command_buffers(&self) -> Seq<GR_CMD_BUFFER> {
        self.commands@
    }

    pub closed spec fn memory_refs(&self) -> Seq<GR_MEMORY_REF> {
        self.memory_refs@
    }

    pub closed spec fn fence(&self) -> GR_FENCE {
        self.fence
    }

    pub fn get_queue(&self) -> (q: GR_QUEUE)
        ensures
            q == self.queue(),
    {
        self.device.get_queue()
    }

    pub fn get_command_buffers(&self) -> (c: &Vec<GR_CMD_BUFFER>)
        ensures
            c@ == self.command_buffers(),
    {
        &self.commands
    }

    pub fn get_memory_refs(&self) -> (m: &Vec<GR_MEMORY_REF>)
        ensures
            m@ == self.memory_refs(),
    {
        &self.memory_refs
    }

    pub fn get_fence(&self) -> (f: GR_FENCE)
        ensures
            f == self.fence(),
    {
        self.fence
    }

    /// Finishes after the success of the submission: the fence, which is to
    /// be waited for before it is destroyed.
    pub fn resume(self, result: GR_RESULT) -> (r: Fence<'a>)
        requires
            result == GR_RESULT::GR_SUCCESS,
        ensures
            r.device() == self.device() && r.fence() == self.fence() && r.waits(),
    {
        Fence { device: self.device, fence: self.fence, wait: true }
    }
}

/// A fence signaled by a submission.
pub struct Fence<'a> {
    device: &'a Device,
    fence: GR_FENCE,
    wait: bool,
}

impl<'a> Fence<'a> {
    pub closed spec fn device(&self) -> GR_DEVICE {
        self.device.handle()
    }

    pub closed spec fn fence(&self) -> GR_FENCE {
        self.fence
    }

    /// Whether the fence is waited for before it is destroyed.
    pub closed spec fn waits(&self) -> bool {
        self.wait
    }

    pub fn get_fence(&self) -> (f: GR_FENCE)
        ensures
            f == self.fence(),
    {
        self.fence
    }

    /// Starts the release of the fence: a wait for it where the fence asks
    /// for one, then its destruction.
    pub fn release(self) -> (r: FenceRelease<'a>)
        ensures
            r.device() == self.device(),
            r.fence() == self.fence(),
            r.needs_wait() == self.waits(),
    {
        FenceRelease { device: self.device, fence: self.fence, waiting: self.wait }
    }
}

/// The release of a fence in progress.
pub struct FenceRelease<'a> {
    device: &'a Device,
    fence: GR_FENCE,
    waiting: bool,
}

impl<'a> FenceRelease<'a> {
    pub closed spec fn device(&self) -> GR_DEVICE {
        self.device.handle()
    }

    pub closed spec fn fence(&self) -> GR_FENCE {
        self.fence
    }

    /// Whether the wait for the fence is the next call.
    pub closed spec fn needs_wait(&self) -> bool {
        self.waiting
    }

    pub fn is_waiting(&self) -> (b: bool)
        ensures
            b == self.needs_wait(),
    {
        self.waiting
    }

    /// The wait to make: on the fence's device, for this one fence, waiting
    /// for all the fences given.
    pub fn wait_request(&self) -> (w: (GR_DEVICE, Vec<GR_FENCE>, bool))
        ensures
            w.0 == self.device(),
            w.1@ == seq![self.fence()],
            w.2,
    {
        let mut fences: Vec<GR_FENCE> = Vec::new();
        fences.push(self.fence);
        assert(fences@ =~= seq![self.fence]);
        (self.device.get_id(), fences, true)
    }

    /// The object to destroy: the fence.
    pub fn get_fence(&self) -> (f: GR_FENCE)
        ensures
            f == self.fence(),
    {
        self.fence
    }

    /// Goes on after the success of the wait; the next call destroys the fence.
    pub fn waited(self, result: GR_RESULT) -> (r: FenceRelease<'a>)
        requires
            self.needs_wait(),
            result == GR_RESULT::GR_SUCCESS,
        ensures
            r.device() == self.device() && r.fence() == self.fence() && !r.needs_wait(),
    {
        FenceRelease { device: self.device, fence: self.fence, waiting: false }
    }

    /// Finishes after the success of the destruction of the fence.
    pub fn destroyed(self, result: GR_RESULT)
        requires
            !self.needs_wait(),
            result == GR_RESULT::GR_SUCCESS,
    {
    }
}

} // verus!
