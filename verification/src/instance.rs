//! Initialization of the driver and the list of the GPUs that it finds.
use vstd::prelude::*;

use crate::ffi::{GR_ALLOC_CALLBACKS, GR_APPLICATION_INFO, GR_API_VERSION, GR_MAX_PHYSICAL_GPUS, GR_PHYSICAL_GPU, GR_RESULT, GR_UINT};

verus! {

/// A physical GPU that the driver reported.
#[derive(Debug, Clone, Copy)]
pub struct Gpu {
    gpu: GR_PHYSICAL_GPU,
}

impl View for Gpu {
    type V = GR_PHYSICAL_GPU;

    closed spec fn view(&self) -> GR_PHYSICAL_GPU {
        self.gpu
    }
}

impl Gpu {
    /// The driver's handle of this GPU.
    pub fn get_id(&self) -> (id: GR_PHYSICAL_GPU)
        ensures
            id == self@,
    {
        self.gpu
    }
}

/// The description of the application given to the driver at
/// initialization: no names, version zero, and the interface version that
/// this library is written for.
pub open spec fn application_info_spec(info: GR_APPLICATION_INFO) -> bool {
    &&& info.pAppName is None
    &&& info.appVersion == 0
    &&& info.pEngineName is None
    &&& info.engineVersion == 0
    &&& info.apiVersion == GR_API_VERSION
}

/// The GPUs that an enumeration reported: the first `count` entries of the
/// array that the driver filled, and never more than the array holds.
pub open spec fn enumerated_gpus(gpus: Seq<GR_PHYSICAL_GPU>, count: GR_UINT) -> Seq<GR_PHYSICAL_GPU> {
    if count as int <= gpus.len() {
        gpus.take(count as int)
    } else {
        gpus
    }
}

/// The GPUs listed are exactly the entries that the driver filled: as many
/// as the count it wrote, never more than the array holds, and each one the
/// entry of the array at the same position.
pub proof fn law_enumerated_gpus(gpus: Seq<GR_PHYSICAL_GPU>, count: GR_UINT)
    ensures
        enumerated_gpus(gpus, count).len() <= count,
        enumerated_gpus(gpus, count).len() <= gpus.len(),
        enumerated_gpus(gpus, count).len() == (if count as int <= gpus.len() { count as int } else { gpus.len() as int }),
        forall|i: int| 0 <= i < enumerated_gpus(gpus, count).len() ==> #[trigger] enumerated_gpus(gpus, count)[i] == gpus[i],
        count == 0 ==> enumerated_gpus(gpus, count).len() == 0,
{
}

/// Initialization in progress: the debug callback is registered, the
/// enumeration of the GPUs is the next call.
pub struct GpuEnumeration {
    registered: bool,
}

/// Starts the initialization of the driver, given the result of the
/// registration of the debug message callback, which is its first call.
/// On success the next call is the enumeration of the GPUs.
pub fn get_gpus(registration: GR_RESULT) -> (r: GpuEnumeration)
    requires
        registration == GR_RESULT::GR_SUCCESS,
{
    GpuEnumeration { registered: true }
}

impl GpuEnumeration {
    /// The application description to pass to the enumeration.
    pub fn application_info(&self) -> (info: GR_APPLICATION_INFO)
        ensures
            application_info_spec(info),
    {
        GR_APPLICATION_INFO {
            pAppName: None,
            appVersion: 0,
            pEngineName: None,
            engineVersion: 0,
            apiVersion: GR_API_VERSION,
        }
    }

    /// The allocation callbacks to pass to the enumeration: none, so that the
    /// driver allocates its memory itself.
    pub fn allocation_callbacks(&self) -> (cb: Option<GR_ALLOC_CALLBACKS>)
        ensures
            cb is None,
    {
        None
    }

    /// Finishes the initialization with what the enumeration returned: its
    /// result, the array of GPUs it filled and the count it wrote.
    pub fn enumerated(
        self,
        result: GR_RESULT,
        gpus: [GR_PHYSICAL_GPU; GR_MAX_PHYSICAL_GPUS],
        count: GR_UINT,
    ) -> (r: GpusIterator)
        requires
            result == GR_RESULT::GR_SUCCESS,
        ensures
            r@ == enumerated_gpus(gpus@, count),
            r@.len() == (if count < 4 { count as int } else { 4 }),
            r@.len() <= count,
            forall|i: int| 0 <= i < r@.len() ==> #[trigger] r@[i] == gpus@[i],
    {
        GpusIterator::from_enumeration(gpus, count)
    }
}

/// The GPUs of an enumeration that are still to be handed out.
pub struct GpusIterator {
    ids: Vec<GR_PHYSICAL_GPU>,
    position: usize,
}

impl View for GpusIterator {
    type V = Seq<GR_PHYSICAL_GPU>;

    closed spec fn view(&self) -> Seq<GR_PHYSICAL_GPU> {
        self.ids@.skip(self.position as int)
    }
}

impl GpusIterator {
    /// The GPUs of an enumeration that succeeded, from the array of GPUs it
    /// filled and the count it wrote (as kept by a program that enumerates
    /// once and lists the GPUs again later).
    pub fn from_enumeration(gpus: [GR_PHYSICAL_GPU; GR_MAX_PHYSICAL_GPUS], count: GR_UINT) -> (it: GpusIterator)
        ensures
            it@ == enumerated_gpus(gpus@, count),
            it@.len() == (if count < 4 { count as int } else { 4 }),
            it@.len() <= count,
            forall|i: int| 0 <= i < it@.len() ==> #[trigger] it@[i] == gpus@[i],
    {
        let mut ids: Vec<GR_PHYSICAL_GPU> = Vec::new();
        let n: usize = if (count as usize) < GR_MAX_PHYSICAL_GPUS {
            count as usize
        } else {
            GR_MAX_PHYSICAL_GPUS
        };
        let mut i: usize = 0;
        while i < n
            invariant
                n <= GR_MAX_PHYSICAL_GPUS,
                n == gpus@.len() || n == count,
                n <= count,
                i <= n,
                ids@ == gpus@.take(i as int),
            decreases n - i,
        {
            ids.push(gpus[i]);
            i = i + 1;
            assert(ids@ =~= gpus@.take(i as int));
        }
        assert(gpus@.take(n as int) =~= enumerated_gpus(gpus@, count));
        let it = GpusIterator { ids, position: 0 };
        assert(it@ =~= ids@);
        proof {
            law_enumerated_gpus(gpus@, count);
        }
        it
    }

    #[verifier::type_invariant]
    spec fn wf(&self) -> bool {
        self.position <= self.ids.len()
    }

    /// Hands out the next GPU, in the order of the enumeration.
    pub fn next(&mut self) -> (r: Option<Gpu>)
        ensures
            old(self)@.len() == 0 ==> r is None && final(self)@ == old(self)@,
            old(self)@.len() > 0 ==> (r matches Some(g) && g@ == old(self)@[0]
                && final(self)@ == old(self)@.drop_first()),
    {
        proof {
            use_type_invariant(&*self);
        }
        if self.position < self.ids.len() {
            let g = self.ids[self.position];
            self.position = self.position + 1;
            assert(self.ids@.skip(self.position as int) =~= old(self)@.drop_first());
            Some(Gpu { gpu: g })
        } else {
            None
        }
    }

    /// Skips `n` GPUs and hands out the one after them.
    pub fn nth(&mut self, n: usize) -> (r: Option<Gpu>)
        ensures
            n < old(self)@.len() ==> (r matches Some(g) && g@ == old(self)@[n as int]
                && final(self)@ == old(self)@.skip(n + 1)),
            n >= old(self)@.len() ==> r is None && final(self)@.len() == 0,
    {
        proof {
            use_type_invariant(&*self);
        }
        let len = self.ids.len();
        if n < len - self.position {
            let g = self.ids[self.position + n];
            self.position = self.position + n + 1;
            assert(self.ids@.skip(self.position as int) =~= old(self)@.skip(n + 1));
            Some(Gpu { gpu: g })
        } else {
            self.position = len;
            None
        }
    }

    /// How many GPUs are still to be handed out.
    pub fn len(&self) -> (n: usize)
        ensures
            n == self@.len(),
    {
        proof {
            use_type_invariant(self);
        }
        self.ids.len() - self.position
    }
}

} // verus!
