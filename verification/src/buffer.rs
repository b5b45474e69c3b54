//! Buffers: memory allocated on the first heap of a device.
use vstd::prelude::*;

use crate::device::{Device, HeapInfos};
use crate::ffi::{GR_DEVICE, GR_GPU_MEMORY, GR_GPU_SIZE, GR_MEMORY_ALLOC_INFO, GR_MEMORY_PRIORITY, GR_RESULT};

verus! {

/// The size allocated for `size` bytes on a heap of pages of `page_size`
/// bytes: the size rounded up to whole pages.
pub open spec fn allocation_size(page_size: int, size: int) -> int {
    page_size * (1 + (size - 1) / page_size)
}

/// The sizes that a buffer can be asked for on a heap: at least one byte, on
/// a heap with pages, with a rounded size that a `usize` holds.
pub open spec fn can_allocate(page_size: int, size: int) -> bool {
    &&& size > 0
    &&& page_size > 0
    &&& allocation_size(page_size, size) <= usize::MAX
}

/// The description of the allocation of `size` bytes on `heap`: the
/// rounded size, no alignment and no flags, that one heap, normal priority.
pub open spec fn alloc_info_spec(info: GR_MEMORY_ALLOC_INFO, heap: HeapInfos, size: usize) -> bool {
    &&& info.size == allocation_size(heap.page_size as int, size as int)
    &&& info.alignment == 0
    &&& info.flags == 0
    &&& info.heapCount == 1
    &&& info.heaps@ == seq![heap.id, 0u32, 0u32, 0u32, 0u32, 0u32, 0u32, 0u32]
    &&& info.memPriority == GR_MEMORY_PRIORITY::GR_MEMORY_PRIORITY_NORMAL
}

/// The allocated size is the least multiple of the page size that holds the
/// requested size.
pub proof fn lemma_allocation_size_rounds_up(page_size: int, size: int)
    requires
        page_size > 0,
        size > 0,
    ensures
        allocation_size(page_size, size) % page_size == 0,
        size <= allocation_size(page_size, size),
        allocation_size(page_size, size) < size + page_size,
{
    let q = (size - 1) / page_size;
    let r = (size - 1) % page_size;
    vstd::arithmetic::div_mod::lemma_fundamental_div_mod(size - 1, page_size);
    vstd::arithmetic::div_mod::lemma_mod_pos_bound(size - 1, page_size);
    assert(allocation_size(page_size, size) == page_size * q + page_size) by (nonlinear_arith)
        requires
            allocation_size(page_size, size) == page_size * (1 + q),
    ;
    assert((q + 1) * page_size == page_size * (1 + q)) by (nonlinear_arith);
    vstd::arithmetic::div_mod::lemma_mod_multiples_basic(q + 1, page_size);
}

/// Rounding is stable and ordered: a size that is already rounded rounds
/// to itself, and a larger size never rounds to a smaller allocation.
pub proof fn lemma_allocation_size_idempotent_monotone(page_size: int, s1: int, s2: int)
    requires
        page_size > 0,
        0 < s1 <= s2,
    ensures
        allocation_size(page_size, allocation_size(page_size, s1)) == allocation_size(page_size, s1),
        allocation_size(page_size, s1) <= allocation_size(page_size, s2),
{
    let k = 1 + (s1 - 1) / page_size;
    vstd::arithmetic::div_mod::lemma_div_pos_is_pos(s1 - 1, page_size);
    let a = page_size * k;
    assert(a - 1 == (k - 1) * page_size + (page_size - 1)) by (nonlinear_arith)
        requires
            a == page_size * k,
    ;
    vstd::arithmetic::div_mod::lemma_fundamental_div_mod_converse_div(a - 1, page_size, k - 1, page_size - 1);
    assert(allocation_size(page_size, a) == a);
    vstd::arithmetic::div_mod::lemma_div_is_ordered(s1 - 1, s2 - 1, page_size);
    let k2 = 1 + (s2 - 1) / page_size;
    assert(page_size * k <= page_size * k2) by (nonlinear_arith)
        requires
            page_size > 0,
            k <= k2,
    ;
}

/// A buffer of memory of a device.
pub struct Buffer {
    memory: GR_GPU_MEMORY,
}

impl Buffer {
    pub closed spec fn memory(&self) -> GR_GPU_MEMORY {
        self.memory
    }

    /// The size that a buffer of `size` bytes takes on `heap`, or `None`
    /// where no buffer of that size can be asked for on it.
    pub fn allocation_size(heap: &HeapInfos, size: usize) -> (r: Option<usize>)
        ensures
            can_allocate(heap.page_size as int, size as int) ==> r == Some(
                allocation_size(heap.page_size as int, size as int) as usize,
            ),
            !can_allocate(heap.page_size as int, size as int) ==> r is None,
    {
        if size == 0 || heap.page_size == 0 {
            return None;
        }
        let pages = 1 + (size - 1) / heap.page_size;
        let r = heap.page_size.checked_mul(pages);
        proof {
            assert(allocation_size(heap.page_size as int, size as int) == heap.page_size * pages);
        }
        r
    }

    /// Allocates a buffer of `size` bytes on the first heap of the device,
    /// rounded up to whole pages. The one call allocates the memory.
    pub fn empty(device: &Device, size: usize) -> (a: BufferAllocation)
        requires
            device.heaps().len() > 0,
            can_allocate(device.heaps()[0].page_size as int, size as int),
        ensures
            a.device() == device.handle(),
            alloc_info_spec(a.info(), device.heaps()[0], size),
    {
        let heaps = device.get_heaps();
        let heap = &heaps[0];
        let pages = 1 + (size - 1) / heap.page_size;
        let rounded = heap.page_size * pages;
        let info = GR_MEMORY_ALLOC_INFO {
            size: rounded as GR_GPU_SIZE,
            alignment: 0,
            flags: 0,
            heapCount: 1,
            heaps: [heap.id, 0, 0, 0, 0, 0, 0, 0],
            memPriority: GR_MEMORY_PRIORITY::GR_MEMORY_PRIORITY_NORMAL,
        };
        assert(info.heaps@ =~= seq![heap.id, 0u32, 0u32, 0u32, 0u32, 0u32, 0u32, 0u32]);
        BufferAllocation { device: device.get_id(), info }
    }

    pub fn get_memory(&self) -> (m: GR_GPU_MEMORY)
        ensures
            m == self.memory(),
    {
        self.memory
    }

    /// Starts the release of the buffer: the one call frees its memory.
    pub fn release(self) -> (r: MemoryRelease)
        ensures
            r.memory() == self.memory(),
    {
        MemoryRelease { memory: self.memory }
    }
}

/// The release of a buffer's memory in progress.
pub struct MemoryRelease {
    memory: GR_GPU_MEMORY,
}

impl MemoryRelease {
    /// The memory to free.
    pub closed spec fn memory(&self) -> GR_GPU_MEMORY {
        self.memory
    }

    pub fn get_memory(&self) -> (m: GR_GPU_MEMORY)
        ensures
            m == self.memory(),
    {
        self.memory
    }

    /// Finishes after the success of freeing the memory.
    pub fn freed(self, result: GR_RESULT)
        requires
            result == GR_RESULT::GR_SUCCESS,
    {
    }
}

/// The allocation of the memory of a buffer.
pub struct BufferAllocation {
    device: GR_DEVICE,
    info: GR_MEMORY_ALLOC_INFO,
}

impl BufferAllocation {
    pub closed spec fn device(&self) -> GR_DEVICE {
        self.device
    }

    pub closed spec fn info(&self) -> GR_MEMORY_ALLOC_INFO {
        self.info
    }

    pub fn get_device(&self) -> (d: GR_DEVICE)
        ensures
            d == self.device(),
    {
        self.device
    }

    /// The description of the allocation.
    pub fn alloc_info(&self) -> (i: GR_MEMORY_ALLOC_INFO)
        ensures
            i == self.info(),
    {
        self.info
    }

    /// Finishes after the success of the allocation and the memory it wrote.
    pub fn resume(self, result: GR_RESULT, memory: GR_GPU_MEMORY) -> (r: Buffer)
        requires
            result == GR_RESULT::GR_SUCCESS,
        ensures
            r.memory() == memory,
    {
        Buffer { memory }
    }
}

} // verus!
