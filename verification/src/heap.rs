//! Descriptor-heap bookkeeping: the stride and start of a heap of resource
//! view handles, and the free-index list that would recycle slots.

use vstd::prelude::*;

verus! {

/// What the CPU keeps about one descriptor heap. The heap object itself is a
/// graphics-API handle held by the caller; the device reports the handle
/// increment (the stride between consecutive descriptors) and the address of
/// the heap's first CPU descriptor handle.
pub struct DescriptorHeap {
    pub heap_increment: u32,
    pub free_indices: Vec<u32>,
    pub heap_ptr: usize,
}

impl DescriptorHeap {
    /// Bookkeeping for a heap the device just created: the reported stride
    /// and start address, and an empty free-index list — nothing has been
    /// handed out, so nothing has been returned.
    pub fn new(heap_increment: u32, heap_ptr: usize) -> (r: Self)
        ensures
            r.heap_increment == heap_increment,
            r.heap_ptr == heap_ptr,
            r.free_indices@ == Seq::<u32>::empty(),
    {
        DescriptorHeap { heap_increment, free_indices: Vec::new(), heap_ptr }
    }
}

} // verus!
