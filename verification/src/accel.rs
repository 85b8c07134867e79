//! Accelerator descriptors.
//!
//! An accelerator is a physical device enumerated through the connection.
//! The descriptor carries what the selection logic reads of it: an opaque
//! handle identifier assigned by the outer layer, the queried name and
//! driver version, and the ordered memory-heap size list. Heap 0 is the
//! primary device-local heap and is the proxy for available video memory.

use vstd::prelude::*;

verus! {

/// One enumerated physical accelerator, as the selection logic sees it.
pub struct AcceleratorInfo {
    /// Identifier of the underlying physical-device handle.
    pub handle: u64,
    /// The device name reported by the API.
    pub name: String,
    /// The driver version reported by the API.
    pub driver_version: u32,
    /// Sizes of the memory heaps, in bytes, in the API's order.
    pub heap_sizes: Vec<u64>,
}

impl AcceleratorInfo {
    /// A descriptor is well-formed when it has a heap 0 to read.
    pub open spec fn wf(&self) -> bool {
        self.heap_sizes@.len() >= 1
    }

    /// The size of heap 0, the selection heuristic's input.
    pub open spec fn spec_heap0_size(&self) -> u64 {
        self.heap_sizes@[0]
    }

    /// Builds a descriptor from the queried properties.
    pub fn new(handle: u64, name: String, driver_version: u32, heap_sizes: Vec<u64>) -> (r:
        AcceleratorInfo)
        requires
            heap_sizes@.len() >= 1,
        ensures
            r.wf(),
            r.handle == handle,
            r.name@ == name@,
            r.driver_version == driver_version,
            r.heap_sizes@ == heap_sizes@,
    {
        AcceleratorInfo { handle, name, driver_version, heap_sizes }
    }

    /// Reads the size of heap 0.
    pub fn heap0_size(&self) -> (r: u64)
        requires
            self.wf(),
        ensures
            r == self.spec_heap0_size(),
    {
        self.heap_sizes[0]
    }
}

} // verus!
