//! The Device Selector.
//!
//! One scan over the enumerated accelerators tracks the running maximum of
//! heap-0 size and keeps the first descriptor whose heap-0 size strictly
//! exceeds it. The strict comparison is load-bearing: on a tie the
//! earlier-enumerated accelerator is kept. An empty enumeration is an
//! error, never a default selection.

use crate::accel::AcceleratorInfo;
use crate::error::BootstrapError;
use vstd::prelude::*;

verus! {

/// The heap-0 sizes of a run of descriptors, in enumeration order.
pub open spec fn spec_heap0_sizes(accelerators: Seq<AcceleratorInfo>) -> Seq<u64> {
    accelerators.map_values(|a: AcceleratorInfo| a.spec_heap0_size())
}

/// Index `i` holds the first maximum of `sizes`: strictly greater than
/// every earlier entry, at least as great as every later one.
pub open spec fn is_first_max(sizes: Seq<u64>, i: int) -> bool {
    &&& 0 <= i < sizes.len()
    &&& forall|j: int| 0 <= j < i ==> sizes[j] < sizes[i]
    &&& forall|k: int| i < k < sizes.len() ==> sizes[k] <= sizes[i]
}

/// At most one index holds the first maximum.
pub proof fn lemma_first_max_unique(sizes: Seq<u64>, i: int, j: int)
    requires
        is_first_max(sizes, i),
        is_first_max(sizes, j),
    ensures
        i == j,
{
    if i < j {
        assert(sizes[i] < sizes[j]);
        assert(sizes[j] <= sizes[i]);
    }
    if j < i {
        assert(sizes[j] < sizes[i]);
        assert(sizes[i] <= sizes[j]);
    }
}

/// Selects the accelerator with the most heap-0 memory, keeping the
/// earlier one on ties. An empty enumeration is the `NoAccelerator` error
/// and nothing else; a non-empty one always yields a selection.
pub fn select_accelerator(accelerators: &Vec<AcceleratorInfo>) -> (r: Result<
    usize,
    BootstrapError,
>)
    requires
        forall|i: int| 0 <= i < accelerators@.len() ==> (#[trigger] accelerators@[i]).wf(),
    ensures
        r is Ok <==> accelerators@.len() > 0,
        r is Err ==> r == Err::<usize, BootstrapError>(BootstrapError::NoAccelerator),
        r matches Ok(i) ==> is_first_max(spec_heap0_sizes(accelerators@), i as int),
{
    if accelerators.len() == 0 {
        return Err(BootstrapError::NoAccelerator);
    }
    let ghost sizes: Seq<u64> = spec_heap0_sizes(accelerators@);
    let mut device_index: usize = 0;
    let mut max_vram: u64 = 0;
    let mut i: usize = 0;
    while i < accelerators.len()
        invariant
            accelerators@.len() > 0,
            forall|k: int| 0 <= k < accelerators@.len() ==> (#[trigger] accelerators@[k]).wf(),
            sizes == spec_heap0_sizes(accelerators@),
            0 <= i <= accelerators@.len(),
            i == 0 ==> device_index == 0 && max_vram == 0,
            i > 0 ==> {
                &&& device_index < i
                &&& max_vram == sizes[device_index as int]
                &&& forall|j: int| 0 <= j < device_index ==> sizes[j] < max_vram
                &&& forall|k: int| device_index < k < i ==> sizes[k] <= max_vram
            },
        decreases accelerators@.len() - i,
    {
        let size = accelerators[i].heap0_size();
        assert(size == sizes[i as int]);
        if size > max_vram {
            device_index = i;
            max_vram = size;
        }
        i = i + 1;
    }
    Ok(device_index)
}

} // verus!
