//! Selection of a device memory type for an allocation.
use vstd::prelude::*;

verus! {

/// One entry of the device's memory-type table.
#[derive(Clone, Copy, Debug, PartialEq, Eq, Structural)]
pub struct MemoryType {
    /// Property bits of this memory type (device local, host visible, ...).
    pub property_flags: u32,
    /// Heap this memory type allocates from.
    pub heap_index: u32,
}

/// Property bit: memory local to the device.
pub const MEMORY_PROPERTY_DEVICE_LOCAL: u32 = 0x1;

/// Property bit: memory that the host can map.
pub const MEMORY_PROPERTY_HOST_VISIBLE: u32 = 0x2;

/// Property bit: host writes are visible without an explicit flush.
pub const MEMORY_PROPERTY_HOST_COHERENT: u32 = 0x4;

/// Property bit: memory cached on the host.
pub const MEMORY_PROPERTY_HOST_CACHED: u32 = 0x8;

/// Bit `i` of a 32-bit mask is set.
pub open spec fn has_bit(mask: u32, i: int) -> bool {
    0 <= i < 32 && mask & (1u32 << (i as u32)) != 0
}

/// Every bit of `required` is set in `flags`.
pub open spec fn contains_flags(flags: u32, required: u32) -> bool {
    flags & required == required
}

/// Memory type `i` is allowed by the resource's requirement mask and has all
/// the required properties.
pub open spec fn is_suitable_type(
    requirement_bits: u32,
    types: Seq<MemoryType>,
    required: u32,
    i: int,
) -> bool {
    0 <= i < types.len() && has_bit(requirement_bits, i) && contains_flags(
        types[i].property_flags,
        required,
    )
}

/// `r` is the lowest suitable memory type, or `None` when there is none.
pub open spec fn is_lowest_suitable(
    requirement_bits: u32,
    types: Seq<MemoryType>,
    required: u32,
    r: Option<u32>,
) -> bool {
    match r {
        Some(k) => is_suitable_type(requirement_bits, types, required, k as int) && (forall|j: int|
            0 <= j < k ==> !is_suitable_type(requirement_bits, types, required, j)),
        None => forall|j: int| !is_suitable_type(requirement_bits, types, required, j),
    }
}

/// Returns the lowest index `k` such that bit `k` of `requirement_bits` is
/// set and memory type `k` has every property in `required`, or `None` when
/// no memory type satisfies both.
pub fn find_memory_type(requirement_bits: u32, memory_types: &Vec<MemoryType>, required: u32) -> (r:
    Option<u32>)
    ensures
        is_lowest_suitable(requirement_bits, memory_types@, required, r),
{
    let n: usize = if memory_types.len() < 32 {
        memory_types.len()
    } else {
        32
    };
    let mut i: usize = 0;
    while i < n
        invariant
            n <= memory_types.len(),
            n <= 32,
            n == memory_types.len() || n == 32,
            i <= n,
            forall|j: int| 0 <= j < i ==> !is_suitable_type(requirement_bits, memory_types@, required, j),
        decreases n - i,
    {
        let flags = memory_types[i].property_flags;
        if requirement_bits & (1u32 << (i as u32)) != 0 && flags & required == required {
            return Some(i as u32);
        }
        i += 1;
    }
    proof {
        assert forall|j: int| !is_suitable_type(requirement_bits, memory_types@, required, j) by {
            if 0 <= j < memory_types.len() && j >= n {
                assert(j >= 32);
            }
        }
    }
    None
}

/// What the driver reports that a buffer or image needs of its memory.
#[derive(Clone, Copy, Debug, PartialEq, Eq, Structural)]
pub struct MemoryRequirements {
    /// Bytes to allocate; may exceed the size that was asked for.
    pub size: u64,
    pub alignment: u64,
    /// Bit `i` is set when memory type `i` may back the resource.
    pub memory_type_bits: u32,
}

/// The allocation that backs a resource.
#[derive(Clone, Copy, Debug, PartialEq, Eq, Structural)]
pub struct MemoryAllocation {
    pub allocation_size: u64,
    pub memory_type_index: u32,
}

/// Plans the memory of a new buffer or image: the size the driver reported
/// (not the size that was asked for) from the lowest suitable memory type.
/// `None` when no memory type is suitable.
pub fn plan_allocation(
    requirements: MemoryRequirements,
    memory_types: &Vec<MemoryType>,
    required: u32,
) -> (r: Option<MemoryAllocation>)
    ensures
        is_lowest_suitable(
            requirements.memory_type_bits,
            memory_types@,
            required,
            match r {
                Some(a) => Some(a.memory_type_index),
                None => None,
            },
        ),
        r matches Some(a) ==> a.allocation_size == requirements.size,
{
    match find_memory_type(requirements.memory_type_bits, memory_types, required) {
        Some(memory_type_index) => Some(
            MemoryAllocation { allocation_size: requirements.size, memory_type_index },
        ),
        None => None,
    }
}

/// A region of a buffer-to-buffer copy.
#[derive(Clone, Copy, Debug, PartialEq, Eq, Structural)]
pub struct BufferCopyRegion {
    pub src_offset: u64,
    pub dst_offset: u64,
    pub size: u64,
}

/// The region that copies the first `size` bytes of a buffer of `src_size`
/// bytes into a buffer of `dst_size` bytes; `None` when either buffer is
/// shorter than `size`.
pub fn buffer_copy_region(size: u64, src_size: u64, dst_size: u64) -> (r: Option<BufferCopyRegion>)
    ensures
        (size <= src_size && size <= dst_size) ==> r == Some(
            BufferCopyRegion { src_offset: 0, dst_offset: 0, size },
        ),
        !(size <= src_size && size <= dst_size) ==> r is None,
{
    if size <= src_size && size <= dst_size {
        Some(BufferCopyRegion { src_offset: 0, dst_offset: 0, size })
    } else {
        None
    }
}

/// The answer never names a memory type that the requirement mask excludes
/// or that lacks a required property, and it is `None` only when no memory
/// type qualifies.
pub proof fn lemma_memory_type_sound(
    requirement_bits: u32,
    types: Seq<MemoryType>,
    required: u32,
    r: Option<u32>,
)
    requires
        is_lowest_suitable(requirement_bits, types, required, r),
    ensures
        r matches Some(k) ==> (k < types.len() && has_bit(requirement_bits, k as int)
            && contains_flags(types[k as int].property_flags, required)),
        r is None ==> !(exists|k: int| is_suitable_type(requirement_bits, types, required, k)),
{
}

} // verus!
