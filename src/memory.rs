//! Device memory: choosing a memory type for an allocation.

use vstd::prelude::*;

verus! {

/// Memory property bit: the memory is local to the device.
pub const DEVICE_LOCAL: u32 = 0x1;

/// Memory property bit: the memory can be mapped by the host.
pub const HOST_VISIBLE: u32 = 0x2;

/// Memory property bit: host writes need no explicit flush.
pub const HOST_COHERENT: u32 = 0x4;

/// What a resource asks of the memory that backs it.
#[derive(Clone, Copy, Debug, PartialEq, Eq)]
pub struct MemoryRequirements {
    pub size: u64,
    pub alignment: u64,
    /// Bit `i` is set when memory type `i` may back the resource.
    pub memory_type_bits: u32,
}

/// One entry of the device's memory-type table.
#[derive(Clone, Copy, Debug, PartialEq, Eq)]
pub struct MemoryType {
    pub property_flags: u32,
    pub heap_index: u32,
}

/// The device's memory-type table, in the device's order.
#[derive(Clone, Debug)]
pub struct MemoryProperties {
    pub memory_types: Vec<MemoryType>,
}

/// Bit `i` of `bits` is set; a `u32` mask has no bit past 31.
pub open spec fn type_bit_set(bits: u32, i: int) -> bool {
    0 <= i < 32 && (bits >> (i as u32)) & 1u32 == 1u32
}

/// The flags of a memory type include every required flag.
pub open spec fn flags_cover(flags: u32, required: u32) -> bool {
    flags & required == required
}

/// Memory type `i` may back the resource and has every required flag.
pub open spec fn type_qualifies(
    req: MemoryRequirements,
    types: Seq<MemoryType>,
    required: u32,
    i: int,
) -> bool {
    &&& 0 <= i < types.len()
    &&& type_bit_set(req.memory_type_bits, i)
    &&& flags_cover(types[i].property_flags, required)
}

/// `r` is the lowest qualifying memory type, or `None` when none qualifies.
pub open spec fn is_memory_type_choice(
    req: MemoryRequirements,
    types: Seq<MemoryType>,
    required: u32,
    r: Option<u32>,
) -> bool {
    match r {
        Some(i) => type_qualifies(req, types, required, i as int) && forall|j: int|
            0 <= j < i ==> !#[trigger] type_qualifies(req, types, required, j),
        None => forall|j: int| !#[trigger] type_qualifies(req, types, required, j),
    }
}

/// Returns the lowest-indexed memory type that `memory_req` allows and whose
/// property flags include all of `flags`, or `None` when there is none.
pub fn find_memory_type_index(
    memory_req: &MemoryRequirements,
    memory_prop: &MemoryProperties,
    flags: u32,
) -> (r: Option<u32>)
    ensures
        is_memory_type_choice(*memory_req, memory_prop.memory_types@, flags, r),
{
    let types = &memory_prop.memory_types;
    let n = types.len();
    let mut i: usize = 0;
    while i < n && i < 32
        invariant
            i <= n,
            i <= 32,
            n == types@.len(),
            types@ == memory_prop.memory_types@,
            forall|j: int| 0 <= j < i ==> !#[trigger] type_qualifies(*memory_req, types@, flags, j),
        decreases n - i,
    {
        let bit_set = (memory_req.memory_type_bits >> (i as u32)) & 1u32 == 1u32;
        if bit_set && types[i].property_flags & flags == flags {
            return Some(i as u32);
        }
        i = i + 1;
    }
    None
}

/// The size and memory type of an allocation.
#[derive(Clone, Copy, Debug, PartialEq, Eq, Structural)]
pub struct MemoryAllocation {
    pub size: u64,
    pub memory_type_index: u32,
}

/// Why no memory could be chosen for a resource.
#[derive(Clone, Copy, Debug, PartialEq, Eq, Structural)]
pub enum AllocationError {
    /// No memory type is both allowed and has every required flag.
    NoSuitableMemoryType,
}

/// Plans the allocation that backs a resource: its required size, in the
/// lowest memory type that the resource allows and that has all of `flags`.
pub fn plan_allocation(req: &MemoryRequirements, props: &MemoryProperties, flags: u32) -> (r: Result<
    MemoryAllocation,
    AllocationError,
>)
    ensures
        match r {
            Ok(a) => a.size == req.size && is_memory_type_choice(
                *req,
                props.memory_types@,
                flags,
                Some(a.memory_type_index),
            ),
            Err(e) => e == AllocationError::NoSuitableMemoryType && is_memory_type_choice(
                *req,
                props.memory_types@,
                flags,
                None,
            ),
        },
{
    match find_memory_type_index(req, props, flags) {
        Some(i) => Ok(MemoryAllocation { size: req.size, memory_type_index: i }),
        None => Err(AllocationError::NoSuitableMemoryType),
    }
}

/// The memory type is a function of the requirements, the table and the
/// required flags, and the type it names has every required flag.
pub proof fn lemma_memory_type_choice_deterministic(
    req: MemoryRequirements,
    types: Seq<MemoryType>,
    required: u32,
    r1: Option<u32>,
    r2: Option<u32>,
)
    requires
        is_memory_type_choice(req, types, required, r1),
        is_memory_type_choice(req, types, required, r2),
    ensures
        r1 == r2,
        r1 matches Some(i) ==> (i as int) < types.len() && flags_cover(
            types[i as int].property_flags,
            required,
        ),
{
    match (r1, r2) {
        (Some(a), Some(b)) => {
            if a < b {
                assert(type_qualifies(req, types, required, a as int));
            } else if b < a {
                assert(type_qualifies(req, types, required, b as int));
            }
        },
        (Some(a), None) => {
            assert(type_qualifies(req, types, required, a as int));
        },
        (None, Some(b)) => {
            assert(type_qualifies(req, types, required, b as int));
        },
        (None, None) => {},
    }
}

} // verus!
