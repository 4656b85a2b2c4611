use tarsier::memory::{
    find_memory_type_index, plan_allocation, AllocationError, MemoryAllocation, MemoryProperties,
    MemoryRequirements, MemoryType, DEVICE_LOCAL, HOST_COHERENT, HOST_VISIBLE,
};

fn table() -> MemoryProperties {
    MemoryProperties {
        memory_types: vec![
            MemoryType { property_flags: DEVICE_LOCAL, heap_index: 0 },
            MemoryType { property_flags: HOST_VISIBLE, heap_index: 1 },
            MemoryType { property_flags: HOST_VISIBLE | HOST_COHERENT, heap_index: 1 },
            MemoryType { property_flags: DEVICE_LOCAL | HOST_VISIBLE | HOST_COHERENT, heap_index: 0 },
        ],
    }
}

fn req(bits: u32) -> MemoryRequirements {
    MemoryRequirements { size: 4096, alignment: 256, memory_type_bits: bits }
}

#[test]
fn lowest_allowed_type_with_all_flags_is_chosen() {
    let props = table();
    assert_eq!(find_memory_type_index(&req(0b1111), &props, DEVICE_LOCAL), Some(0));
    assert_eq!(find_memory_type_index(&req(0b1111), &props, HOST_VISIBLE | HOST_COHERENT), Some(2));
    assert_eq!(find_memory_type_index(&req(0b1110), &props, DEVICE_LOCAL), Some(3));
    assert_eq!(find_memory_type_index(&req(0b1111), &props, 0), Some(0));
}

#[test]
fn no_type_qualifies() {
    let props = table();
    assert_eq!(find_memory_type_index(&req(0b0011), &props, HOST_COHERENT), None);
    assert_eq!(find_memory_type_index(&req(0), &props, 0), None);
    let empty = MemoryProperties { memory_types: vec![] };
    assert_eq!(find_memory_type_index(&req(u32::MAX), &empty, 0), None);
}

#[test]
fn bits_past_the_table_are_ignored() {
    let props = table();
    assert_eq!(find_memory_type_index(&req(0b1_0000), &props, 0), None);
}

#[test]
fn memory_type_choice_is_deterministic_and_covers_flags() {
    let props = table();
    for bits in 0u32..16 {
        for flags in 0u32..8 {
            let a = find_memory_type_index(&req(bits), &props, flags);
            let b = find_memory_type_index(&req(bits), &props, flags);
            assert_eq!(a, b);
            if let Some(i) = a {
                let f = props.memory_types[i as usize].property_flags;
                assert_eq!(f & flags, flags);
                assert_ne!(bits & (1 << i), 0);
            }
        }
    }
}

#[test]
fn allocation_plan_takes_size_and_type() {
    let props = table();
    assert_eq!(
        plan_allocation(&req(0b1100), &props, HOST_VISIBLE),
        Ok(MemoryAllocation { size: 4096, memory_type_index: 2 })
    );
    assert_eq!(
        plan_allocation(&req(0b0110), &props, DEVICE_LOCAL),
        Err(AllocationError::NoSuitableMemoryType)
    );
}
