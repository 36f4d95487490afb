use axcli::allocator::{
    allocate_many_ids, AllocatorError, ResourceAllocator, GSI_LEGACY_END, GSI_LEGACY_START, GSI_MSI_START,
};

#[test]
fn legacy_gsis_are_handed_out_lowest_first() {
    let mut r = ResourceAllocator::new();
    assert_eq!(r.allocate_gsi_legacy(3), Ok(vec![5, 6, 7]));
    assert_eq!(r.allocate_gsi_legacy(2), Ok(vec![8, 9]));
    assert_eq!(r.allocate_gsi_msi(2), Ok(vec![GSI_MSI_START, GSI_MSI_START + 1]));
}

#[test]
fn failed_allocation_rolls_back() {
    let mut r = ResourceAllocator::new();
    let all = (GSI_LEGACY_END - GSI_LEGACY_START + 1) as u32;
    assert_eq!(r.allocate_gsi_legacy(all + 1), Err(AllocatorError::ResourceNotAvailable));
    // Nothing stayed allocated: the whole range is still free.
    let ids = r.allocate_gsi_legacy(all).unwrap();
    assert_eq!(ids.first(), Some(&GSI_LEGACY_START));
    assert_eq!(ids.last(), Some(&GSI_LEGACY_END));
    assert_eq!(r.allocate_gsi_legacy(1), Err(AllocatorError::ResourceNotAvailable));
}

#[test]
fn allocating_nothing_and_overflowing_range() {
    let mut a = vm_allocator::IdAllocator::new(u32::MAX - 1, u32::MAX).unwrap();
    assert_eq!(allocate_many_ids(&mut a, 0), Ok(vec![]));
    assert_eq!(allocate_many_ids(&mut a, 2), Ok(vec![u32::MAX - 1, u32::MAX]));
    assert_eq!(allocate_many_ids(&mut a, 1), Err(AllocatorError::Overflow));
    a.free_id(u32::MAX - 1).unwrap();
    assert_eq!(allocate_many_ids(&mut a, 1), Ok(vec![u32::MAX - 1]));
}
