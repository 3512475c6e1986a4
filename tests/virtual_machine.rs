use hvf::virtual_machine::{HV_MEMORY_EXEC, HV_MEMORY_READ, HV_MEMORY_WRITE};
use hvf::err::{HV_BAD_ARGUMENT, HV_BUSY, HV_DENIED, HV_SUCCESS};
use hvf::{
    AllocationHandle, HypervisorError, MapRequest, MappingHandle, MemoryPermission,
    VirtualMachine, VirtualMachineConfiguration, PAGE_SIZE,
};

fn new_vm() -> VirtualMachine {
    VirtualMachine::new(HV_SUCCESS).unwrap()
}

fn all_permissions() -> Vec<MemoryPermission> {
    let mut all = Vec::new();
    for bits in 0..8u32 {
        all.push(MemoryPermission::new(bits & 1 != 0, bits & 2 != 0, bits & 4 != 0));
    }
    all
}

#[test]
fn configuration_is_always_available() {
    assert!(VirtualMachineConfiguration::new().is_ok());
}

#[test]
fn failed_creation_reports_native_error() {
    assert_eq!(VirtualMachine::new(HV_DENIED).unwrap_err(), HypervisorError::Denied);
    assert_eq!(VirtualMachine::new(HV_BUSY).unwrap_err(), HypervisorError::Busy);
}

#[test]
fn permission_flags() {
    assert_eq!(MemoryPermission::new(false, false, false).to_memory_flags(), 0);
    assert_eq!(MemoryPermission::read_only().to_memory_flags(), HV_MEMORY_READ);
    assert_eq!(MemoryPermission::write_only().to_memory_flags(), HV_MEMORY_WRITE);
    assert_eq!(MemoryPermission::execute_only().to_memory_flags(), HV_MEMORY_EXEC);
    assert_eq!(MemoryPermission::read_write().to_memory_flags(), 3);
    assert_eq!(MemoryPermission::read_execute().to_memory_flags(), 5);
    assert_eq!(MemoryPermission::write_execute().to_memory_flags(), 6);
    assert_eq!(MemoryPermission::read_write_execute().to_memory_flags(), 7);
}

#[test]
fn allocate_rounds_up_to_zeroed_pages() {
    let mut vm = new_vm();
    for (size, pages) in [(1usize, 1usize), (PAGE_SIZE - 1, 1), (PAGE_SIZE, 1), (PAGE_SIZE + 1, 2), (3 * PAGE_SIZE, 3)] {
        let h = vm.allocate(size).unwrap();
        let slice = vm.get_allocation_slice(h).unwrap();
        assert_eq!(slice.len(), pages * PAGE_SIZE);
        assert!(slice.iter().all(|b| *b == 0));
    }
}

#[test]
fn allocate_zero_bytes_gives_empty_region() {
    let mut vm = new_vm();
    let h = vm.allocate(0).unwrap();
    assert_eq!(vm.get_allocation_slice(h).unwrap().len(), 0);
}

#[test]
fn allocation_handles_count_up() {
    let mut vm = new_vm();
    assert_eq!(vm.allocate(1).unwrap(), AllocationHandle(1));
    assert_eq!(vm.allocate(1).unwrap(), AllocationHandle(2));
    vm.deallocate(AllocationHandle(2)).unwrap();
    assert_eq!(vm.allocate(1).unwrap(), AllocationHandle(3));
}

#[test]
fn allocate_too_large_fails_with_no_resources() {
    let mut vm = new_vm();
    assert_eq!(vm.allocate(usize::MAX).unwrap_err(), HypervisorError::NoResources);
    assert_eq!(vm.allocate(1).unwrap(), AllocationHandle(1));
}

#[test]
fn allocate_from_copies_then_pads_with_zeros() {
    let mut vm = new_vm();
    let h = vm.allocate_from(&[1, 2, 3]).unwrap();
    let slice = vm.get_allocation_slice(h).unwrap();
    assert_eq!(slice.len(), PAGE_SIZE);
    assert_eq!(&slice[..3], &[1, 2, 3]);
    assert!(slice[3..].iter().all(|b| *b == 0));
}

#[test]
fn slice_mut_writes_are_kept() {
    let mut vm = new_vm();
    let h = vm.allocate(10).unwrap();
    vm.get_allocation_slice_mut(h).unwrap()[5] = 0xaa;
    assert_eq!(vm.get_allocation_slice(h).unwrap()[5], 0xaa);
    assert_eq!(
        vm.get_allocation_slice_mut(AllocationHandle(9)).unwrap_err(),
        HypervisorError::InvalidHandle
    );
}

#[test]
fn deallocate_unmapped_then_lookups_fail() {
    let mut vm = new_vm();
    let h = vm.allocate(100).unwrap();
    assert_eq!(vm.deallocate(h), Ok(()));
    assert_eq!(vm.get_allocation_slice(h).unwrap_err(), HypervisorError::InvalidHandle);
    assert_eq!(vm.deallocate(h), Err(HypervisorError::InvalidHandle));
    assert_eq!(
        vm.map_request(h, 0, MemoryPermission::read_only()),
        Err(HypervisorError::InvalidHandle)
    );
}

#[test]
fn deallocate_unknown_handle_fails() {
    let mut vm = new_vm();
    assert_eq!(vm.deallocate(AllocationHandle(1)), Err(HypervisorError::InvalidHandle));
}

#[test]
fn deallocate_mapped_fails_and_keeps_allocation() {
    let mut vm = new_vm();
    let h = vm.allocate(1).unwrap();
    vm.map(h, 0, MemoryPermission::read_only(), HV_SUCCESS).unwrap();
    assert_eq!(vm.deallocate(h), Err(HypervisorError::AllocationStillMapped));
    assert_eq!(vm.get_allocation_slice(h).unwrap().len(), PAGE_SIZE);
    assert!(vm.is_allocation_mapped(h));
}

#[test]
fn map_misaligned_fails_for_every_permission() {
    let mut vm = new_vm();
    let h = vm.allocate(1).unwrap();
    for permission in all_permissions() {
        for address in [1u64, 0x1000, PAGE_SIZE as u64 - 1, PAGE_SIZE as u64 + 8] {
            assert_eq!(
                vm.map_request(h, address, permission),
                Err(HypervisorError::MisalignedAddress)
            );
            assert_eq!(
                vm.map(h, address, permission, HV_SUCCESS),
                Err(HypervisorError::MisalignedAddress)
            );
        }
    }
    assert!(vm.get_all_mapping_infos().is_empty());
    assert!(!vm.is_allocation_mapped(h));
    // The next mapping still gets the first handle.
    assert_eq!(vm.map(h, 0, MemoryPermission::read_only(), HV_SUCCESS), Ok(MappingHandle(1)));
}

#[test]
fn map_unknown_allocation_fails() {
    let mut vm = new_vm();
    assert_eq!(
        vm.map(AllocationHandle(4), 0, MemoryPermission::read_only(), HV_SUCCESS),
        Err(HypervisorError::InvalidHandle)
    );
    // An unknown handle is reported before a misaligned address.
    assert_eq!(
        vm.map_request(AllocationHandle(4), 3, MemoryPermission::read_only()),
        Err(HypervisorError::InvalidHandle)
    );
}

#[test]
fn map_request_describes_native_call() {
    let mut vm = new_vm();
    let h = vm.allocate(PAGE_SIZE + 1).unwrap();
    let request = vm
        .map_request(h, 4 * PAGE_SIZE as u64, MemoryPermission::read_execute())
        .unwrap();
    assert_eq!(
        request,
        MapRequest { address: 4 * PAGE_SIZE as u64, size: 2 * PAGE_SIZE, flags: 5 }
    );
}

#[test]
fn map_native_failure_records_nothing() {
    let mut vm = new_vm();
    let h = vm.allocate(1).unwrap();
    assert_eq!(
        vm.map(h, 0, MemoryPermission::read_write(), HV_BAD_ARGUMENT),
        Err(HypervisorError::BadArgument)
    );
    assert!(vm.get_all_mapping_infos().is_empty());
    assert_eq!(vm.map(h, 0, MemoryPermission::read_write(), HV_SUCCESS), Ok(MappingHandle(1)));
}

#[test]
fn map_then_unmap_twice() {
    let mut vm = new_vm();
    let h = vm.allocate(1).unwrap();
    let m = vm.map(h, 2 * PAGE_SIZE as u64, MemoryPermission::read_only(), HV_SUCCESS).unwrap();
    assert_eq!(vm.get_all_mapping_infos().len(), 1);
    assert_eq!(vm.unmap(m, HV_SUCCESS), Ok(()));
    assert!(vm.get_all_mapping_infos().iter().all(|info| info.mapping_handle != m));
    assert_eq!(vm.unmap(m, HV_SUCCESS), Err(HypervisorError::InvalidHandle));
    assert_eq!(vm.get_mapping_info(m), Err(HypervisorError::InvalidHandle));
    assert!(!vm.is_allocation_mapped(h));
}

#[test]
fn unmap_native_failure_keeps_record() {
    let mut vm = new_vm();
    let h = vm.allocate(1).unwrap();
    let m = vm.map(h, 0, MemoryPermission::read_only(), HV_SUCCESS).unwrap();
    assert_eq!(vm.unmap(m, HV_BUSY), Err(HypervisorError::Busy));
    assert_eq!(vm.get_mapping_info(m).unwrap().mapping_handle, m);
    assert_eq!(vm.deallocate(h), Err(HypervisorError::AllocationStillMapped));
}

#[test]
fn reprotect_changes_only_permission() {
    let mut vm = new_vm();
    let h = vm.allocate(3 * PAGE_SIZE).unwrap();
    let m = vm.map(h, 8 * PAGE_SIZE as u64, MemoryPermission::read_write(), HV_SUCCESS).unwrap();
    let before = vm.get_mapping_info(m).unwrap();
    assert_eq!(vm.reprotect(m, MemoryPermission::execute_only(), HV_SUCCESS), Ok(()));
    let after = vm.get_mapping_info(m).unwrap();
    assert_eq!(after.permission, MemoryPermission::execute_only());
    assert_eq!(after.address, before.address);
    assert_eq!(after.size, before.size);
    assert_eq!(after.allocation_handle, before.allocation_handle);
    assert_eq!(after.mapping_handle, before.mapping_handle);
}

#[test]
fn reprotect_failures() {
    let mut vm = new_vm();
    let h = vm.allocate(1).unwrap();
    let m = vm.map(h, 0, MemoryPermission::read_only(), HV_SUCCESS).unwrap();
    assert_eq!(
        vm.reprotect(MappingHandle(42), MemoryPermission::read_write(), HV_SUCCESS),
        Err(HypervisorError::InvalidHandle)
    );
    assert_eq!(
        vm.reprotect(m, MemoryPermission::read_write(), HV_DENIED),
        Err(HypervisorError::Denied)
    );
    assert_eq!(vm.get_mapping_info(m).unwrap().permission, MemoryPermission::read_only());
}

#[test]
fn single_page_lifecycle() {
    let mut vm = new_vm();
    let h = vm.allocate(1).unwrap();
    assert_eq!(vm.get_allocation_slice(h).unwrap().len(), PAGE_SIZE);
    let m = vm.map(h, 0, MemoryPermission::read_write(), HV_SUCCESS).unwrap();
    assert_eq!(vm.get_mapping_info(m).unwrap().size, PAGE_SIZE);
    vm.reprotect(m, MemoryPermission::execute_only(), HV_SUCCESS).unwrap();
    let info = vm.get_mapping_info(m).unwrap();
    assert!(!info.permission.read && !info.permission.write && info.permission.execute);
    vm.unmap(m, HV_SUCCESS).unwrap();
    assert!(vm.get_all_mapping_infos().is_empty());
    vm.deallocate(h).unwrap();
    assert_eq!(vm.get_allocation_slice(h).unwrap_err(), HypervisorError::InvalidHandle);
}

#[test]
fn two_regions_deallocate_after_unmap() {
    let mut vm = new_vm();
    let first = vm.allocate(PAGE_SIZE).unwrap();
    let second = vm.allocate(2 * PAGE_SIZE).unwrap();
    let m1 = vm.map(first, 0, MemoryPermission::read_write(), HV_SUCCESS).unwrap();
    let m2 = vm
        .map(second, 0x100000, MemoryPermission::read_execute(), HV_SUCCESS)
        .unwrap();
    assert_ne!(m1, m2);
    assert_eq!(vm.deallocate(first), Err(HypervisorError::AllocationStillMapped));
    vm.unmap(m1, HV_SUCCESS).unwrap();
    assert_eq!(vm.deallocate(first), Ok(()));
    let infos = vm.get_all_mapping_infos();
    assert_eq!(infos.len(), 1);
    assert_eq!(infos[0].mapping_handle, m2);
    assert_eq!(infos[0].allocation_handle, second);
    assert_eq!(infos[0].size, 2 * PAGE_SIZE);
}

#[test]
fn mapping_infos_keep_order() {
    let mut vm = new_vm();
    let h = vm.allocate(1).unwrap();
    let a = vm.map(h, 0, MemoryPermission::read_only(), HV_SUCCESS).unwrap();
    let b = vm.map(h, PAGE_SIZE as u64, MemoryPermission::write_only(), HV_SUCCESS).unwrap();
    let c = vm.map(h, 2 * PAGE_SIZE as u64, MemoryPermission::execute_only(), HV_SUCCESS).unwrap();
    vm.unmap(b, HV_SUCCESS).unwrap();
    let handles: Vec<MappingHandle> =
        vm.get_all_mapping_infos().iter().map(|info| info.mapping_handle).collect();
    assert_eq!(handles, vec![a, c]);
    assert_eq!(c, MappingHandle(3));
}

#[test]
fn allocations_start_on_a_page() {
    let mut vm = new_vm();
    for size in [1usize, PAGE_SIZE, 5 * PAGE_SIZE + 3] {
        let h = vm.allocate(size).unwrap();
        let start = vm.get_allocation_slice(h).unwrap().as_ptr() as usize;
        assert_eq!(start % PAGE_SIZE, 0);
    }
}
