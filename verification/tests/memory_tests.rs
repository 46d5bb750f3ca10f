//! Tests of memory permissions, allocation, mapping and guest access.

use applevisor::backend::Backend;
use applevisor::backend::HV_MEMORY_EXEC;
use applevisor::backend::HV_MEMORY_READ;
use applevisor::backend::HV_MEMORY_WRITE;
use applevisor::HypervisorError;
use applevisor::MemPerms;
use applevisor::VirtualMachine;
use applevisor::PAGE_SIZE;

#[test]
fn checking_memperms_operations_coherence() {
    assert_eq!(MemPerms::from_flags(0), MemPerms::NoAccess);
    assert_eq!(MemPerms::from_flags(HV_MEMORY_READ), MemPerms::R);
    assert_eq!(MemPerms::from_flags(HV_MEMORY_WRITE), MemPerms::W);
    assert_eq!(MemPerms::from_flags(HV_MEMORY_EXEC), MemPerms::X);

    assert_eq!(MemPerms::R.bitor(MemPerms::W), MemPerms::RW);
    assert_eq!(MemPerms::R.bitor(MemPerms::X), MemPerms::RX);
    assert_eq!(MemPerms::R.bitor(MemPerms::WX), MemPerms::RWX);
    assert_eq!(MemPerms::W.bitor(MemPerms::X), MemPerms::WX);
    assert_eq!(MemPerms::W.bitor(MemPerms::RX), MemPerms::RWX);
    assert_eq!(MemPerms::X.bitor(MemPerms::RW), MemPerms::RWX);
    assert_eq!(MemPerms::RWX.bitor(MemPerms::NoAccess), MemPerms::RWX);

    assert_eq!(MemPerms::NoAccess.as_str(), "---");
    assert_eq!(MemPerms::R.as_str(), "r--");
    assert_eq!(MemPerms::W.as_str(), "-w-");
    assert_eq!(MemPerms::X.as_str(), "--x");
    assert_eq!(MemPerms::RW.as_str(), "rw-");
    assert_eq!(MemPerms::RX.as_str(), "r-x");
    assert_eq!(MemPerms::WX.as_str(), "-wx");
    assert_eq!(MemPerms::RWX.as_str(), "rwx");
}

#[test]
fn making_an_allocation_with_a_size_overflowing_when_aligned() {
    let mut b = Backend::new();
    let vm = VirtualMachine::new(&mut b).unwrap();

    assert!(matches!(
        vm.memory_create(&mut b, 0xffff_ffff_ffff_fabc),
        Err(HypervisorError::BadArgument)
    ));
}

#[test]
fn basic_operations_on_a_memory_mapping() {
    let mut b = Backend::new();
    let vm = VirtualMachine::new(&mut b).unwrap();

    let mut mem = vm.memory_create(&mut b, PAGE_SIZE).unwrap();
    assert_eq!(mem.size(), PAGE_SIZE);

    let addr = 0x4000;

    // Trying to perform operations while the page is unmapped.
    assert_eq!(mem.guest_addr(), None);
    assert!(matches!(
        mem.protect(&mut b, MemPerms::NoAccess),
        Err(HypervisorError::Error)
    ));
    let mut data = vec![1];
    assert!(matches!(
        mem.read(addr, &mut data),
        Err(HypervisorError::Error)
    ));
    assert!(matches!(
        mem.write(addr, &vec![1]),
        Err(HypervisorError::Error)
    ));

    // Mapping the page in the virtual machine.
    mem.map(&mut b, addr, MemPerms::ReadWriteExec).unwrap();
    assert_eq!(mem.guest_addr(), Some(addr));

    // Remapping a memory object returns an error.
    assert!(matches!(
        mem.map(&mut b, addr, MemPerms::ReadWriteExec),
        Err(HypervisorError::Busy)
    ));

    mem.protect(&mut b, MemPerms::Read).unwrap();

    // Unmapping twice results in an error.
    mem.unmap(&mut b).unwrap();
    assert!(matches!(mem.unmap(&mut b), Err(HypervisorError::Error)));
}

#[test]
fn memory_map_unmap() {
    let mut b = Backend::new();
    let _vm = VirtualMachine::new(&mut b).unwrap();
    // Creating a new mapping of size 0x1000.
    let mut mem = _vm.memory_create(&mut b, 0x1000).unwrap();
    // Mapping it at a non-page-aligned address in the guest should not work...
    assert_eq!(
        mem.map(&mut b, 0x1000, MemPerms::RW),
        Err(HypervisorError::BadArgument)
    );
    // ... but a page-aligned address should.
    assert_eq!(mem.map(&mut b, 0x4000, MemPerms::RW), Ok(()));
    // Unmapping it should also work.
    assert_eq!(mem.unmap(&mut b), Ok(()));
    // Mapping it twice should not work though.
    assert_eq!(mem.map(&mut b, 0x4000, MemPerms::RW), Ok(()));
    assert_eq!(
        mem.map(&mut b, 0x4000, MemPerms::RW),
        Err(HypervisorError::Busy)
    );
    // Creating a second mapping of size 0x1000.
    let mut mem2 = _vm.memory_create(&mut b, 0x1000).unwrap();
    // Mapping it at the location of the first one should not work.
    assert_eq!(
        mem2.map(&mut b, 0x4000, MemPerms::RW),
        Err(HypervisorError::Error)
    );
}

#[test]
fn memory_map_same_address() {
    let mut b = Backend::new();
    let _vm = VirtualMachine::new(&mut b).unwrap();
    // Creating two mappings of size 0x1000.
    let mut mem1 = _vm.memory_create(&mut b, 0x1000).unwrap();
    let mut mem2 = _vm.memory_create(&mut b, 0x1000).unwrap();
    // Maps the two mappings at the same address.
    assert_eq!(mem1.map(&mut b, 0x4000, MemPerms::RW), Ok(()));
    assert_eq!(
        mem2.map(&mut b, 0x4000, MemPerms::RW),
        Err(HypervisorError::Error)
    );

    let mut mem3 = _vm.memory_create(&mut b, 0x1000).unwrap();
    assert_eq!(mem3.map(&mut b, 0x20000, MemPerms::RW), Ok(()));
}

#[test]
fn memory_read_write_protect() {
    let mut b = Backend::new();
    let _vm = VirtualMachine::new(&mut b).unwrap();
    let mut mem = _vm.memory_create(&mut b, 0x1000).unwrap();
    // Mapping memory as Read/Write
    assert_eq!(mem.map(&mut b, 0x10000, MemPerms::RW), Ok(()));
    // Writing 0xdeadbeef in the guest allocated memory.
    assert_eq!(mem.write_u32(0x12345, 0xdeadbeef), Ok(()));
    // Reading at the same location and making sure we're reading 0xdeadbeef.
    assert_eq!(mem.read_u32(0x12345), Ok(0xdeadbeef));
    // Testing all write functions
    assert_eq!(mem.write(0x10000, &vec![0x10, 0x11, 0x12, 0x13]), Ok(()));
    assert_eq!(mem.write_u8(0x10010, 0x41), Ok(()));
    assert_eq!(mem.write_u16(0x10020, 0x4242), Ok(()));
    assert_eq!(mem.write_u32(0x10030, 0x43434343), Ok(()));
    assert_eq!(mem.write_u64(0x10040, 0x4444444444444444), Ok(()));
    // Testing all read functions
    let mut data = vec![0; 4];
    let ret = mem.read(0x10000, &mut data);
    assert_eq!(ret, Ok(()));
    assert_eq!(data, [0x10, 0x11, 0x12, 0x13]);
    assert_eq!(mem.read_u8(0x10010), Ok(0x41));
    assert_eq!(mem.read_u16(0x10020), Ok(0x4242));
    assert_eq!(mem.read_u32(0x10030), Ok(0x43434343));
    assert_eq!(mem.read_u64(0x10040), Ok(0x4444444444444444));
    // Changing the mapping permissions
    assert_eq!(mem.protect(&mut b, MemPerms::R), Ok(()));
}

#[test]
fn reading_writing_memory_out_of_bounds() {
    let mut b = Backend::new();
    let vm = VirtualMachine::new(&mut b).unwrap();

    // Mapping our page.
    let addr = 0x8000;
    let mut mem = vm.memory_create(&mut b, PAGE_SIZE).unwrap();
    mem.map(&mut b, addr, MemPerms::ReadWriteExec).unwrap();

    let mut data = vec![0; 0x10];

    // Reading one byte before the buffer.
    let read_addr = addr - 1;
    assert_eq!(
        mem.read(read_addr, &mut data),
        Err(HypervisorError::BadArgument)
    );
    // Reading one byte after the buffer.
    let read_addr = addr + PAGE_SIZE as u64 - data.len() as u64 + 1;
    assert_eq!(
        mem.read(read_addr, &mut data),
        Err(HypervisorError::BadArgument)
    );
    // Reading from an address that would overflow.
    let read_addr = u64::MAX - data.len() as u64 + 1;
    assert_eq!(
        mem.read(read_addr, &mut data),
        Err(HypervisorError::BadArgument)
    );

    // Writing one byte before the buffer.
    let write_addr = addr - 1;
    assert_eq!(
        mem.write(write_addr, &data),
        Err(HypervisorError::BadArgument)
    );
    // Writing one byte after the buffer.
    let write_addr = addr + PAGE_SIZE as u64 - data.len() as u64 + 1;
    assert_eq!(
        mem.write(write_addr, &data),
        Err(HypervisorError::BadArgument)
    );
    // Writing to an address that would overflow.
    let write_addr = u64::MAX - data.len() as u64 + 1;
    assert_eq!(
        mem.write(write_addr, &data),
        Err(HypervisorError::BadArgument)
    );
}

#[test]
fn reading_writing_memory_u8() {
    let mut b = Backend::new();
    let vm = VirtualMachine::new(&mut b).unwrap();
    let addr = 0x4000;
    let mut mem = vm.memory_create(&mut b, PAGE_SIZE).unwrap();
    mem.map(&mut b, addr, MemPerms::ReadWrite).unwrap();

    for i in 0..0x40u64 {
        let value = (i as u8).wrapping_mul(0x11);
        assert_eq!(mem.write_u8(addr + i * 0x10, value), Ok(()));
    }
    for i in 0..0x40u64 {
        let value = (i as u8).wrapping_mul(0x11);
        assert_eq!(mem.read_u8(addr + i * 0x10), Ok(value));
        // The host view shows the same bytes the typed accessors read.
        assert_eq!(mem.host_bytes()[(i * 0x10) as usize], value);
    }
}

#[test]
fn reading_writing_memory_u16() {
    let mut b = Backend::new();
    let vm = VirtualMachine::new(&mut b).unwrap();
    let addr = 0x4000;
    let mut mem = vm.memory_create(&mut b, PAGE_SIZE).unwrap();
    mem.map(&mut b, addr, MemPerms::ReadWrite).unwrap();

    for i in 0..0x40u64 {
        let value = (i as u16).wrapping_mul(0x1111);
        assert_eq!(mem.write_u16(addr + i * 0x10, value), Ok(()));
    }
    for i in 0..0x40u64 {
        let value = (i as u16).wrapping_mul(0x1111);
        assert_eq!(mem.read_u16(addr + i * 0x10), Ok(value));
        // The host view stores the value little-endian.
        assert_eq!(
            mem.host_bytes()[(i * 0x10) as usize],
            (value & 0xff) as u8
        );
        assert_eq!(
            mem.host_bytes()[(i * 0x10 + 1) as usize],
            (value >> 8) as u8
        );
    }
}

#[test]
fn reading_writing_memory_u32() {
    let mut b = Backend::new();
    let vm = VirtualMachine::new(&mut b).unwrap();
    let addr = 0x4000;
    let mut mem = vm.memory_create(&mut b, PAGE_SIZE).unwrap();
    mem.map(&mut b, addr, MemPerms::ReadWrite).unwrap();

    for i in 0..0x40u64 {
        let value = (i as u32).wrapping_mul(0x1111_1111);
        assert_eq!(mem.write_u32(addr + i * 0x10, value), Ok(()));
    }
    for i in 0..0x40u64 {
        let value = (i as u32).wrapping_mul(0x1111_1111);
        assert_eq!(mem.read_u32(addr + i * 0x10), Ok(value));
    }
}

#[test]
fn reading_writing_memory_u64() {
    let mut b = Backend::new();
    let vm = VirtualMachine::new(&mut b).unwrap();
    let addr = 0x4000;
    let mut mem = vm.memory_create(&mut b, PAGE_SIZE).unwrap();
    mem.map(&mut b, addr, MemPerms::ReadWrite).unwrap();

    for i in 0..0x40u64 {
        let value = i.wrapping_mul(0x1111_1111_1111_1111);
        assert_eq!(mem.write_u64(addr + i * 0x10, value), Ok(()));
    }
    for i in 0..0x40u64 {
        let value = i.wrapping_mul(0x1111_1111_1111_1111);
        assert_eq!(mem.read_u64(addr + i * 0x10), Ok(value));
    }
}

#[test]
fn allocate_map_write_read_unmap_scenario() {
    let mut b = Backend::new();
    let vm = VirtualMachine::new(&mut b).unwrap();

    // Allocate 0x1000 bytes; the allocation is rounded up to a whole page.
    let mut mem = vm.memory_create(&mut b, 0x1000).unwrap();
    assert_eq!(mem.size(), PAGE_SIZE);

    // Map at guest address 0x4000 with read-write-execute permissions.
    assert_eq!(mem.map(&mut b, 0x4000, MemPerms::ReadWriteExec), Ok(()));

    // Write a little-endian 32-bit value at offset 0x345 and read it back.
    assert_eq!(mem.write_u32(0x4000 + 0x345, 0xdeadbeef), Ok(()));
    assert_eq!(mem.read_u32(0x4000 + 0x345), Ok(0xdeadbeef));

    // The bytes are visible little-endian through the direct host view.
    assert_eq!(mem.host_bytes()[0x345], 0xef);
    assert_eq!(mem.host_bytes()[0x346], 0xbe);
    assert_eq!(mem.host_bytes()[0x347], 0xad);
    assert_eq!(mem.host_bytes()[0x348], 0xde);

    // After unmapping, reads fail with the "not mapped" error kind.
    assert_eq!(mem.unmap(&mut b), Ok(()));
    assert_eq!(mem.read_u32(0x4000 + 0x345), Err(HypervisorError::Error));
}

#[test]
fn releasing_a_mapped_memory_unmaps_it() {
    let mut b = Backend::new();
    let vm = VirtualMachine::new(&mut b).unwrap();
    let mut mem = vm.memory_create(&mut b, 0x1000).unwrap();
    assert_eq!(mem.map(&mut b, 0x4000, MemPerms::RW), Ok(()));
    // Releasing the object unmaps the region, so a fresh mapping can take
    // the same guest address.
    assert_eq!(mem.release(&mut b), Ok(()));
    let mut mem2 = vm.memory_create(&mut b, 0x1000).unwrap();
    assert_eq!(mem2.map(&mut b, 0x4000, MemPerms::RW), Ok(()));
}

#[test]
fn map_unmap_map_round_trips_data() {
    let mut b = Backend::new();
    let vm = VirtualMachine::new(&mut b).unwrap();
    let mut mem = vm.memory_create(&mut b, 0x1000).unwrap();

    // Map, write a pattern, unmap.
    assert_eq!(mem.map(&mut b, 0x4000, MemPerms::RW), Ok(()));
    assert_eq!(mem.write_u64(0x4100, 0x0123456789abcdef), Ok(()));
    assert_eq!(mem.unmap(&mut b), Ok(()));

    // Remapping succeeds, at the old and at a new address, and the data
    // written before the unmap reads back unchanged.
    assert_eq!(mem.map(&mut b, 0x4000, MemPerms::RW), Ok(()));
    assert_eq!(mem.read_u64(0x4100), Ok(0x0123456789abcdef));
    assert_eq!(mem.unmap(&mut b), Ok(()));
    assert_eq!(mem.map(&mut b, 0xc000, MemPerms::RW), Ok(()));
    assert_eq!(mem.read_u64(0xc100), Ok(0x0123456789abcdef));
}
