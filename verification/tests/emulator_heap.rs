use barracuda::emulator_heap::{EmulatorHeap, HeapAddress, HeapError};

#[test]
fn test_malloc() {
    let mut heap = EmulatorHeap::new();
    let address_a = heap.malloc(256).unwrap();
    let address_b = heap.malloc(256).unwrap();
    let address_c = heap.malloc(256).unwrap();

    assert_eq!(address_a, 0x00_00_00_00__00_00_00_00);
    assert_eq!(address_b, 0x00_01_00_00__00_00_00_00);
    assert_eq!(address_c, 0x00_02_00_00__00_00_00_00);
}

#[test]
fn test_max_malloc_byte_size() {
    let mut heap = EmulatorHeap::new();
    heap.malloc((u64::pow(2, 48) + 1) as usize)
        .expect_err("Should fail to allocate the region");
}

#[test]
fn test_max_alloc_regions() {
    let mut heap = EmulatorHeap::new();

    for _i in 0..usize::pow(2, 16) {
        heap.malloc(0).unwrap();
    }

    heap.malloc(0)
        .expect_err("Should fail to allocate the region");
}

#[test]
fn test_free_region() {
    let mut heap = EmulatorHeap::new();
    let memory_addr = heap.malloc(256).unwrap();
    heap.free(memory_addr).expect("Testing free region");
    heap.free(memory_addr).expect_err("Testing double free region");
}

#[test]
fn test_write_read() {
    let mut heap = EmulatorHeap::new();
    let address_start = heap.malloc(256).unwrap();
    let address_mid = address_start + 128;
    let address_end = address_start + 255;

    let expected_value: u8 = 42;
    let _ = heap.write(address_start, expected_value);
    let _ = heap.write(address_end, expected_value);

    assert_eq!(expected_value, heap.read(address_start).unwrap());
    assert_eq!(0, heap.read(address_mid).unwrap());
    assert_eq!(expected_value, heap.read(address_end).unwrap());
}

#[test]
fn test_invalid_write() {
    let mut heap = EmulatorHeap::new();
    let byte_count = 10;
    let address_start = heap.malloc(byte_count).unwrap();
    let valid_address = address_start + byte_count - 1;
    let invalid_address = valid_address + 1;

    heap.write(valid_address, 42).expect("Testing valid write");
    heap.write(invalid_address, 42).expect_err("Testing invalid write");
}

#[test]
fn test_invalid_read() {
    let mut heap = EmulatorHeap::new();
    let byte_count = 10;
    let address_start = heap.malloc(byte_count).unwrap();
    let valid_address = address_start + byte_count - 1;
    let invalid_address = valid_address + 1;

    heap.read(valid_address).expect("Testing valid read");
    heap.read(invalid_address).expect_err("Testing invalid read");
}

#[test]
fn test_memset() {
    let mut heap = EmulatorHeap::new();
    let address_start = heap.malloc(256).unwrap();
    let buffer_start = address_start + 128;
    let byte_count: usize = 64;
    let _ = heap.memset(buffer_start, 42, byte_count);

    for i in 0..byte_count {
        let value = heap.read(buffer_start + i).unwrap();
        assert_eq!(value, 42);
    }
    let value = heap.read(buffer_start + byte_count).unwrap();
    assert_eq!(value, 0);
}

#[test]
fn test_memcpy() {
    let mut heap = EmulatorHeap::new();
    let address_src = heap.malloc(256).unwrap();
    let address_dest = heap.malloc(256).unwrap();
    let byte_count: usize = 64;

    for i in 0..byte_count {
        let _ = heap.write(address_src + i, i as u8);
    }

    heap.memcpy(address_dest, address_src, byte_count).unwrap();

    for i in 0..byte_count {
        let value = heap.read(address_dest + i).unwrap();
        assert_eq!(value, i as u8);
    }

    let value = heap.read(address_dest + byte_count).unwrap();
    assert_eq!(value, 0);
}

#[test]
fn heap_error_kinds() {
    let mut heap = EmulatorHeap::new();
    assert_eq!(heap.read(0), Err(HeapError::RegionNotFound));
    assert_eq!(heap.free(0), Err(HeapError::AlreadyFree));
    assert_eq!(heap.malloc(1 << 48), Err(HeapError::CapacityTooLarge));
    let a = heap.malloc(4).unwrap();
    assert_eq!(heap.write(a + 4, 1), Err(HeapError::OutOfBounds));
    assert_eq!(heap.memset(a + 2, 7, 3), Err(HeapError::OutOfBounds));
    assert_eq!(heap.memset(a + 1, 7, 3), Ok(()));
    assert_eq!(heap.read(a), Ok(0));
    assert_eq!(heap.read(a + 3), Ok(7));
}

#[test]
fn heap_region_indices_wrap_after_free() {
    let mut heap = EmulatorHeap::new();
    let first = heap.malloc(1).unwrap();
    for _i in 1..usize::pow(2, 16) {
        heap.malloc(0).unwrap();
    }
    assert_eq!(heap.malloc(0), Err(HeapError::AllRegionsAllocated));
    heap.free(first).unwrap();
    assert_eq!(heap.malloc(8), Ok(0));
}

#[test]
fn heap_word_roundtrip() {
    let mut heap = EmulatorHeap::new();
    let a = heap.malloc(16).unwrap();
    heap.write_word(a + 3, 0x0102_0304_0506_0708).unwrap();
    assert_eq!(heap.read(a + 3), Ok(0x08));
    assert_eq!(heap.read(a + 10), Ok(0x01));
    assert_eq!(heap.read_word(a + 3), Ok(0x0102_0304_0506_0708));
    assert_eq!(heap.write_word(a + 9, 1), Err(HeapError::OutOfBounds));
    assert_eq!(heap.read_word(a + 9), Err(HeapError::OutOfBounds));
}

#[test]
fn heap_address_parts() {
    let address = HeapAddress::from_virtual(0x0003_0000_0000_0010);
    assert_eq!(address.region_index(), 3);
    assert_eq!(address.byte_index(), 0x10);
    assert_eq!(address.virtual_addr(), 0x0003_0000_0000_0010);
    assert_eq!(HeapAddress::from_real(7, 0xFFFF_0000_0000_0001).byte_index(), 1);
    assert_eq!(HeapAddress::from_real(0xFFFF, 5).next_region().region_index(), 0);
    assert_eq!(HeapAddress::from_real(4, 5).next_region().virtual_addr(), 0x0005_0000_0000_0000);
    assert_eq!(HeapAddress::max_region_count(), 65536);
    assert_eq!(HeapAddress::max_byte_count(), 1 << 48);
}

#[test]
fn memcpy_within_one_region() {
    let mut heap = EmulatorHeap::new();
    let p = heap.malloc(256).unwrap();
    for i in 0..8usize {
        heap.write(p + i, i as u8).unwrap();
    }
    heap.memcpy(p + 100, p, 8).unwrap();
    for i in 0..8usize {
        assert_eq!(heap.read(p + 100 + i).unwrap(), i as u8);
    }
    // overlapping ranges copy the bytes as they were before the copy
    heap.memcpy(p + 2, p, 8).unwrap();
    for i in 0..8usize {
        assert_eq!(heap.read(p + 2 + i).unwrap(), i as u8);
    }
}
