use wasmi_v1::memory::{MAX_PAGES, PAGE_SIZE};
use wasmi_v1::MemoryEntity;

#[test]
fn a_new_memory_is_zeroed() {
    let memory = MemoryEntity::new(2, None).unwrap();
    assert_eq!(memory.len(), 2 * PAGE_SIZE);
    assert_eq!(memory.current_pages(), 2);
    assert_eq!(memory.load(0, 8), Some(0));
    assert_eq!(memory.load((2 * PAGE_SIZE - 8) as u64, 8), Some(0));
}

#[test]
fn a_memory_cannot_start_beyond_its_maximum() {
    assert!(MemoryEntity::new(2, Some(1)).is_none());
    assert!(MemoryEntity::new(1, Some(1)).is_some());
    assert!(MemoryEntity::new(0, Some(0)).is_some());
    assert!(MemoryEntity::new(MAX_PAGES + 1, None).is_none());
}

#[test]
fn loads_and_stores_are_little_endian() {
    let mut memory = MemoryEntity::new(1, None).unwrap();
    assert!(memory.store(16, 8, 0x0102_0304_0506_0708));
    let mut bytes = vec![0u8; 8];
    assert!(memory.read(16, &mut bytes));
    assert_eq!(bytes, [8, 7, 6, 5, 4, 3, 2, 1]);
    assert_eq!(memory.load(16, 1), Some(0x08));
    assert_eq!(memory.load(16, 2), Some(0x0708));
    assert_eq!(memory.load(16, 4), Some(0x0506_0708));
    assert_eq!(memory.load(16, 8), Some(0x0102_0304_0506_0708));
    assert_eq!(memory.load(20, 4), Some(0x0102_0304));
}

#[test]
fn a_narrow_store_writes_the_low_bytes_only() {
    let mut memory = MemoryEntity::new(1, None).unwrap();
    assert!(memory.store(0, 8, u64::MAX));
    assert!(memory.store(2, 2, 0x1234_5678_9abc));
    assert_eq!(memory.load(0, 8), Some(0xffff_ffff_9abc_ffff));
    assert!(memory.store(7, 1, 0x100));
    assert_eq!(memory.load(0, 8), Some(0x00ff_ffff_9abc_ffff));
}

#[test]
fn storing_what_was_loaded_changes_nothing() {
    let mut memory = MemoryEntity::new(1, None).unwrap();
    let data: Vec<u8> = (0..64u8).map(|i| i.wrapping_mul(37).wrapping_add(11)).collect();
    assert!(memory.write(0, &data));
    for address in [0u64, 8, 16, 24, 56] {
        let loaded = memory.load(address, 8).unwrap();
        assert!(memory.store(address, 8, loaded));
        let mut after = vec![0u8; 64];
        assert!(memory.read(0, &mut after));
        assert_eq!(after, data);
    }
}

#[test]
fn loading_what_was_stored_gives_it_back() {
    let mut memory = MemoryEntity::new(1, None).unwrap();
    for value in [0u64, 1, 0x8000_0000_0000_0000, u64::MAX, 0x0123_4567_89ab_cdef] {
        assert!(memory.store(40, 8, value));
        assert_eq!(memory.load(40, 8), Some(value));
    }
    assert!(memory.store(40, 4, 0xdead_beef));
    assert_eq!(memory.load(40, 4), Some(0xdead_beef));
}

#[test]
fn an_access_beyond_the_end_is_out_of_bounds() {
    let mut memory = MemoryEntity::new(1, None).unwrap();
    let len = PAGE_SIZE as u64;
    assert_eq!(memory.load(len - 4, 4), Some(0));
    assert_eq!(memory.load(len - 3, 4), None);
    assert_eq!(memory.load(len, 1), None);
    assert_eq!(memory.load(u64::MAX, 8), None);
    assert!(memory.store(len - 8, 8, 1));
    assert!(!memory.store(len - 7, 8, 1));
    assert!(!memory.store(u64::MAX - 1, 2, 1));
    assert_eq!(memory.load(len - 8, 8), Some(1));
}

#[test]
fn an_access_of_no_bytes_is_in_bounds_up_to_the_end() {
    let mut memory = MemoryEntity::new(1, None).unwrap();
    let mut nothing = Vec::new();
    assert!(memory.read(0, &mut nothing));
    assert!(memory.read(PAGE_SIZE, &mut nothing));
    assert!(!memory.read(PAGE_SIZE + 1, &mut nothing));
    assert!(memory.write(PAGE_SIZE, &vec![]));
    assert!(!memory.write(PAGE_SIZE + 1, &vec![]));
    assert!(!memory.write(PAGE_SIZE, &vec![1]));
}

#[test]
fn growing_returns_the_old_size_and_keeps_the_bytes() {
    let mut memory = MemoryEntity::new(1, Some(3)).unwrap();
    assert!(memory.store(100, 4, 0xcafe_f00d));
    assert_eq!(memory.grow(1), Some(1));
    assert_eq!(memory.current_pages(), 2);
    assert_eq!(memory.load(100, 4), Some(0xcafe_f00d));
    assert_eq!(memory.load(PAGE_SIZE as u64, 8), Some(0));
    assert_eq!(memory.grow(0), Some(2));
    assert_eq!(memory.grow(2), None);
    assert_eq!(memory.current_pages(), 2);
    assert_eq!(memory.grow(1), Some(2));
    assert_eq!(memory.grow(1), None);
    assert_eq!(memory.len(), 3 * PAGE_SIZE);
}
