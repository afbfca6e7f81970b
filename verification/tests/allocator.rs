//! Allocator safety and linear-memory behavior.

use wasm_executor::allocator::{AllocError, GuestAllocator};
use wasm_executor::memory::{LinearMemory, MemoryError, PAGE_SIZE};
use wasm_executor::values::Pointer;

fn fresh_memory(pages: u32, max_pages: u32) -> LinearMemory {
    LinearMemory::new(pages, max_pages).unwrap()
}

#[test]
fn live_allocations_never_overlap() {
    let mut mem = fresh_memory(1, 4);
    let mut heap = GuestAllocator::new(4096);
    let a = heap.allocate(&mut mem, 100).unwrap().raw();
    let b = heap.allocate(&mut mem, 100).unwrap().raw();
    let c = heap.allocate(&mut mem, 1).unwrap().raw();
    // Each block's size class holds at least its request, so ranges of the
    // requested lengths must be pairwise disjoint.
    let ranges = [(a, 100u32), (b, 100u32), (c, 1u32)];
    for (i, (start_i, len_i)) in ranges.iter().enumerate() {
        for (j, (start_j, len_j)) in ranges.iter().enumerate() {
            if i != j {
                assert!(start_i + len_i <= *start_j || start_j + len_j <= *start_i);
            }
        }
    }
}

#[test]
fn deallocate_then_reuse_same_class() {
    let mut mem = fresh_memory(1, 4);
    let mut heap = GuestAllocator::new(1024);
    let a = heap.allocate(&mut mem, 64).unwrap();
    heap.deallocate(a).unwrap();
    let b = heap.allocate(&mut mem, 64).unwrap();
    // The freed block's size class is consulted before bumping further.
    assert_eq!(a.raw(), b.raw());
}

#[test]
fn double_free_is_an_error_and_leaves_others_intact() {
    let mut mem = fresh_memory(1, 4);
    let mut heap = GuestAllocator::new(1024);
    let a = heap.allocate(&mut mem, 8).unwrap();
    let b = heap.allocate(&mut mem, 8).unwrap();
    assert_eq!(heap.deallocate(a), Ok(()));
    assert_eq!(heap.deallocate(a), Err(AllocError::DoubleFree));
    // The other allocation is untouched: freeing it still works once.
    assert_eq!(heap.deallocate(b), Ok(()));
    assert_eq!(heap.deallocate(b), Err(AllocError::DoubleFree));
}

#[test]
fn freeing_foreign_or_null_pointers_is_an_error() {
    let mut mem = fresh_memory(1, 4);
    let mut heap = GuestAllocator::new(1024);
    let _ = heap.allocate(&mut mem, 8).unwrap();
    assert_eq!(heap.deallocate(Pointer::new(0)), Err(AllocError::InvalidPointer));
    assert_eq!(heap.deallocate(Pointer::new(12345)), Err(AllocError::InvalidPointer));
}

#[test]
fn zero_length_allocation_is_a_valid_distinct_pointer() {
    let mut mem = fresh_memory(1, 4);
    let mut heap = GuestAllocator::new(1024);
    let a = heap.allocate(&mut mem, 0).unwrap();
    let b = heap.allocate(&mut mem, 0).unwrap();
    assert_ne!(a.raw(), 0);
    assert_ne!(a.raw(), b.raw());
    assert_eq!(heap.deallocate(a), Ok(()));
    assert_eq!(heap.deallocate(b), Ok(()));
}

#[test]
fn allocation_grows_memory_on_demand() {
    let mut mem = fresh_memory(1, 4);
    let mut heap = GuestAllocator::new(PAGE_SIZE - 16);
    assert_eq!(mem.byte_len(), PAGE_SIZE);
    let a = heap.allocate(&mut mem, 4000).unwrap();
    assert!(mem.byte_len() > PAGE_SIZE);
    assert!(a.raw() as u64 + 4000 <= mem.byte_len() as u64);
}

#[test]
fn refused_growth_is_out_of_memory() {
    let mut mem = fresh_memory(1, 1);
    let mut heap = GuestAllocator::new(8);
    // One page holds a 32-kilobyte and a 16-kilobyte block above the heap
    // base, but the page limit of one refuses another 32-kilobyte block.
    assert!(heap.allocate(&mut mem, 32768).is_ok());
    assert!(heap.allocate(&mut mem, 16000).is_ok());
    assert_eq!(heap.allocate(&mut mem, 32768).map(|p| p.raw()), Err(AllocError::OutOfMemory));
    // An oversize request is refused outright.
    assert_eq!(
        heap.allocate(&mut mem, u32::MAX).map(|p| p.raw()),
        Err(AllocError::OutOfMemory)
    );
}

#[test]
fn memory_reads_and_writes_are_bounds_checked() {
    let mut mem = fresh_memory(1, 1);
    assert_eq!(mem.write(0, &[1, 2, 3]), Ok(()));
    assert_eq!(mem.read(0, 3).unwrap(), vec![1, 2, 3]);
    assert_eq!(mem.read(PAGE_SIZE - 1, 1).unwrap(), vec![0]);
    assert_eq!(mem.read(PAGE_SIZE - 1, 2), Err(MemoryError::OutOfBounds));
    assert_eq!(mem.write(PAGE_SIZE - 1, &[1, 2]), Err(MemoryError::OutOfBounds));
    // The failed write changed nothing.
    assert_eq!(mem.read(PAGE_SIZE - 1, 1).unwrap(), vec![0]);
}

#[test]
fn memory_reset_zeroes_contents() {
    let mut mem = fresh_memory(1, 2);
    mem.write(10, &[9, 9, 9]).unwrap();
    mem.reset(2).unwrap();
    assert_eq!(mem.byte_len(), 2 * PAGE_SIZE);
    assert_eq!(mem.read(10, 3).unwrap(), vec![0, 0, 0]);
    assert_eq!(mem.reset(3), Err(MemoryError::CapacityExceeded));
}

#[test]
fn memory_growth_is_limited_and_zero_filled() {
    let mut mem = fresh_memory(1, 2);
    mem.write(0, &[7]).unwrap();
    assert_eq!(mem.grow(1), Ok(()));
    assert_eq!(mem.read(0, 1).unwrap(), vec![7]);
    assert_eq!(mem.read(PAGE_SIZE, 4).unwrap(), vec![0, 0, 0, 0]);
    assert_eq!(mem.grow(1), Err(MemoryError::CapacityExceeded));
}
