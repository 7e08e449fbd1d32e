use native_engine::memory_view::{Atomically, MemoryView, NonAtomically};
use std::sync::atomic::{AtomicI32, AtomicU64};

#[test]
fn new_view_keeps_region() {
    let v: MemoryView<i32, NonAtomically> = MemoryView::new(4096, 16);
    assert_eq!(v.addr(), 4096);
    assert_eq!(v.len(), 16);
}

#[test]
fn atomic_view_same_region() {
    let v: MemoryView<i32> = MemoryView::new(0x1000, 343);
    let a: MemoryView<AtomicI32, Atomically> = v.atomically();
    assert_eq!(a.addr(), 0x1000);
    assert_eq!(a.len(), 343);
    assert_eq!(a.addr(), v.addr());
    assert_eq!(a.len(), v.len());
}

#[test]
fn atomic_view_of_wide_elements() {
    let v: MemoryView<u64> = MemoryView::new(8, u32::MAX);
    let a: MemoryView<AtomicU64, Atomically> = v.atomically();
    assert_eq!(a.len(), u32::MAX as usize);
    assert_eq!(a.addr(), 8);
}

#[test]
fn empty_view() {
    let v: MemoryView<u8> = MemoryView::new(0, 0);
    assert_eq!(v.atomically().len(), 0);
}

#[test]
fn atomic_round_trip_same_region() {
    let v: MemoryView<i32> = MemoryView::new(0x2000, 64);
    let a = v.atomically();
    let back: MemoryView<i32, NonAtomically> = a.non_atomically::<i32>();
    assert_eq!(back.addr(), v.addr());
    assert_eq!(back.len(), v.len());
}

#[test]
fn atomic_round_trip_unsigned_bytes() {
    let v: MemoryView<u8> = MemoryView::new(1, 3);
    let back = v.atomically().non_atomically::<u8>();
    assert_eq!((back.addr(), back.len()), (1, 3));
}
