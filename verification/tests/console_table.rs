use vmm_ivc::HvError;
use vmm_ivc::PAGE_SIZE;
use vmm_ivc::console::ConsoleBuffer;
use vmm_ivc::console::ConsoleConnectionManager;
use vmm_ivc::palloc::PageAllocator;

#[test]
fn allocator_hands_out_distinct_aligned_ranges() {
    let mut pal = PageAllocator::new();
    let a = pal.allocate(1).unwrap();
    let b = pal.allocate(3).unwrap();
    assert_ne!(a, 0);
    assert_ne!(b, 0);
    assert_ne!(a, b);
    assert_eq!(a % PAGE_SIZE, 0);
    assert_eq!(b % PAGE_SIZE, 0);
    assert_eq!(pal.live_count(), 2);
    assert!(pal.holds(a));
    pal.free(a, 1);
    assert!(!pal.holds(a));
    assert_eq!(pal.live_count(), 1);
}

#[test]
fn allocator_rejects_empty_request() {
    let mut pal = PageAllocator::new();
    assert_eq!(pal.allocate(0), Err(HvError::OutOfMemory));
    assert_eq!(pal.live_count(), 0);
}

#[test]
fn buffer_size_is_page_rounded() {
    let mut pal = PageAllocator::new();
    let buf = ConsoleBuffer::allocate(&mut pal, 5000, 1, 2).unwrap();
    assert_eq!(buf.buffer_size, 2 * PAGE_SIZE);
    assert_eq!(buf.owner_vm_id, 1);
    assert_eq!(buf.peer_vm_id, 2);
    assert_eq!(buf.buffer_base % PAGE_SIZE, 0);
    let exact = ConsoleBuffer::allocate(&mut pal, PAGE_SIZE, 2, 1).unwrap();
    assert_eq!(exact.buffer_size, PAGE_SIZE);
}

#[test]
fn allocator_anchored_at_arena_base() {
    let mut pal = PageAllocator::with_base(0x8000_0000);
    let a = pal.allocate(1).unwrap();
    assert_eq!(a, 0x8000_0000);
    let b = pal.allocate(2).unwrap();
    assert_eq!(b, 0x8000_1000);
    pal.free(a, 1);
    let c = pal.allocate(1).unwrap();
    // The watermark never revisits a freed range.
    assert_eq!(c, 0x8000_3000);
    assert_eq!(pal.live_count(), 2);
}

#[test]
fn establish_partial_failure_releases_first_buffer() {
    let mut pal = PageAllocator::new();
    let mut mgr = ConsoleConnectionManager::new();
    // Push the watermark so that exactly one more page fits.
    let filler = usize::MAX / PAGE_SIZE - 2;
    pal.allocate(filler).unwrap();
    assert_eq!(pal.live_count(), 1);
    let r = mgr.establish_connection(&mut pal, 1, 2, 4096);
    assert_eq!(r, Err(HvError::OutOfMemory));
    // The first buffer's allocation was released again: nothing leaked.
    assert_eq!(pal.live_count(), 1);
    assert!(!pal.holds(usize::MAX - 8191));
    assert!(mgr.get_buffers(1, 2).is_none());
}

#[test]
fn zero_sized_connection_is_out_of_memory() {
    let mut pal = PageAllocator::new();
    let mut mgr = ConsoleConnectionManager::new();
    let r = mgr.establish_connection(&mut pal, 1, 2, 0);
    assert_eq!(r, Err(HvError::OutOfMemory));
    assert!(mgr.get_buffers(1, 2).is_none());
}

#[test]
fn connection_to_self_is_invalid_input() {
    let mut pal = PageAllocator::new();
    let mut mgr = ConsoleConnectionManager::new();
    let r = mgr.establish_connection(&mut pal, 5, 5, 4096);
    assert_eq!(r, Err(HvError::InvalidInput));
    assert_eq!(pal.live_count(), 0);
}

#[test]
fn lookup_is_symmetric_with_mirrored_buffers() {
    let mut pal = PageAllocator::new();
    let mut mgr = ConsoleConnectionManager::new();
    let (b12, b21) = mgr.establish_connection(&mut pal, 1, 2, 4096).unwrap();
    let (f, r) = mgr.get_buffers(1, 2).unwrap();
    assert_eq!(f, b12);
    assert_eq!(r, b21);
    let (f2, r2) = mgr.get_buffers(2, 1).unwrap();
    assert_eq!(f2, b21);
    assert_eq!(r2, b12);
    assert_eq!(f.owner_vm_id, 1);
    assert_eq!(f.peer_vm_id, 2);
    assert_eq!(r.owner_vm_id, 2);
    assert_eq!(r.peer_vm_id, 1);
    mgr.remove_connection(&mut pal, 2, 1);
    assert!(mgr.get_buffers(1, 2).is_none());
    assert!(mgr.get_buffers(2, 1).is_none());
}

#[test]
fn remove_of_absent_pair_is_silent_noop() {
    let mut pal = PageAllocator::new();
    let mut mgr = ConsoleConnectionManager::new();
    mgr.remove_connection(&mut pal, 7, 9);
    let (b12, _b21) = mgr.establish_connection(&mut pal, 1, 2, 4096).unwrap();
    mgr.remove_connection(&mut pal, 3, 4);
    let (f, _) = mgr.get_buffers(1, 2).unwrap();
    assert_eq!(f, b12);
    assert_eq!(pal.live_count(), 2);
}

#[test]
fn refcount_keeps_buffers_until_last_remove() {
    let mut pal = PageAllocator::new();
    let mut mgr = ConsoleConnectionManager::new();
    let first = mgr.establish_connection(&mut pal, 1, 2, 4096).unwrap();
    let second = mgr.establish_connection(&mut pal, 1, 2, 4096).unwrap();
    assert_eq!(first, second);
    assert_eq!(pal.live_count(), 2);
    mgr.remove_connection(&mut pal, 1, 2);
    let (f, r) = mgr.get_buffers(1, 2).unwrap();
    assert_eq!((f, r), first);
    assert!(pal.holds(f.buffer_base));
    assert!(pal.holds(r.buffer_base));
    mgr.remove_connection(&mut pal, 1, 2);
    assert!(mgr.get_buffers(1, 2).is_none());
    assert!(!pal.holds(f.buffer_base));
    assert!(!pal.holds(r.buffer_base));
    assert_eq!(pal.live_count(), 0);
}

#[test]
fn scenario_establish_twice_remove_twice() {
    let mut pal = PageAllocator::new();
    let mut mgr = ConsoleConnectionManager::new();
    mgr.establish_connection(&mut pal, 1, 2, 4096).unwrap();
    mgr.establish_connection(&mut pal, 1, 2, 4096).unwrap();
    mgr.remove_connection(&mut pal, 1, 2);
    let (f, r) = mgr.get_buffers(1, 2).expect("still connected after one remove");
    assert_ne!(f.buffer_base, 0);
    assert_ne!(r.buffer_base, 0);
    mgr.remove_connection(&mut pal, 1, 2);
    assert!(mgr.get_buffers(1, 2).is_none());
}

#[test]
fn reuse_from_either_side_never_reallocates() {
    let mut pal = PageAllocator::new();
    let mut mgr = ConsoleConnectionManager::new();
    let (b12, b21) = mgr.establish_connection(&mut pal, 1, 2, 4096).unwrap();
    let live_after_first = pal.live_count();
    let (c21, c12) = mgr.establish_connection(&mut pal, 2, 1, 4096).unwrap();
    assert_eq!(pal.live_count(), live_after_first);
    assert_eq!(c21.buffer_base, b21.buffer_base);
    assert_eq!(c12.buffer_base, b12.buffer_base);
    assert_eq!(c21, b21);
    assert_eq!(c12, b12);
}

#[test]
fn distinct_pairs_get_distinct_memory() {
    let mut pal = PageAllocator::new();
    let mut mgr = ConsoleConnectionManager::new();
    let (a, b) = mgr.establish_connection(&mut pal, 1, 2, 4096).unwrap();
    let (c, d) = mgr.establish_connection(&mut pal, 1, 3, 4096).unwrap();
    let bases = [a.buffer_base, b.buffer_base, c.buffer_base, d.buffer_base];
    for i in 0..4 {
        for j in 0..4 {
            if i != j {
                assert_ne!(bases[i], bases[j]);
            }
        }
    }
    assert_eq!(pal.live_count(), 4);
}
