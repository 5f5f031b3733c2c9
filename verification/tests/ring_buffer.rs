use devkit::device::base::{CycleQueue, DynCycleQueue};

#[test]
fn capacity_four_holds_three_and_rejects_the_fourth() {
    let mut q: DynCycleQueue<u8> = DynCycleQueue::new(4);
    assert!(q.push(b'A').is_ok());
    assert!(q.push(b'B').is_ok());
    assert!(q.push(b'C').is_ok());
    assert_eq!(q.push(b'D'), Err(b'D'));
    let evicted = q.force_push(b'D');
    assert_eq!(evicted, Some(b'A'));
    assert_eq!(q.pop(), Some(b'B'));
    assert_eq!(q.pop(), Some(b'C'));
    assert_eq!(q.pop(), Some(b'D'));
    assert_eq!(q.pop(), None);
}

#[test]
fn fifo_order_is_preserved_across_wraparound() {
    let mut q: DynCycleQueue<u32> = DynCycleQueue::new(4);
    for round in 0..5u32 {
        assert!(q.push(round * 2).is_ok());
        assert!(q.push(round * 2 + 1).is_ok());
        assert_eq!(q.pop(), Some(round * 2));
        assert_eq!(q.pop(), Some(round * 2 + 1));
    }
    assert!(q.empty());
}

#[test]
fn pop_on_empty_yields_none() {
    let mut q: DynCycleQueue<u8> = DynCycleQueue::new(8);
    assert_eq!(q.pop(), None);
}

#[test]
fn length_and_free_len_are_derived_from_the_content() {
    let mut q: DynCycleQueue<u8> = DynCycleQueue::new(5);
    assert_eq!(q.length(), 0);
    assert_eq!(q.free_len(), 4);
    assert!(q.push(1).is_ok());
    assert!(q.push(2).is_ok());
    assert_eq!(q.length(), 2);
    assert_eq!(q.free_len(), 2);
    assert!(!q.empty());
    assert!(!q.full());
    assert!(q.push(3).is_ok());
    assert!(q.push(4).is_ok());
    assert!(q.full());
    assert_eq!(q.free_len(), 0);
}

#[test]
fn clean_empties_without_reallocating() {
    let mut q: DynCycleQueue<u8> = DynCycleQueue::new(4);
    assert!(q.push(1).is_ok());
    assert!(q.push(2).is_ok());
    q.clean();
    assert!(q.empty());
    assert_eq!(q.length(), 0);
    assert_eq!(q.pop(), None);
    assert!(q.push(9).is_ok());
    assert_eq!(q.pop(), Some(9));
}

#[test]
fn resize_discards_the_content() {
    let mut q: DynCycleQueue<u8> = DynCycleQueue::new(4);
    assert!(q.push(1).is_ok());
    q.resize(8);
    assert!(q.empty());
    assert_eq!(q.free_len(), 7);
}

#[test]
fn force_push_on_a_buffer_with_room_evicts_nothing() {
    let mut q: DynCycleQueue<u8> = DynCycleQueue::new(4);
    assert_eq!(q.force_push(1), None);
    assert_eq!(q.force_push(2), None);
    assert_eq!(q.pop(), Some(1));
}

#[test]
fn fixed_capacity_queue_behaves_like_the_dynamic_one() {
    let mut q: CycleQueue<u8, 4> = CycleQueue::new();
    assert!(q.empty());
    assert_eq!(q.free_len(), 3);
    assert!(q.push(b'A').is_ok());
    assert!(q.push(b'B').is_ok());
    assert!(q.push(b'C').is_ok());
    assert!(q.full());
    assert_eq!(q.push(b'D'), Err(b'D'));
    assert_eq!(q.force_push(b'D'), Some(b'A'));
    assert_eq!(q.length(), 3);
    assert_eq!(q.pop(), Some(b'B'));
    q.clean();
    assert!(q.empty());
}
