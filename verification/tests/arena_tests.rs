use splitnode::arena::{
    Allocation, Arena, OutOfMemory, CENTRAL_ARENA_BYTES, PERIPHERAL_ARENA_BYTES,
};

#[test]
fn requests_within_what_is_claimed_succeed() {
    let mut arena = Arena::new(100, 0).unwrap();
    let a = arena.allocate(60, 8).unwrap();
    let b = arena.allocate(40, 4).unwrap();
    assert_eq!(a, Allocation { slot: 0, size: 60, align: 8 });
    assert_eq!(b, Allocation { slot: 1, size: 40, align: 4 });
    assert_eq!(arena.in_use(), 100);
    assert_eq!(arena.capacity(), 100);
}

#[test]
fn the_first_request_beyond_capacity_fails() {
    let mut arena = Arena::new(100, 0).unwrap();
    arena.allocate(100, 1).unwrap();
    assert_eq!(arena.allocate(1, 1), Err(OutOfMemory));
    assert_eq!(arena.in_use(), 100);
    // A request of nothing still fits.
    assert!(arena.allocate(0, 1).is_ok());
}

#[test]
fn exhaustion_claims_the_reserve_once() {
    let mut arena = Arena::new(100, 50).unwrap();
    assert!(!arena.is_escalated());
    arena.allocate(100, 8).unwrap();
    assert_eq!(arena.claimed(), 100);
    // Does not fit in what is claimed: the reserve is claimed, and then it fits.
    arena.allocate(30, 8).unwrap();
    assert!(arena.is_escalated());
    assert_eq!(arena.claimed(), 150);
    assert_eq!(arena.capacity(), 150);
    // 130 in use: 21 more exceed the capacity, 20 do not.
    assert_eq!(arena.allocate(21, 1), Err(OutOfMemory));
    assert!(arena.allocate(20, 1).is_ok());
    assert_eq!(arena.in_use(), 150);
}

#[test]
fn a_failed_request_still_claims_the_reserve() {
    let mut arena = Arena::new(10, 5).unwrap();
    assert_eq!(arena.allocate(16, 1), Err(OutOfMemory));
    assert!(arena.is_escalated());
    assert_eq!(arena.claimed(), 15);
    assert_eq!(arena.capacity(), 15);
    assert_eq!(arena.in_use(), 0);
    assert!(arena.allocate(15, 1).is_ok());
}

#[test]
fn an_arena_that_claims_nothing_at_first_claims_on_first_use() {
    let mut arena = Arena::new(0, CENTRAL_ARENA_BYTES).unwrap();
    assert_eq!(arena.claimed(), 0);
    assert!(arena.allocate(64, 8).is_ok());
    assert_eq!(arena.claimed(), 5120);
    assert_eq!(arena.allocate(5120 - 64 + 1, 8), Err(OutOfMemory));
    assert!(arena.allocate(5120 - 64, 8).is_ok());
}

#[test]
fn a_peripheral_arena_serves_nothing() {
    let mut arena = Arena::new(PERIPHERAL_ARENA_BYTES, 0).unwrap();
    assert_eq!(arena.allocate(1, 1), Err(OutOfMemory));
}

#[test]
fn giving_back_makes_room() {
    let mut arena = Arena::new(100, 0).unwrap();
    let a = arena.allocate(70, 8).unwrap();
    assert_eq!(arena.allocate(40, 8), Err(OutOfMemory));
    assert!(arena.deallocate(a));
    assert_eq!(arena.in_use(), 0);
    let b = arena.allocate(40, 8).unwrap();
    // The freed slot is used again.
    assert_eq!(b.slot, 0);
    assert_eq!(arena.in_use(), 40);
}

#[test]
fn giving_back_twice_changes_nothing() {
    let mut arena = Arena::new(100, 0).unwrap();
    let a = arena.allocate(10, 1).unwrap();
    let b = arena.allocate(20, 1).unwrap();
    assert!(arena.is_live(&a));
    assert!(arena.deallocate(a));
    assert!(!arena.is_live(&a));
    assert!(!arena.deallocate(a));
    assert_eq!(arena.in_use(), 20);
    assert!(arena.is_live(&b));
}

#[test]
fn a_handle_that_names_nothing_is_refused() {
    let mut arena = Arena::new(100, 0).unwrap();
    let a = arena.allocate(10, 2).unwrap();
    assert!(!arena.deallocate(Allocation { slot: 5, size: 10, align: 2 }));
    assert!(!arena.deallocate(Allocation { slot: a.slot, size: 11, align: 2 }));
    assert!(!arena.deallocate(Allocation { slot: a.slot, size: 10, align: 4 }));
    assert_eq!(arena.in_use(), 10);
    assert!(arena.deallocate(a));
}

#[test]
fn the_first_free_slot_is_taken() {
    let mut arena = Arena::new(100, 0).unwrap();
    let a = arena.allocate(1, 1).unwrap();
    let b = arena.allocate(2, 1).unwrap();
    let c = arena.allocate(3, 1).unwrap();
    assert_eq!((a.slot, b.slot, c.slot), (0, 1, 2));
    arena.deallocate(b);
    arena.deallocate(a);
    assert_eq!(arena.allocate(4, 1).unwrap().slot, 0);
    assert_eq!(arena.allocate(5, 1).unwrap().slot, 1);
    assert_eq!(arena.allocate(6, 1).unwrap().slot, 3);
}

#[test]
fn a_capacity_beyond_the_word_is_refused() {
    assert!(Arena::new(usize::MAX, 1).is_none());
    assert!(Arena::new(usize::MAX, 0).is_some());
}

#[test]
fn a_request_whose_total_overflows_the_word_fails() {
    let mut arena = Arena::new(usize::MAX, 0).unwrap();
    arena.allocate(2, 1).unwrap();
    assert_eq!(arena.allocate(usize::MAX, 1), Err(OutOfMemory));
    assert_eq!(arena.in_use(), 2);
}

#[test]
fn any_run_within_capacity_succeeds() {
    let mut arena = Arena::new(64, 64).unwrap();
    let mut live: Vec<Allocation> = Vec::new();
    let sizes = [16usize, 32, 8, 48, 24, 40, 8, 16];
    let mut total = 0usize;
    for (i, size) in sizes.iter().enumerate() {
        if total + size > 128 {
            // Make room first: give back the oldest until the request fits.
            while total + size > 128 {
                let oldest = live.remove(0);
                assert!(arena.deallocate(oldest));
                total -= oldest.size;
            }
        }
        let handle = arena.allocate(*size, 1 << (i % 4)).unwrap();
        live.push(handle);
        total += size;
        assert_eq!(arena.in_use(), total);
    }
    assert_eq!(arena.allocate(128 - total + 1, 1), Err(OutOfMemory));
}
