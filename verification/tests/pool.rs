use aspawn::stacks_queue::{get, put, StackPool};
use aspawn::Stack;

#[test]
fn test_pool_empty_get() {
    let mut pool = StackPool::new();
    let stack = get(&mut pool);
    assert_eq!(stack.region_size(), 0);
}

#[test]
fn test_pool_reuse() {
    let mut pool = StackPool::new();

    let mut stack = Stack::new();
    let allocator = stack.reserve(0, 64).unwrap();
    drop(allocator);
    let region: usize = stack.region_size();
    assert!(region > 0);

    put(&mut pool, stack);
    let mut recycled = get(&mut pool);

    // the region came back intact: nothing to reserve anew
    assert_eq!(recycled.region_size(), region);
    let mut again = recycled.reserve(0, 64).unwrap();
    assert_eq!(recycled.region_size(), region);

    // and the recycled attempt behaves exactly as a fresh one
    let mut fresh = Stack::new();
    let mut fresh_alloc = fresh.reserve(0, 64).unwrap();
    assert_eq!(again.reserved_obj_size(), fresh_alloc.reserved_obj_size());
    assert_eq!(again.allocated_obj_size(), fresh_alloc.allocated_obj_size());
    assert!(again.alloc_obj(7 as u64).is_ok());
    assert!(fresh_alloc.alloc_obj(7 as u64).is_ok());
    assert_eq!(again.allocated_obj_size(), fresh_alloc.allocated_obj_size());
}

#[test]
fn test_pool_keeps_every_entry() {
    let mut pool = StackPool::new();

    let mut a = Stack::new();
    a.reserve(0, 16).unwrap();
    let size_a: usize = a.region_size();
    let mut b = Stack::new();
    b.reserve(0, 4096).unwrap();
    let size_b: usize = b.region_size();

    put(&mut pool, a);
    put(&mut pool, b);

    let first = get(&mut pool);
    let second = get(&mut pool);
    assert_eq!(first.region_size(), size_a);
    assert_eq!(second.region_size(), size_b);

    let third = get(&mut pool);
    assert_eq!(third.region_size(), 0);
}
