use aspawn::lowlevel::{Stack, StackBox};

#[test]
fn test_stack_init() {
    let _stack = Stack::new();
}

#[test]
fn test_stack_impossible_alloc() {
    let mut stack = Stack::new();

    let mut allocator = stack.reserve(0, core::mem::size_of::<u64>()).unwrap();

    let _i1 = allocator.alloc_obj(1 as u64).unwrap();

    assert!(matches!(allocator.alloc_obj(2333), Result::Err(2333)));
}

#[test]
fn test_stack_reserve() {
    let mut stack = Stack::new();

    for _ in 0..3 {
        let mut allocator = stack
            .reserve(0, 200 * core::mem::size_of::<Box<i64>>())
            .unwrap();

        let mut vars = Vec::<StackBox<Box<i64>>>::new();

        // simulate allocating 100 variables on the stack
        for i in 0..100 {
            let mut b = allocator.alloc_obj(Box::new(i as i64)).unwrap();
            assert_eq!(**b.pin(), i as i64);
            b.set(Box::new(2000));
            assert_eq!(**b.pin(), 2000);

            vars.push(b);
        }

        for b in &vars {
            assert_eq!(**b.pin(), 2000);
        }
    }
}

#[test]
fn test_stackbox_pin() {
    let mut stack = Stack::new();

    {
        let mut allocator = stack.reserve(0, core::mem::size_of::<Box<i64>>()).unwrap();

        let b = allocator.alloc_obj(Box::new(2333)).unwrap();

        assert_eq!(**b.pin(), 2333);
    }
}

#[test]
fn test_arena_exact_fill() {
    let mut stack = Stack::new();
    let n: usize = 16;
    let mut allocator = stack.reserve(0, 8 * n).unwrap();

    for i in 0..n {
        assert!(allocator.alloc_obj(i as u64).is_ok());
    }
    assert_eq!(allocator.allocated_obj_size(), 8 * n);
    assert!(matches!(allocator.alloc_obj(99 as u64), Err(99)));
    assert_eq!(allocator.allocated_obj_size(), 8 * n);
}

#[test]
fn test_alloc_failure_changes_nothing() {
    let mut stack = Stack::new();
    let mut allocator = stack.reserve(0, 8).unwrap();

    let first = allocator.alloc_obj(7 as u64).unwrap();
    let before: usize = allocator.allocated_obj_size();

    assert!(matches!(allocator.alloc_obj(8 as u64), Err(8)));
    assert_eq!(allocator.allocated_obj_size(), before);
    assert_eq!(*first.pin(), 7);
    assert_eq!(allocator.reserved_obj_size(), 8);
}

#[test]
fn test_stackbox_into_inner() {
    let mut stack = Stack::new();
    let mut allocator = stack.reserve(0, 64).unwrap();

    let b = allocator.alloc_obj(String::from("staged")).unwrap();
    assert_eq!(b.into_inner(), "staged");
}

#[test]
fn test_reserve_minimum_region() {
    let mut stack = Stack::new();
    assert_eq!(stack.region_size(), 0);

    let allocator = stack.reserve(0, 100).unwrap();
    assert_eq!(stack.region_size(), 32 * 1024 + 100);
    assert_eq!(allocator.reserved_obj_size(), 100);
    assert_eq!(allocator.allocated_obj_size(), 0);

    // a smaller attempt keeps the larger region
    stack.reserve(0, 50).unwrap();
    assert_eq!(stack.region_size(), 32 * 1024 + 100);

    // a larger attempt grows it
    stack.reserve(4096, 100).unwrap();
    assert_eq!(stack.region_size(), 32 * 1024 + 4096 + 100);
}

#[test]
fn test_reserve_overflow_fails() {
    let mut stack = Stack::new();
    let err = stack.reserve(usize::MAX, usize::MAX).unwrap_err();
    assert_eq!(err.get_errno(), 12);
    assert_eq!(err.get_msg(), "Cannot allocate memory");
    // the failed attempt left the stack untouched
    assert_eq!(stack.region_size(), 0);
}
