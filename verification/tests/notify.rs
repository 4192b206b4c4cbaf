use aspawn::signal_fd::ExitTable;
use aspawn::ExitInfo;

#[test]
fn test_exit_info_exit_status() {
    let info = ExitInfo::new(1000, 23 << 8, 7, 9);
    assert_eq!(info.get_exit_status(), Some(23));
    assert_eq!(info.get_term_sig(), None);
    assert_eq!(info.get_uid(), 1000);
    assert_eq!(info.get_utime(), 7);
    assert_eq!(info.get_stime(), 9);
}

#[test]
fn test_exit_info_term_sig() {
    let info = ExitInfo::new(0, 9, 0, 0);
    assert_eq!(info.get_exit_status(), None);
    assert_eq!(info.get_term_sig(), Some(9));
}

#[test]
fn test_exit_info_zero_status() {
    let info = ExitInfo::new(0, 0, 0, 0);
    assert_eq!(info.get_exit_status(), Some(0));
    assert_eq!(info.get_term_sig(), None);
}

#[test]
fn test_exit_delivery() {
    // five children exiting in rapid succession, each with a distinct
    // status code, delivered in an arbitrary wait order
    let mut table = ExitTable::new();
    let mut reaped: Vec<(i32, ExitInfo)> = Vec::new();
    for k in 0..5 {
        reaped.push((100 + k, ExitInfo::new(0, k << 8, 0, 0)));
    }
    table.record_reaped(&reaped);

    for k in [3, 0, 4, 2, 1] {
        let info = table.take_exit(100 + k).expect("a reaped child has an entry");
        assert_eq!(info.get_exit_status(), Some(k));
        // delivered exactly once
        assert!(table.take_exit(100 + k).is_none());
    }
}

#[test]
fn test_exit_table_query() {
    let mut table = ExitTable::new();
    assert!(table.query(7).is_none());

    let info = ExitInfo::new(42, 1 << 8, 0, 0);
    table.insert_exit(7, info);

    // a query does not consume the entry
    assert_eq!(table.query(7).unwrap().get_uid(), 42);
    assert_eq!(table.query(7).unwrap().get_uid(), 42);

    // delivery does
    assert_eq!(table.take_exit(7).unwrap().get_uid(), 42);
    assert!(table.query(7).is_none());
    assert!(table.take_exit(7).is_none());
}

#[test]
fn test_exit_delivery_overwrites_by_order() {
    // the same pid reaped twice keeps the later record, in reaping order
    let mut table = ExitTable::new();
    let reaped = vec![
        (5, ExitInfo::new(0, 1 << 8, 0, 0)),
        (5, ExitInfo::new(0, 2 << 8, 0, 0)),
    ];
    table.record_reaped(&reaped);
    assert_eq!(table.take_exit(5).unwrap().get_exit_status(), Some(2));
}
