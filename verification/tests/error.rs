use aspawn::error::{get_errno_msgs, SyscallError, ERRNO_MSGS_SZ};
use aspawn::toResult;

#[test]
fn test_get_errno_msgs() {
    println!("{:#?}", get_errno_msgs());
}

#[test]
fn test_to_result_values() {
    assert_eq!(toResult(0).unwrap(), 0);
    assert_eq!(toResult(5).unwrap(), 5);

    let e = toResult(-2).unwrap_err();
    assert_eq!(e.get_errno(), 2);
    assert_eq!(e.get_msg(), "No such file or directory");

    let e = toResult(-13).unwrap_err();
    assert_eq!(e.get_errno(), 13);
    assert_eq!(e.get_msg(), "Permission denied");
}

#[test]
fn test_errno_msg_round_trip() {
    // every table entry is non-empty and stable across repeated lookups
    for errno in 1..=ERRNO_MSGS_SZ {
        let first = SyscallError::new(errno).get_msg();
        let second = SyscallError::new(errno).get_msg();
        assert!(!first.is_empty());
        assert_eq!(first, second);
        assert_eq!(SyscallError::new(errno).get_errno(), errno as i32);
    }
}

#[test]
fn test_errno_out_of_table() {
    assert_eq!(SyscallError::new(0).get_msg(), "Unknown errno code");
    assert_eq!(SyscallError::new(ERRNO_MSGS_SZ + 1).get_msg(), "Unknown errno code");
    assert_eq!(SyscallError::new(9999).get_msg(), "Unknown errno code");
}

#[test]
fn test_errno_msgs_table_contents() {
    let table = get_errno_msgs();
    assert_eq!(table.len(), ERRNO_MSGS_SZ as usize);
    assert_eq!(table[0], "Operation not permitted");
    assert_eq!(table[1], "No such file or directory");
    assert_eq!(table[11], "Cannot allocate memory");
    assert_eq!(table[12], "Permission denied");
    assert_eq!(table[132], "Memory page has hardware error");
}
