use aspawn::utility::expect_fmt;
use aspawn::{expect, unwrap};
use aspawn::error::{should_retry_syscall, SyscallError};

#[test]
fn test_expect_ok_path() {
    let ok: Result<i32, i32> = Ok(5);
    assert_eq!(expect(ok, "should not be reported"), 5);
}

#[test]
fn test_unwrap_ok_path() {
    let ok: Result<i32, i32> = Ok(7);
    assert_eq!(unwrap(ok), 7);
}

#[test]
fn test_expect_fmt_ok_path() {
    let ok: Result<i32, i32> = Ok(9);
    assert_eq!(expect_fmt(ok, "already formatted"), 9);
}

#[test]
fn test_should_retry_syscall() {
    assert!(should_retry_syscall(&SyscallError::new(4)));
    assert!(!should_retry_syscall(&SyscallError::new(2)));
    assert!(!should_retry_syscall(&SyscallError::new(13)));
}
