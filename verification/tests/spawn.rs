use aspawn::lowlevel::{
    avfork_protocol_start, avfork_protocol_step, AvforkAction, AvforkEvent, AvforkPhase,
};
use aspawn::syscall::{
    exec_search_exhausted, exec_search_step, AccessMode, ExecSearchDecision, ExecvelCandidate,
    Priority, SigprocmaskHow,
};

#[test]
fn test_avfork_protocol_success() {
    let (p0, a0) = avfork_protocol_start();
    assert_eq!(a0, AvforkAction::SaveMask);

    let (p1, a1) = avfork_protocol_step(p0, AvforkEvent::MaskSaved);
    assert_eq!(a1, AvforkAction::InvokeTrampoline);

    let (p2, a2) = avfork_protocol_step(p1, AvforkEvent::TrampolineDone { read_fd: 3, pid: 42 });
    assert_eq!(a2, AvforkAction::RestoreMask);

    let (p3, a3) = avfork_protocol_step(p2, AvforkEvent::MaskRestored);
    assert_eq!(a3, AvforkAction::Return);
    match p3 {
        AvforkPhase::Returned { outcome } => assert_eq!(outcome, Ok((3, 42))),
        _ => panic!("protocol did not finish"),
    }
}

#[test]
fn test_avfork_protocol_failure_restores_mask() {
    let (p0, _) = avfork_protocol_start();
    let (p1, _) = avfork_protocol_step(p0, AvforkEvent::MaskSaved);

    // the trampoline failed: the mask must be restored before returning
    let (p2, a2) = avfork_protocol_step(p1, AvforkEvent::TrampolineFailed { errno: 12 });
    assert_eq!(a2, AvforkAction::RestoreMask);
    assert!(matches!(p2, AvforkPhase::Restoring { .. }));

    let (p3, a3) = avfork_protocol_step(p2, AvforkEvent::MaskRestored);
    assert_eq!(a3, AvforkAction::Return);
    match p3 {
        AvforkPhase::Returned { outcome } => assert_eq!(outcome, Err(12)),
        _ => panic!("protocol did not finish"),
    }
}

#[test]
fn test_avfork_protocol_mask_save_failure() {
    let (p0, _) = avfork_protocol_start();
    // saving the mask failed: nothing was changed, so return at once
    let (p1, a1) = avfork_protocol_step(p0, AvforkEvent::MaskSaveFailed { errno: 22 });
    assert_eq!(a1, AvforkAction::Return);
    match p1 {
        AvforkPhase::Returned { outcome } => assert_eq!(outcome, Err(22)),
        _ => panic!("protocol did not finish"),
    }
}

#[test]
fn test_exec_search_step_rules() {
    // permission denied is recorded and skipped
    assert_eq!(
        exec_search_step(13, false),
        ExecSearchDecision::TryNext { got_eaccess: true }
    );
    // missing, stale or misshapen entries are skipped without a record
    for errno in [2u32, 116, 20, 19, 110] {
        assert_eq!(
            exec_search_step(errno, false),
            ExecSearchDecision::TryNext { got_eaccess: false }
        );
        assert_eq!(
            exec_search_step(errno, true),
            ExecSearchDecision::TryNext { got_eaccess: true }
        );
    }
    // anything else stops the search unchanged
    assert_eq!(exec_search_step(22, false), ExecSearchDecision::Fail { errno: 22 });
    assert_eq!(exec_search_step(12, true), ExecSearchDecision::Fail { errno: 12 });
}

#[test]
fn test_exec_search_exhausted() {
    assert_eq!(exec_search_exhausted(true), 13);
    assert_eq!(exec_search_exhausted(false), 2);
}

#[test]
fn test_execvel_candidate_valid() {
    let candidate = ExecvelCandidate::new(b"echo".to_vec(), vec![b"/bin".to_vec(), b"/usr/bin".to_vec()])
        .unwrap();
    assert_eq!(candidate.path_count(), 2);
    assert_eq!(candidate.constructed_path(0), b"/bin/echo".to_vec());
    assert_eq!(candidate.constructed_path(1), b"/usr/bin/echo".to_vec());
}

#[test]
fn test_execvel_candidate_rejections() {
    // empty filename
    assert!(ExecvelCandidate::new(b"".to_vec(), vec![b"/bin".to_vec()]).is_none());
    // slash in the filename
    assert!(ExecvelCandidate::new(b"e/cho".to_vec(), vec![b"/bin".to_vec()]).is_none());
    // no search directory at all
    assert!(ExecvelCandidate::new(b"echo".to_vec(), vec![]).is_none());
    // an empty search directory
    assert!(ExecvelCandidate::new(b"echo".to_vec(), vec![b"/bin".to_vec(), b"".to_vec()]).is_none());
    // a directory so long the assembled path cannot fit
    let long = vec![b'a'; 5 * 4096];
    assert!(ExecvelCandidate::new(b"echo".to_vec(), vec![long]).is_none());
}

#[test]
fn test_priority_range() {
    assert_eq!(Priority::new(-20).unwrap().get_prio(), -20);
    assert_eq!(Priority::new(0).unwrap().get_prio(), 0);
    assert_eq!(Priority::new(19).unwrap().get_prio(), 19);
    assert!(Priority::new(-21).is_none());
    assert!(Priority::new(20).is_none());
}

#[test]
fn test_flag_bits() {
    assert_eq!(AccessMode::O_RDONLY.bits(), 0);
    assert_eq!(AccessMode::O_WRONLY.bits(), 1);
    assert_eq!(AccessMode::O_RDWR.bits(), 2);
    assert_eq!(SigprocmaskHow::SIG_BLOCK.bits(), 0);
    assert_eq!(SigprocmaskHow::SIG_UNBLOCK.bits(), 1);
    assert_eq!(SigprocmaskHow::SIG_SETMASK.bits(), 2);
}
