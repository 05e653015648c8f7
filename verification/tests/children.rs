use git_vws::batch::{FrameStep, LineStep, StreamStep, WriteEvent, WriteStep};
use git_vws::child::{CaptureStep, Cleanup, CleanupStep, GitChild, Termination, WaitEvent};
use git_vws::git::{
    child_environment, lose_probe_ownership, retain_error, sigchld_allows_waiting,
    steering_variables, Assignment, AuditConfig, DrainStep, Error, ExitReport, Output, Pipe,
    ReadEvent,
};
use git_vws::authority::Identity;
use git_vws::record_txn::record_binding_matches;

fn exited(code: i32) -> WaitEvent {
    WaitEvent::Exited(ExitReport {
        code: Some(code),
        signal: None,
    })
}

fn close(child: &mut GitChild) {
    for pipe in [child.stdout.as_mut(), child.stderr.as_mut()] {
        pipe.expect("pipe").drain(ReadEvent::Eof, 16);
    }
}

#[test]
fn record_binding_rejects_opened_or_final_mismatch() {
    let opened = Identity::from_stat(0, 0, 0, 0, 0);
    let mismatched = Identity { ino: 2, ..opened };
    assert!(record_binding_matches(opened, opened, opened));
    assert!(!record_binding_matches(opened, mismatched, opened));
    assert!(!record_binding_matches(opened, opened, mismatched));
    let no_child_wait = libc::SA_NOCLDWAIT as u64;
    for (handler, flags, expected) in [
        (libc::SIG_DFL, 0, true),
        (libc::SIG_IGN, 0, false),
        (libc::SIG_DFL, libc::SA_NOCLDWAIT as u64, false),
        (2, 0, false),
    ] {
        assert_eq!(
            sigchld_allows_waiting(handler, flags, no_child_wait),
            expected
        );
    }
    let mut capability = Some(7);
    let lost = lose_probe_ownership(&mut capability);
    assert_eq!(lost.code, "GIT_PROBE_CLEANUP_FAILED");
    assert_eq!(capability, None);
}

#[test]
fn steering_variables_do_not_reach_a_child() {
    let inherited = vec![
        b"GIT_DIR".to_vec(),
        b"HOME".to_vec(),
        b"GIT_TRACE".to_vec(),
        b"PATH".to_vec(),
    ];
    assert_eq!(
        steering_variables(&inherited),
        vec![b"GIT_DIR".to_vec(), b"GIT_TRACE".to_vec()]
    );
    let extra = vec![Assignment {
        name: b"GIT_INDEX_FILE".to_vec(),
        value: b"/i".to_vec(),
    }];
    let plan = child_environment(&inherited, &extra, AuditConfig::Isolated);
    assert!(plan.remove.contains(&b"GIT_DIR".to_vec()));
    assert!(!plan.remove.contains(&b"PATH".to_vec()));
    assert!(plan
        .assign
        .iter()
        .any(|set| set.name == b"GIT_INDEX_FILE" && set.value == b"/i"));
    let isolated = plan.assign.len();
    let authority = child_environment(&inherited, &extra, AuditConfig::Authority);
    assert!(authority.assign.len() <= isolated);
}

#[test]
fn pipes_keep_up_to_their_limit() {
    let mut pipe = Pipe::new();
    assert!(matches!(
        pipe.drain(ReadEvent::Bytes(b"abc".to_vec()), 4),
        DrainStep::More
    ));
    assert!(matches!(
        pipe.drain(ReadEvent::Interrupted, 4),
        DrainStep::More
    ));
    assert!(matches!(
        pipe.drain(ReadEvent::WouldBlock, 4),
        DrainStep::Done(false)
    ));
    assert!(matches!(
        pipe.drain(ReadEvent::Bytes(b"de".to_vec()), 4),
        DrainStep::Done(true)
    ));
    assert!(!pipe.eof());
    assert!(matches!(
        pipe.drain(ReadEvent::Eof, 4),
        DrainStep::Done(false)
    ));
    assert!(pipe.eof());
    assert_eq!(pipe.into_bytes(), b"abcd".to_vec());
}

#[test]
fn captured_output_is_taken_once_the_child_is_reaped() {
    let mut child = GitChild::captured(42, 0, 1_000, false);
    assert_eq!(child.to_observe(), Some(42));
    let (grace, step) = child.capture_round(None, &Ok(false), &Ok(false), &WaitEvent::Running, 10);
    assert_eq!(grace, None);
    assert!(matches!(step, CaptureStep::Wait(990)));
    child
        .stdout
        .as_mut()
        .expect("stdout")
        .drain(ReadEvent::Bytes(b"out".to_vec()), 16);
    close(&mut child);
    let (grace, step) = child.capture_round(None, &Ok(false), &Ok(false), &exited(0), 20);
    assert!(matches!(step, CaptureStep::Reap));
    assert!(matches!(
        child.capture_reaped(grace, &exited(0), 20),
        CaptureStep::Finish
    ));
    let output = child.take_output(&WaitEvent::Running).expect("output");
    assert!(output.status.success());
    assert_eq!(output.stdout, b"out".to_vec());
    assert!(child.settled);
    assert_eq!(child.process_group, None);
}

fn captured_to_the_end(report: ExitReport) -> Output {
    let mut child = GitChild::captured(42, 0, 1_000, false);
    close(&mut child);
    let event = WaitEvent::Exited(report);
    let (grace, step) = child.capture_round(None, &Ok(false), &Ok(false), &event, 20);
    assert!(matches!(step, CaptureStep::Reap));
    assert!(matches!(
        child.capture_reaped(grace, &event, 20),
        CaptureStep::Finish
    ));
    assert_eq!(child.status, Some(report));
    assert_eq!(child.wait_capability, None);
    child.take_output(&WaitEvent::Running).expect("output")
}

#[test]
fn failing_children_keep_their_exit() {
    let failed = captured_to_the_end(ExitReport { code: Some(1), signal: None });
    assert_eq!(failed.status.code, Some(1));
    assert_eq!(failed.status.signal, None);
    assert!(!failed.status.success());
    let killed = captured_to_the_end(ExitReport { code: None, signal: Some(9) });
    assert_eq!(killed.status.code, None);
    assert_eq!(killed.status.signal, Some(9));
    assert!(!killed.status.success());
}

#[test]
fn taking_output_reaps_a_child_that_was_not_reaped() {
    let mut child = GitChild::captured(42, 0, 1_000, false);
    close(&mut child);
    let output = child.take_output(&exited(1)).expect("output");
    assert_eq!(output.status.code, Some(1));
    assert!(child.settled);
    assert!(child.stdout.is_none() && child.stderr.is_none());

    let mut running = GitChild::captured(42, 0, 1_000, false);
    close(&mut running);
    assert_eq!(
        running.take_output(&WaitEvent::Running).expect_err("running").detail,
        "Git child closed its pipes without a wait result"
    );
    assert!(!running.settled);
    assert_eq!(running.wait_capability, Some(42));

    let mut lost = GitChild::captured(42, 0, 1_000, false);
    close(&mut lost);
    assert!(lost.take_output(&WaitEvent::Lost).is_err());
    assert_eq!(lost.wait_capability, None);
}

#[test]
fn foreground_programs_are_waited_for() {
    let mut child = GitChild::direct(9, 5);
    assert_eq!(child.wait_direct(&WaitEvent::Running).expect("waiting"), None);
    assert_eq!(child.wait_capability, Some(9));
    let error = child
        .wait_direct(&WaitEvent::Failed("denied".to_owned()))
        .expect_err("failed");
    assert_eq!(error.to_text(), "EXEC_FAILED: cannot wait for session program: denied");
    assert!(!child.settled);
    let killed = ExitReport { code: None, signal: Some(15) };
    assert_eq!(
        child.wait_direct(&WaitEvent::Exited(killed)).expect("ended"),
        Some(killed)
    );
    assert!(child.settled && child.exit_observed);
    assert_eq!(child.wait_capability, None);

    let mut lost = GitChild::direct(9, 5);
    let error = lost.wait_direct(&WaitEvent::Lost).expect_err("lost");
    assert_eq!(error.code, "EXEC_CLEANUP_FAILED");
    assert_eq!(error.detail, "lost ownership of session program");
    assert!(lost.settled);

    let mut captured = GitChild::captured(42, 0, 1_000, false);
    let error = captured.wait_direct(&exited(0)).expect_err("captured");
    assert_eq!(error.code, "EXEC_FAILED");
    assert_eq!(error.detail, "direct wait was requested for a captured child");
    assert_eq!(captured.status, None);
}

#[test]
fn cleanup_gives_up_a_child_as_it_was_reaped() {
    let killed = WaitEvent::Exited(ExitReport { code: None, signal: Some(9) });
    let mut child = GitChild::captured(42, 0, 1_000, true);
    let (cleanup, _) = Cleanup::begin(
        &mut child,
        Error::new("GIT_PROBE_FAILED", "primary"),
        "GIT_PROBE_CLEANUP_FAILED",
        &WaitEvent::Running,
    );
    assert!(!child.stdin);
    let cleanup = cleanup.terminated(true, Ok(()), 0);
    close(&mut child);
    let (next, step) = cleanup.round(&mut child, &Some(Ok(false)), &Some(Ok(false)), &killed, 1);
    assert!(next.is_none());
    assert!(matches!(step, CleanupStep::Done(_)));
    assert_eq!(child.status, Some(ExitReport { code: None, signal: Some(9) }));
    assert!(child.settled && child.exit_observed);
    assert_eq!(child.wait_capability, None);
}

#[test]
fn captures_fail_past_their_deadline_and_grace() {
    let mut child = GitChild::captured(42, 0, 5_000_000_000, false);
    let (grace, step) = child.capture_round(None, &Ok(false), &Ok(false), &exited(0), 100);
    assert_eq!(grace, Some(1_000_000_100));
    assert!(matches!(step, CaptureStep::Wait(10_000_000)));
    let (_, step) = child.capture_round(grace, &Ok(false), &Ok(false), &exited(0), 1_000_000_100);
    match step {
        CaptureStep::Fail(error) => assert_eq!(
            error.detail,
            "Git child exited but an escaped pipe remained open"
        ),
        other => panic!("{other:?}"),
    }
    let (_, step) = child.capture_round(None, &Ok(false), &Ok(false), &exited(0), 5_000_000_000);
    match step {
        CaptureStep::Fail(error) => {
            assert_eq!(error.detail, "Git child exceeded its shared deadline")
        }
        other => panic!("{other:?}"),
    }
    let (_, step) = child.capture_round(None, &Ok(true), &Ok(false), &exited(0), 0);
    match step {
        CaptureStep::Fail(error) => {
            assert_eq!(error.detail, "Git child output exceeded the limit")
        }
        other => panic!("{other:?}"),
    }
}

#[test]
fn foreground_children_are_ended_alone() {
    let child = GitChild::direct(9, 5);
    assert_eq!(child.terminate(), Termination::Child);
    assert!(child.pipes_closed());
    assert!(child.expired(1_000_000_005));
    assert!(!child.expired(1_000_000_004));
}

#[test]
fn later_errors_are_added_to_the_first() {
    let kept = retain_error(None, Error::new("A", "one"));
    let kept = retain_error(kept, Error::new("B", "two")).expect("kept");
    assert_eq!(kept.code, "A");
    assert_eq!(kept.detail, "one; B: two");
}

#[test]
fn batch_children_stream_frames_and_lines() {
    let mut child = GitChild::captured(42, 0, 1_000, true);
    child.expect_progress(0, 100, 500);
    assert_eq!(child.deadline, 500);
    assert!(matches!(
        child.write_stdin(WriteEvent::Wrote(3), 10),
        WriteStep::Wrote(3)
    ));
    assert!(matches!(
        child.write_stdin(WriteEvent::Interrupted, 10),
        WriteStep::Again
    ));
    assert!(matches!(
        child.write_stdin(WriteEvent::WouldBlock, 10),
        WriteStep::WaitWritable
    ));
    match child.write_stdin(WriteEvent::Wrote(1), 600) {
        WriteStep::Fail(error) => assert_eq!(
            error.detail,
            "Git batch stream exceeded its hard deadline"
        ),
        other => panic!("{other:?}"),
    }
    let mut unpiped = GitChild::captured(43, 0, 1_000, false);
    match unpiped.write_stdin(WriteEvent::Wrote(1), 10) {
        WriteStep::Refuse(error) => assert_eq!(error.detail, "Git stdin was not piped"),
        other => panic!("{other:?}"),
    }
    assert_eq!(unpiped.deadline, 1_000);
    assert_eq!(GitChild::batch_expired().code, "GIT_BATCH_FAILED");
    assert!(matches!(
        child.read_nul_record(ReadEvent::Bytes(b"one\0tw".to_vec()), 20),
        StreamStep::Again
    ));
    match child.next_nul_record(64) {
        FrameStep::Frame(frame) => assert_eq!(frame, b"one".to_vec()),
        other => panic!("{other:?}"),
    }
    assert!(matches!(child.next_nul_record(64), FrameStep::More));
    assert_eq!(child.take_pending(1), b"t".to_vec());
    let mut line = Vec::new();
    assert!(matches!(
        GitChild::read_line_stdout(&mut line, 2, b'a'),
        LineStep::More
    ));
    assert!(matches!(
        GitChild::read_line_stdout(&mut line, 2, b'\n'),
        LineStep::Complete
    ));
    assert!(matches!(
        GitChild::read_line_stdout(&mut line, 1, b'b'),
        LineStep::Fail(_)
    ));
}

#[test]
fn outputs_are_clean_or_silent() {
    let output = |stdout: &[u8], stderr: &[u8], code: i32| Output {
        stdout: stdout.to_vec(),
        stderr: stderr.to_vec(),
        status: ExitReport {
            code: Some(code),
            signal: None,
        },
    };
    assert!(output(b"x", b"", 0).is_clean());
    assert!(!output(b"x", b"warning", 0).is_clean());
    assert!(!output(b"x", b"", 1).is_clean());
    assert!(output(b"", b"", 0).is_silent());
    assert!(!output(b"x", b"", 0).is_silent());
}
