use git_vws::batch::{WriteEvent, WriteStep};
use git_vws::child::{
    time_to_wait, CaptureStep, Cleanup, CleanupStep, GitChild, Termination, WaitEvent,
};
use git_vws::git::{DrainStep, Error, ExitReport, Output, Pipe, ReadEvent, DEFAULT_LIMIT};

const MILLISECOND: u64 = 1_000_000;
const SECOND: u64 = 1_000_000_000;
const CHILD: u32 = 42;
const HOLDER: u32 = 43;

/// A child, and a process of its group that holds its pipes open, on a clock of their own.
struct System {
    now: u64,
    /// When the child exits by itself.
    exits: Option<u64>,
    /// Until when the other process holds the pipes.
    holds: u64,
    killed: bool,
    reaped: bool,
    output: Vec<u8>,
    /// How much the child's input takes before a write blocks.
    room: usize,
}

impl System {
    fn new(exits: Option<u64>, holds: u64) -> Self {
        System {
            now: 0,
            exits,
            holds,
            killed: false,
            reaped: false,
            output: Vec::new(),
            room: 0,
        }
    }

    fn child_runs(&self) -> bool {
        !self.killed && self.exits.map_or(true, |at| self.now < at)
    }

    fn alive(&self, pid: u32) -> bool {
        match pid {
            CHILD => !self.reaped,
            HOLDER => !self.killed && self.now < self.holds,
            _ => false,
        }
    }

    fn report(&self) -> ExitReport {
        if self.exits.map_or(false, |at| at <= self.now) {
            ExitReport { code: Some(0), signal: None }
        } else {
            ExitReport { code: None, signal: Some(9) }
        }
    }

    fn observe(&self) -> WaitEvent {
        if self.reaped {
            WaitEvent::Lost
        } else if self.child_runs() {
            WaitEvent::Running
        } else {
            WaitEvent::Exited(self.report())
        }
    }

    fn reap(&mut self) -> WaitEvent {
        let event = self.observe();
        self.reaped |= matches!(event, WaitEvent::Exited(_));
        event
    }

    fn read(&mut self, stdout: bool) -> ReadEvent {
        if stdout && !self.output.is_empty() {
            ReadEvent::Bytes(std::mem::take(&mut self.output))
        } else if self.child_runs() || self.alive(HOLDER) {
            ReadEvent::WouldBlock
        } else {
            ReadEvent::Eof
        }
    }

    fn drain(&mut self, pipe: &mut Pipe, stdout: bool, limit: usize) -> Result<bool, String> {
        loop {
            let event = self.read(stdout);
            match pipe.drain(event, limit) {
                DrainStep::More => {}
                DrainStep::Done(exceeded) => return Ok(exceeded),
                DrainStep::Failed(words) => return Err(words),
            }
        }
    }

    fn drain_both(
        &mut self,
        child: &mut GitChild,
        limit: usize,
    ) -> [Option<Result<bool, String>>; 2] {
        [
            child.stdout.as_mut().map(|pipe| self.drain(pipe, true, limit)),
            child.stderr.as_mut().map(|pipe| self.drain(pipe, false, limit)),
        ]
    }

    fn wait(&mut self, time: u64) {
        self.now += time.max(1);
    }

    fn give_up(&mut self, child: &mut GitChild, primary: Error, code: &'static str) -> Error {
        let exit = self.observe();
        let (mut cleanup, termination) = Cleanup::begin(child, primary, code, &exit);
        match termination {
            Some(Termination::Group(group)) => {
                assert_eq!(group, CHILD);
                self.killed = true;
            }
            Some(Termination::Child) => panic!("only the group is ended"),
            Some(Termination::Nothing) | None => {}
        }
        cleanup = cleanup.terminated(child.exit_observed, Ok(()), self.now);
        loop {
            let [stdout, stderr] = self.drain_both(child, DEFAULT_LIMIT);
            let event = self.reap();
            match cleanup.round(child, &stdout, &stderr, &event, self.now) {
                (Some(next), CleanupStep::Wait(time)) => {
                    self.wait(time);
                    cleanup = next;
                }
                (_, CleanupStep::Done(error)) => return error,
                (None, CleanupStep::Wait(_)) => unreachable!("a round that waits goes on"),
            }
        }
    }

    fn capture(&mut self, child: &mut GitChild, limit: usize) -> Result<Output, Error> {
        child.begin_capture();
        let mut grace = None;
        loop {
            let [stdout, stderr] = self.drain_both(child, limit);
            let (stdout, stderr) = (stdout.expect("stdout"), stderr.expect("stderr"));
            let exit = self.observe();
            let (next, mut step) =
                child.capture_round(grace, &stdout, &stderr, &exit, self.now);
            grace = next;
            if matches!(step, CaptureStep::Reap) {
                let event = self.reap();
                step = child.capture_reaped(grace, &event, self.now);
            }
            match step {
                CaptureStep::Finish => return child.take_output(&WaitEvent::Running),
                CaptureStep::Fail(error) => {
                    return Err(self.give_up(child, error, "GIT_PROBE_CLEANUP_FAILED"))
                }
                CaptureStep::Wait(time) => self.wait(time),
                CaptureStep::Reap => {}
            }
        }
    }

    fn write_stdin(&mut self, child: &mut GitChild, bytes: &[u8]) -> Result<(), Error> {
        let mut written = 0;
        while written < bytes.len() {
            if child.expired(self.now) {
                let error = GitChild::batch_expired();
                return Err(self.give_up(child, error, "GIT_BATCH_CLEANUP_FAILED"));
            }
            let event = if self.room == 0 {
                WriteEvent::WouldBlock
            } else {
                let count = self.room.min(bytes.len() - written);
                self.room -= count;
                WriteEvent::Wrote(count)
            };
            match child.write_stdin(event, self.now) {
                WriteStep::Wrote(count) => written += count,
                WriteStep::Again => {}
                WriteStep::WaitWritable => self.wait(time_to_wait(child.deadline, self.now)),
                WriteStep::Refuse(error) => return Err(error),
                WriteStep::Fail(error) => {
                    return Err(self.give_up(child, error, "GIT_BATCH_CLEANUP_FAILED"))
                }
            }
        }
        Ok(())
    }
}

#[test]
fn same_group_pipe_holder_is_terminated_with_its_direct_child() {
    let mut system = System::new(Some(20 * MILLISECOND), 30 * SECOND);
    system.output = format!("{HOLDER}\n").into_bytes();
    let mut child = GitChild::captured(CHILD, system.now, SECOND, false);
    let deadline = system.now + 250 * MILLISECOND;
    while child.stdout.as_ref().expect("direct stdout").retained.is_empty() {
        let stdout = child.stdout.as_mut().expect("direct stdout");
        system.drain(stdout, true, 1024).expect("drain direct stdout");
        assert!(system.now < deadline, "shell did not report its child");
        system.wait(5 * MILLISECOND);
    }
    let pid = std::str::from_utf8(&child.stdout.as_ref().expect("direct stdout").retained)
        .expect("pipe-holder pid is UTF-8")
        .trim()
        .parse::<u32>()
        .expect("parse pipe-holder pid");
    while !child.observe_exit(&system.observe()).expect("observe direct child exit") {
        assert!(system.now < deadline, "direct child did not exit");
        system.wait(5 * MILLISECOND);
    }
    assert!(!child.pipes_closed(), "background pipe-holder closed too early");
    assert!(system.alive(pid));
    let error = system.give_up(
        &mut child,
        Error::new("GIT_PROBE_FAILED", "force same-group cleanup"),
        "GIT_PROBE_CLEANUP_FAILED",
    );
    assert_eq!(error.code, "GIT_PROBE_FAILED");
    assert!(!system.alive(pid), "same-group pipe holder survived cleanup");
    assert!(system.now < SECOND);
}

#[test]
fn delayed_same_group_pipe_close_is_accepted_within_the_grace_period() {
    let mut system = System::new(Some(5 * MILLISECOND), 100 * MILLISECOND);
    let mut child = GitChild::captured(CHILD, system.now, 2 * SECOND, false);
    let output = system
        .capture(&mut child, DEFAULT_LIMIT)
        .expect("brief same-group pipe holder must drain within the grace period");
    assert!(output.status.success());
    assert!(output.stdout.is_empty());
    assert!(output.stderr.is_empty());
    assert!(system.now >= 100 * MILLISECOND && system.now < SECOND);
}

#[test]
fn pipe_holders_beyond_the_grace_period_are_ended() {
    let mut system = System::new(Some(5 * MILLISECOND), 30 * SECOND);
    let mut child = GitChild::captured(CHILD, system.now, 20 * SECOND, false);
    let error = system.capture(&mut child, DEFAULT_LIMIT).expect_err("pipe held open");
    assert_eq!(error.code, "GIT_PROBE_FAILED");
    assert_eq!(error.detail, "Git child exited but an escaped pipe remained open");
    assert!(!system.alive(HOLDER));
    assert!(system.now > SECOND && system.now < 2 * SECOND);
}

#[test]
fn cleanup_echild_precedes_primary_after_direct_child_is_reaped() {
    let mut system = System::new(Some(0), 0);
    let mut child = GitChild::captured(CHILD, system.now, SECOND, false);
    assert!(matches!(system.reap(), WaitEvent::Exited(_)));
    let error = system.give_up(
        &mut child,
        Error::new("GIT_PROBE_FAILED", "force cleanup after waitpid"),
        "GIT_PROBE_CLEANUP_FAILED",
    );
    assert_eq!(error.code, "GIT_PROBE_CLEANUP_FAILED");
    assert!(error.detail.contains("GIT_PROBE_FAILED"));
    assert_eq!(child.wait_capability, None);
    assert_eq!(child.process_group, None);
    assert!(!system.alive(CHILD), "reaped child remained alive");
}

#[test]
fn blocked_batch_stdin_obeys_the_shared_deadline() {
    let mut system = System::new(None, 0);
    system.room = 64 * 1024;
    let mut child = GitChild::captured(CHILD, system.now, 250 * MILLISECOND, true);
    let started = system.now;
    let error = system
        .write_stdin(&mut child, &vec![b'x'; 1024 * 1024])
        .expect_err("blocked batch stdin must fail");
    assert_eq!(error.code, "GIT_BATCH_FAILED");
    assert!(system.now - started >= 250 * MILLISECOND);
    assert!(system.now - started < SECOND);
    assert!(!system.alive(CHILD));
    assert!(child.settled);
}

#[test]
fn kept_output_is_a_prefix_of_what_was_read() {
    let reads: [&[u8]; 3] = [b"abc", b"de", b"fgh"];
    for (limit, kept) in [(16, "abcdefgh"), (8, "abcdefgh"), (4, "abcd"), (0, "")] {
        let mut pipe = Pipe::new();
        let mut given_up = false;
        for read in reads {
            assert!(matches!(pipe.drain(ReadEvent::Interrupted, limit), DrainStep::More));
            let step = pipe.drain(ReadEvent::Bytes(read.to_vec()), limit);
            given_up |= matches!(step, DrainStep::Done(true));
        }
        assert!(matches!(pipe.drain(ReadEvent::Eof, limit), DrainStep::Done(false)));
        assert!(pipe.eof());
        assert_eq!(given_up, kept.len() < 8);
        assert_eq!(pipe.into_bytes(), kept.as_bytes().to_vec());
    }
}
