//! The life of a Git child as its owner sees it: capturing its output under a deadline, talking to
//! a batch child, and ending a child that is given up.

use crate::bytes::{append, copy_bytes, join3};
use crate::git::{
    optional_error, retain_error, retained, shown, Error, ExitReport, Output, Pipe, CLEANUP_TIMEOUT,
    ESCAPED_PIPE_GRACE, POLL_INTERVAL,
};
use vstd::prelude::*;

verus! {

/// What a wait without blocking told of a child.
#[derive(Debug)]
pub enum WaitEvent {
    Running,
    Exited(ExitReport),
    /// Somebody else has reaped it.
    Lost,
    Failed(String),
}

/// The owner's record of a child: the right to wait for it, its process group, its pipes.
#[derive(Debug)]
pub struct GitChild {
    pub wait_capability: Option<u32>,
    pub process_group: Option<u32>,
    pub direct: bool,
    pub exit_observed: bool,
    pub status: Option<ExitReport>,
    pub stdout: Option<Pipe>,
    pub stderr: Option<Pipe>,
    pub stdin: bool,
    pub stdout_pending: Vec<u8>,
    pub deadline: u64,
    pub hard_deadline: Option<u64>,
    pub progress_timeout: Option<u64>,
    pub settled: bool,
}

pub open spec fn later(now: u64, duration: u64) -> u64 {
    if now + duration > u64::MAX {
        u64::MAX
    } else {
        (now + duration) as u64
    }
}

pub open spec fn earlier(left: u64, right: u64) -> u64 {
    if left < right {
        left
    } else {
        right
    }
}

fn min(left: u64, right: u64) -> (least: u64)
    ensures
        least == earlier(left, right),
{
    if left < right {
        left
    } else {
        right
    }
}

/// How long to wait for activity: up to `until`, and no longer than one polling interval.
pub open spec fn waiting_time(until: u64, now: u64) -> u64 {
    let left = if until > now {
        (until - now) as u64
    } else {
        0
    };
    earlier(left, POLL_INTERVAL)
}

pub fn time_to_wait(until: u64, now: u64) -> (time: u64)
    ensures
        time == waiting_time(until, now),
{
    if until > now {
        min(until - now, POLL_INTERVAL)
    } else {
        0
    }
}

/// How a child is ended.
#[derive(Clone, Copy, Debug, PartialEq, Eq, Structural)]
pub enum Termination {
    Child,
    Group(u32),
    Nothing,
}

/// What capturing does next.
#[derive(Debug)]
pub enum CaptureStep {
    /// Try to reap the child, without blocking.
    Reap,
    /// Wait for pipe activity, for at most this long.
    Wait(u64),
    /// Clean the child up and report this error.
    Fail(Error),
    /// The output is complete.
    Finish,
}

impl View for CaptureStep {
    type V = CaptureView;

    open spec fn view(&self) -> CaptureView {
        match self {
            CaptureStep::Reap => CaptureView::Reap,
            CaptureStep::Wait(time) => CaptureView::Wait(*time),
            CaptureStep::Fail(error) => CaptureView::Fail(error@),
            CaptureStep::Finish => CaptureView::Finish,
        }
    }
}

pub enum CaptureView {
    Reap,
    Wait(u64),
    Fail((Seq<char>, Seq<char>)),
    Finish,
}

pub open spec fn probe_failed(detail: Seq<char>) -> CaptureView {
    CaptureView::Fail(("GIT_PROBE_FAILED"@, detail))
}

/// What the clock says of a capture that is not complete.
pub open spec fn capture_clock(deadline: u64, grace: Option<u64>, now: u64) -> CaptureView {
    if now >= deadline {
        probe_failed("Git child exceeded its shared deadline"@)
    } else if grace is Some && now >= grace->0 {
        probe_failed("Git child exited but an escaped pipe remained open"@)
    } else {
        CaptureView::Wait(
            waiting_time(
                match grace {
                    Some(grace) => earlier(grace, deadline),
                    None => deadline,
                },
                now,
            ),
        )
    }
}

/// What draining a pipe gave: whether bytes had to be given up, or the system's words.
pub type Drained = Result<bool, String>;

pub open spec fn drain_words(drained: Drained) -> Seq<char> {
    match drained {
        Ok(_) => Seq::empty(),
        Err(words) => words@,
    }
}

/// Both pipes were drained, and no bytes had to be given up.
pub open spec fn drained_whole(stdout: Drained, stderr: Drained) -> bool {
    &&& stdout == Ok::<bool, String>(false)
    &&& stderr == Ok::<bool, String>(false)
}

impl GitChild {
    pub open spec fn pipes_are_closed(self) -> bool {
        &&& (self.stdout matches Some(pipe) ==> pipe.eof)
        &&& (self.stderr matches Some(pipe) ==> pipe.eof)
    }

    /// A captured child that was just spawned as the leader of its own process group.
    pub fn captured(pid: u32, now: u64, timeout: u64, piped_stdin: bool) -> (child: Self)
        ensures
            child.wait_capability == Some(pid),
            child.process_group == Some(pid),
            !child.direct,
            !child.exit_observed,
            child.status is None,
            child.stdout matches Some(pipe) && pipe.retained@.len() == 0 && !pipe.eof,
            child.stderr matches Some(pipe) && pipe.retained@.len() == 0 && !pipe.eof,
            child.stdin == piped_stdin,
            child.stdout_pending@.len() == 0,
            child.deadline == later(now, timeout),
            child.hard_deadline is None,
            child.progress_timeout is None,
            !child.settled,
    {
        GitChild {
            wait_capability: Some(pid),
            process_group: Some(pid),
            direct: false,
            exit_observed: false,
            status: None,
            stdout: Some(Pipe::new()),
            stderr: Some(Pipe::new()),
            stdin: piped_stdin,
            stdout_pending: Vec::new(),
            deadline: now.saturating_add(timeout),
            hard_deadline: None,
            progress_timeout: None,
            settled: false,
        }
    }

    /// A child that runs in the foreground with the caller's streams.
    pub fn direct(pid: u32, now: u64) -> (child: Self)
        ensures
            child.wait_capability == Some(pid),
            child.process_group is None,
            child.direct,
            !child.exit_observed,
            child.status is None,
            child.stdout is None,
            child.stderr is None,
            !child.stdin,
            child.stdout_pending@.len() == 0,
            child.deadline == later(now, CLEANUP_TIMEOUT),
            child.hard_deadline is None,
            child.progress_timeout is None,
            !child.settled,
    {
        GitChild {
            wait_capability: Some(pid),
            process_group: None,
            direct: true,
            exit_observed: false,
            status: None,
            stdout: None,
            stderr: None,
            stdin: false,
            stdout_pending: Vec::new(),
            deadline: now.saturating_add(CLEANUP_TIMEOUT),
            hard_deadline: None,
            progress_timeout: None,
            settled: false,
        }
    }

    /// Gives a batch child a deadline that moves with its progress, up to a hard one.
    pub fn expect_progress(&mut self, started: u64, idle_timeout: u64, hard_timeout: u64)
        ensures
            final(self).deadline == earlier(old(self).deadline, later(started, hard_timeout)),
            final(self).hard_deadline == Some(later(started, hard_timeout)),
            final(self).progress_timeout == Some(idle_timeout),
            final(self).wait_capability == old(self).wait_capability,
            final(self).process_group == old(self).process_group,
            final(self).direct == old(self).direct,
            final(self).exit_observed == old(self).exit_observed,
            final(self).status == old(self).status,
            final(self).stdout == old(self).stdout,
            final(self).stderr == old(self).stderr,
            final(self).stdin == old(self).stdin,
            final(self).stdout_pending == old(self).stdout_pending,
            final(self).settled == old(self).settled,
    {
        let hard_deadline: u64 = started.saturating_add(hard_timeout);
        self.deadline = min(self.deadline, hard_deadline);
        self.hard_deadline = Some(hard_deadline);
        self.progress_timeout = Some(idle_timeout);
    }

    pub fn pipes_closed(&self) -> (closed: bool)
        ensures
            closed == self.pipes_are_closed(),
    {
        let stdout_closed: bool = match &self.stdout {
            Some(pipe) => pipe.eof(),
            None => true,
        };
        let stderr_closed: bool = match &self.stderr {
            Some(pipe) => pipe.eof(),
            None => true,
        };
        stdout_closed && stderr_closed
    }

    pub fn expired(&self, now: u64) -> (expired: bool)
        ensures
            expired == (now >= self.deadline),
    {
        now >= self.deadline
    }

    /// Whether the child has to be observed to know that it exited, and by which process id.
    pub fn to_observe(&self) -> (pid: Option<u32>)
        ensures
            pid == (if self.exit_observed {
                None
            } else {
                self.wait_capability
            }),
    {
        if self.exit_observed {
            None
        } else {
            self.wait_capability
        }
    }

    pub open spec fn observed(self, event: WaitEvent) -> Result<bool, (Seq<char>, Seq<char>)> {
        if self.exit_observed {
            Ok(true)
        } else if self.wait_capability is None {
            Ok(false)
        } else {
            match event {
                WaitEvent::Running => Ok(false),
                WaitEvent::Exited(_) => Ok(true),
                WaitEvent::Lost => Err(
                    ("GIT_PROBE_CLEANUP_FAILED"@, "lost ownership of Git child"@),
                ),
                WaitEvent::Failed(words) => Err(
                    (
                        "GIT_PROBE_CLEANUP_FAILED"@,
                        "cannot observe Git child"@ + ": "@ + words@,
                    ),
                ),
            }
        }
    }

    /// The child after an observation: its exit is known, or it belongs to somebody else.
    pub open spec fn after_observation(self, event: WaitEvent) -> GitChild {
        if self.exit_observed || self.wait_capability is None {
            self
        } else {
            match event {
                WaitEvent::Exited(_) => GitChild { exit_observed: true, ..self },
                WaitEvent::Lost => GitChild {
                    wait_capability: None,
                    process_group: None,
                    ..self
                },
                _ => self,
            }
        }
    }

    /// Learns from an observation that leaves the child to be reaped. The event is not looked at
    /// where nothing had to be observed.
    pub fn observe_exit(&mut self, event: &WaitEvent) -> (exited: Result<bool, Error>)
        ensures
            match old(self).observed(*event) {
                Ok(known) => exited == Ok::<bool, Error>(known),
                Err(error) => exited matches Err(made) && made@ == error,
            },
            *final(self) == old(self).after_observation(*event),
    {
        if self.exit_observed {
            return Ok(true);
        }
        if self.wait_capability.is_none() {
            return Ok(false);
        }
        match event {
            WaitEvent::Running => Ok(false),
            WaitEvent::Exited(_) => {
                self.exit_observed = true;
                Ok(true)
            },
            WaitEvent::Lost => {
                self.wait_capability = None;
                self.process_group = None;
                Err(Error::new("GIT_PROBE_CLEANUP_FAILED", "lost ownership of Git child"))
            },
            WaitEvent::Failed(words) => {
                Err(Error::io("GIT_PROBE_CLEANUP_FAILED", "cannot observe Git child", words.as_str()))
            },
        }
    }

    pub open spec fn reaped(self, event: WaitEvent) -> Result<bool, (Seq<char>, Seq<char>)> {
        if self.status is Some {
            Ok(true)
        } else {
            match event {
                WaitEvent::Running => Ok(false),
                WaitEvent::Exited(_) => Ok(true),
                WaitEvent::Lost => Err(
                    ("GIT_PROBE_CLEANUP_FAILED"@, "lost ownership of Git child"@),
                ),
                WaitEvent::Failed(words) => Err(
                    ("GIT_PROBE_CLEANUP_FAILED"@, "cannot reap Git child"@ + ": "@ + words@),
                ),
            }
        }
    }

    /// The child after an attempt to reap it: the right to wait for it is used up, or lost.
    pub open spec fn after_reap(self, event: WaitEvent) -> GitChild {
        if self.status is Some {
            self
        } else {
            match event {
                WaitEvent::Exited(report) => GitChild {
                    wait_capability: None,
                    exit_observed: true,
                    status: Some(report),
                    ..self
                },
                WaitEvent::Lost => GitChild {
                    wait_capability: None,
                    process_group: None,
                    ..self
                },
                _ => self,
            }
        }
    }

    /// Learns from an attempt to reap. The event is not looked at where the child was reaped before.
    pub fn reap_if_exited(&mut self, event: &WaitEvent) -> (reaped: Result<bool, Error>)
        ensures
            match old(self).reaped(*event) {
                Ok(known) => reaped == Ok::<bool, Error>(known),
                Err(error) => reaped matches Err(made) && made@ == error,
            },
            *final(self) == old(self).after_reap(*event),
    {
        if self.status.is_some() {
            return Ok(true);
        }
        match event {
            WaitEvent::Exited(report) => {
                self.wait_capability = None;
                self.exit_observed = true;
                self.status = Some(*report);
                Ok(true)
            },
            WaitEvent::Running => Ok(false),
            WaitEvent::Lost => {
                self.wait_capability = None;
                self.process_group = None;
                Err(Error::new("GIT_PROBE_CLEANUP_FAILED", "lost ownership of Git child"))
            },
            WaitEvent::Failed(words) => {
                Err(Error::io("GIT_PROBE_CLEANUP_FAILED", "cannot reap Git child", words.as_str()))
            },
        }
    }

    fn check_clock(&self, grace: Option<u64>, now: u64) -> (step: CaptureStep)
        ensures
            step@ == capture_clock(self.deadline, grace, now),
    {
        if now >= self.deadline {
            return CaptureStep::Fail(
                Error::new("GIT_PROBE_FAILED", "Git child exceeded its shared deadline"),
            );
        }
        let until: u64 = match grace {
            Some(grace) => {
                if now >= grace {
                    return CaptureStep::Fail(
                        Error::new(
                            "GIT_PROBE_FAILED",
                            "Git child exited but an escaped pipe remained open",
                        ),
                    );
                }
                min(grace, self.deadline)
            },
            None => self.deadline,
        };
        CaptureStep::Wait(time_to_wait(until, now))
    }

    /// How long an exited child's pipes may stay open: the grace starts when the exit is first seen
    /// with a pipe still open.
    pub open spec fn grace_after(self, grace: Option<u64>, exited: bool, now: u64) -> Option<u64> {
        if exited && grace is None && !self.pipes_are_closed() {
            Some(later(now, ESCAPED_PIPE_GRACE))
        } else {
            grace
        }
    }

    pub open spec fn capture_spec(
        self,
        grace: Option<u64>,
        stdout: Drained,
        stderr: Drained,
        exit: WaitEvent,
        now: u64,
    ) -> CaptureView {
        if stdout is Err {
            probe_failed("cannot read Git stdout"@ + ": "@ + drain_words(stdout))
        } else if stderr is Err {
            probe_failed("cannot read Git stderr"@ + ": "@ + drain_words(stderr))
        } else if stdout->Ok_0 || stderr->Ok_0 {
            probe_failed("Git child output exceeded the limit"@)
        } else {
            match self.observed(exit) {
                Err(error) => CaptureView::Fail(error),
                Ok(exited) => if self.pipes_are_closed() {
                    CaptureView::Reap
                } else {
                    capture_clock(self.deadline, self.grace_after(grace, exited, now), now)
                },
            }
        }
    }

    /// One round of capturing, after both pipes were drained and the child was observed. The grace
    /// for pipes that outlive the child comes back with the step.
    pub fn capture_round(
        &mut self,
        grace: Option<u64>,
        stdout: &Drained,
        stderr: &Drained,
        exit: &WaitEvent,
        now: u64,
    ) -> (round: (Option<u64>, CaptureStep))
        ensures
            round.1@ == old(self).capture_spec(grace, *stdout, *stderr, *exit, now),
            round.0 == (if drained_whole(*stdout, *stderr) && old(self).observed(*exit) is Ok {
                old(self).grace_after(grace, old(self).observed(*exit)->Ok_0, now)
            } else {
                grace
            }),
            *final(self) == (if drained_whole(*stdout, *stderr) {
                old(self).after_observation(*exit)
            } else {
                *old(self)
            }),
    {
        let stdout_exceeded: bool = match stdout {
            Ok(exceeded) => *exceeded,
            Err(words) => {
                return (
                    grace,
                    CaptureStep::Fail(
                        Error::io("GIT_PROBE_FAILED", "cannot read Git stdout", words.as_str()),
                    ),
                );
            },
        };
        let stderr_exceeded: bool = match stderr {
            Ok(exceeded) => *exceeded,
            Err(words) => {
                return (
                    grace,
                    CaptureStep::Fail(
                        Error::io("GIT_PROBE_FAILED", "cannot read Git stderr", words.as_str()),
                    ),
                );
            },
        };
        if stdout_exceeded || stderr_exceeded {
            return (
                grace,
                CaptureStep::Fail(
                    Error::new("GIT_PROBE_FAILED", "Git child output exceeded the limit"),
                ),
            );
        }
        match self.observe_exit(exit) {
            Err(error) => (grace, CaptureStep::Fail(error)),
            Ok(exited) => {
                let closed: bool = self.pipes_closed();
                let grace: Option<u64> = if exited && grace.is_none() && !closed {
                    Some(now.saturating_add(ESCAPED_PIPE_GRACE))
                } else {
                    grace
                };
                if closed {
                    (grace, CaptureStep::Reap)
                } else {
                    (grace, self.check_clock(grace, now))
                }
            },
        }
    }

    /// What follows an attempt to reap a child whose pipes are closed.
    pub fn capture_reaped(&mut self, grace: Option<u64>, event: &WaitEvent, now: u64) -> (step:
        CaptureStep)
        ensures
            step@ == match old(self).reaped(*event) {
                Err(error) => CaptureView::Fail(error),
                Ok(true) => CaptureView::Finish,
                Ok(false) => capture_clock(old(self).deadline, grace, now),
            },
            *final(self) == old(self).after_reap(*event),
    {
        match self.reap_if_exited(event) {
            Err(error) => CaptureStep::Fail(error),
            Ok(true) => CaptureStep::Finish,
            Ok(false) => self.check_clock(grace, now),
        }
    }

    /// What a failed wait for pipe activity means.
    pub fn capture_polled(words: &str) -> (error: Error)
        ensures
            error@ == ("GIT_PROBE_FAILED"@, "cannot poll Git pipes"@ + ": "@ + words@),
    {
        Error::io("GIT_PROBE_FAILED", "cannot poll Git pipes", words)
    }

    /// The child without its pipes, once its output is taken.
    pub open spec fn taken(self) -> GitChild {
        GitChild { process_group: None, settled: true, stdout: None, stderr: None, ..self }
    }

    /// The output of a child. One that was not reaped before is reaped now, and the event tells how
    /// that went; otherwise the event is not looked at.
    pub fn take_output(&mut self, event: &WaitEvent) -> (output: Result<Output, Error>)
        ensures
            match (old(self).reaped(*event), old(self).after_reap(*event).status) {
                (Err(error), _) => {
                    &&& output matches Err(made)
                    &&& made@ == error
                    &&& *final(self) == old(self).after_reap(*event)
                },
                (Ok(_), None) => {
                    &&& output matches Err(made)
                    &&& made@ == (
                        "GIT_PROBE_CLEANUP_FAILED"@,
                        "Git child closed its pipes without a wait result"@,
                    )
                    &&& *final(self) == *old(self)
                },
                (Ok(_), Some(status)) => {
                    &&& output matches Ok(taken)
                    &&& taken.status == status
                    &&& taken.stdout@ == match old(self).stdout {
                        Some(pipe) => pipe.retained@,
                        None => Seq::empty(),
                    }
                    &&& taken.stderr@ == match old(self).stderr {
                        Some(pipe) => pipe.retained@,
                        None => Seq::empty(),
                    }
                    &&& *final(self) == old(self).after_reap(*event).taken()
                },
            },
    {
        self.reap_if_exited(event)?;
        match self.status {
            None => Err(
                Error::new(
                    "GIT_PROBE_CLEANUP_FAILED",
                    "Git child closed its pipes without a wait result",
                ),
            ),
            Some(status) => {
                self.process_group = None;
                self.settled = true;
                let stdout = match self.stdout.take() {
                    Some(pipe) => pipe.into_bytes(),
                    None => Vec::new(),
                };
                let stderr = match self.stderr.take() {
                    Some(pipe) => pipe.into_bytes(),
                    None => Vec::new(),
                };
                Ok(Output { stdout, stderr, status })
            },
        }
    }

    /// What is said of a wait for a program in the foreground.
    pub open spec fn direct_wait(self, event: WaitEvent) -> Result<
        Option<ExitReport>,
        (Seq<char>, Seq<char>),
    > {
        if !self.direct {
            Err(("EXEC_FAILED"@, "direct wait was requested for a captured child"@))
        } else {
            match event {
                WaitEvent::Exited(report) => Ok(Some(report)),
                WaitEvent::Running => Ok(None),
                WaitEvent::Lost => Err(
                    ("EXEC_CLEANUP_FAILED"@, "lost ownership of session program"@),
                ),
                WaitEvent::Failed(words) => Err(
                    ("EXEC_FAILED"@, "cannot wait for session program"@ + ": "@ + words@),
                ),
            }
        }
    }

    /// The program after a wait for it: settled with its status, or lost. After a wait that failed it
    /// is still to be cleaned up.
    pub open spec fn after_direct_wait(self, event: WaitEvent) -> GitChild {
        if !self.direct {
            self
        } else {
            match event {
                WaitEvent::Exited(report) => GitChild {
                    wait_capability: None,
                    exit_observed: true,
                    status: Some(report),
                    settled: true,
                    ..self
                },
                WaitEvent::Lost => GitChild {
                    wait_capability: None,
                    process_group: None,
                    settled: true,
                    ..self
                },
                _ => self,
            }
        }
    }

    /// Learns how a program in the foreground ended. `None` is a wait that has to go on.
    pub fn wait_direct(&mut self, event: &WaitEvent) -> (waited: Result<Option<ExitReport>, Error>)
        ensures
            match old(self).direct_wait(*event) {
                Ok(report) => waited == Ok::<Option<ExitReport>, Error>(report),
                Err(error) => waited matches Err(made) && made@ == error,
            },
            *final(self) == old(self).after_direct_wait(*event),
    {
        if !self.direct {
            return Err(
                Error::new("EXEC_FAILED", "direct wait was requested for a captured child"),
            );
        }
        match event {
            WaitEvent::Exited(report) => {
                self.wait_capability = None;
                self.exit_observed = true;
                self.status = Some(*report);
                self.settled = true;
                Ok(Some(*report))
            },
            WaitEvent::Running => Ok(None),
            WaitEvent::Lost => {
                self.wait_capability = None;
                self.process_group = None;
                self.settled = true;
                Err(Error::new("EXEC_CLEANUP_FAILED", "lost ownership of session program"))
            },
            WaitEvent::Failed(words) => Err(
                Error::io("EXEC_FAILED", "cannot wait for session program", words.as_str()),
            ),
        }
    }

    /// Pending batch output becomes the start of the captured output.
    pub fn begin_capture(&mut self)
        ensures
            final(self).stdout_pending@.len() == 0,
            old(self).stdout matches Some(before) ==> {
                &&& final(self).stdout matches Some(after)
                &&& after.retained@ == before.retained@ + old(self).stdout_pending@
                &&& after.eof == before.eof
            },
            old(self).stdout is None ==> final(self).stdout is None,
            final(self).stderr == old(self).stderr,
            final(self).status == old(self).status,
            final(self).deadline == old(self).deadline,
            final(self).exit_observed == old(self).exit_observed,
            final(self).wait_capability == old(self).wait_capability,
            final(self).process_group == old(self).process_group,
            final(self).direct == old(self).direct,
            final(self).stdin == old(self).stdin,
            final(self).hard_deadline == old(self).hard_deadline,
            final(self).progress_timeout == old(self).progress_timeout,
            final(self).settled == old(self).settled,
    {
        let pending = copy_bytes(self.stdout_pending.as_slice());
        self.stdout_pending = Vec::new();
        if let Some(pipe) = self.stdout.take() {
            let mut pipe = pipe;
            append(&mut pipe.retained, pending.as_slice());
            self.stdout = Some(pipe);
        }
    }

    pub open spec fn termination_spec(self) -> Termination {
        if self.direct {
            Termination::Child
        } else {
            match self.process_group {
                Some(group) => Termination::Group(group),
                None => Termination::Nothing,
            }
        }
    }

    /// How this child is ended by force.
    pub fn terminate(&self) -> (termination: Termination)
        ensures
            termination == self.termination_spec(),
    {
        if self.direct {
            Termination::Child
        } else {
            match self.process_group {
                Some(group) => Termination::Group(group),
                None => Termination::Nothing,
            }
        }
    }

    /// This is `before` with every pipe closed.
    pub open spec fn closed_from(self, before: GitChild) -> bool {
        &&& self.stdout_pending@.len() == 0
        &&& self == (GitChild {
            stdin: false,
            stdout: None,
            stderr: None,
            stdout_pending: self.stdout_pending,
            ..before
        })
    }

    pub fn close_pipes(&mut self)
        ensures
            final(self).closed_from(*old(self)),
    {
        self.stdin = false;
        self.stdout = None;
        self.stderr = None;
        self.stdout_pending = Vec::new();
    }
}

impl GitChild {
    /// The child as far as its owner is done with it: its group is let go, and it is settled.
    pub open spec fn given_up(self) -> GitChild {
        GitChild { process_group: None, settled: true, ..self }
    }
}

/// The ending of a child that is given up: what was wrong, and what went wrong since.
#[derive(Debug)]
pub struct Cleanup {
    pub primary: Error,
    pub code: &'static str,
    pub error: Option<Error>,
    pub deadline: u64,
}

/// What the ending does next.
#[derive(Debug)]
pub enum CleanupStep {
    /// Wait for pipe activity, for at most this long.
    Wait(u64),
    /// The child is settled; this is what to report.
    Done(Error),
}

/// What is reported: the primary error, unless ending the child went wrong as well.
pub open spec fn cleanup_report(
    primary: (Seq<char>, Seq<char>),
    error: Option<(Seq<char>, Seq<char>)>,
) -> (Seq<char>, Seq<char>) {
    match error {
        Some(error) => (error.0, error.1 + "; primary: "@ + shown(primary)),
        None => primary,
    }
}

pub open spec fn retained_words(
    slot: Option<(Seq<char>, Seq<char>)>,
    code: Seq<char>,
    context: Seq<char>,
    words: Seq<char>,
) -> Option<(Seq<char>, Seq<char>)> {
    retained(slot, (code, context + ": "@ + words))
}

/// The errors kept so far, with those of draining the two pipes.
pub open spec fn after_drains(
    slot: Option<(Seq<char>, Seq<char>)>,
    code: Seq<char>,
    stdout: Option<Drained>,
    stderr: Option<Drained>,
) -> Option<(Seq<char>, Seq<char>)> {
    let first = match stdout {
        Some(Err(words)) => retained_words(
            slot,
            code,
            "cannot drain Git cleanup stdout"@,
            words@,
        ),
        _ => slot,
    };
    match stderr {
        Some(Err(words)) => retained_words(first, code, "cannot drain Git cleanup stderr"@, words@),
        _ => first,
    }
}

/// The errors kept when the cleanup deadline passes with the child not reaped.
pub open spec fn after_deadline(
    slot: Option<(Seq<char>, Seq<char>)>,
    code: Seq<char>,
    closed: bool,
) -> Option<(Seq<char>, Seq<char>)> {
    let first = retained(
        slot,
        (code, "Git child was not reaped before its cleanup deadline"@),
    );
    if closed {
        first
    } else {
        retained(first, (code, "Git pipes remained open after cleanup termination"@))
    }
}

impl Cleanup {
    /// Starts to end a child. The child is terminated unless it has exited with its pipes closed.
    pub fn begin(child: &mut GitChild, primary: Error, code: &'static str, exit: &WaitEvent) -> (begun: (
        Cleanup,
        Option<Termination>,
    ))
        ensures
            begun.0.primary == primary,
            begun.0.code == code,
            begun.0.deadline == 0,
            match old(child).observed(*exit) {
                Ok(exited) => {
                    &&& begun.0.error is None
                    &&& begun.1 == (if exited && old(child).pipes_are_closed() {
                        None
                    } else {
                        Some(old(child).termination_spec())
                    })
                },
                Err(error) => {
                    &&& optional_error(begun.0.error) == Some((code@, error.1))
                    &&& begun.1 == Some(final(child).termination_spec())
                },
            },
            *final(child) == (GitChild { stdin: false, ..old(child).after_observation(*exit) }),
    {
        child.stdin = false;
        match child.observe_exit(exit) {
            Ok(exited) => {
                let termination = if exited && child.pipes_closed() {
                    None
                } else {
                    Some(child.terminate())
                };
                (Cleanup { primary, code, error: None, deadline: 0 }, termination)
            },
            Err(error) => {
                let kept = retain_error(None, Error::new(code, error.detail.as_str()));
                (Cleanup { primary, code, error: kept, deadline: 0 }, Some(child.terminate()))
            },
        }
    }

    /// Notes how the termination went, and starts the clock.
    pub fn terminated(self, exited: bool, result: Result<(), String>, now: u64) -> (next: Self)
        ensures
            next.primary == self.primary,
            next.code == self.code,
            next.deadline == later(now, CLEANUP_TIMEOUT),
            optional_error(next.error) == match result {
                Ok(_) => optional_error(self.error),
                Err(words) => retained_words(
                    optional_error(self.error),
                    self.code@,
                    if exited {
                        "cannot terminate Git pipe-holder group"@
                    } else {
                        "cannot terminate Git process group"@
                    },
                    words@,
                ),
            },
    {
        let error = match result {
            Ok(_) => self.error,
            Err(words) => {
                let made = if exited {
                    Error::io(self.code, "cannot terminate Git pipe-holder group", words.as_str())
                } else {
                    Error::io(self.code, "cannot terminate Git process group", words.as_str())
                };
                retain_error(self.error, made)
            },
        };
        Cleanup {
            primary: self.primary,
            code: self.code,
            error,
            deadline: now.saturating_add(CLEANUP_TIMEOUT),
        }
    }

    fn settle(self, child: &mut GitChild, error: Option<Error>) -> (report: Error)
        ensures
            report@ == cleanup_report(self.primary@, optional_error(error)),
            final(child).closed_from(old(child).given_up()),
    {
        child.process_group = None;
        child.close_pipes();
        child.settled = true;
        match error {
            Some(error) => {
                let words = self.primary.to_text();
                Error {
                    code: error.code,
                    detail: join3(error.detail.as_str(), "; primary: ", words.as_str()),
                }
            },
            None => self.primary,
        }
    }

    /// One round of ending a child, after its pipes were drained and an attempt was made to reap it.
    pub fn round(
        self,
        child: &mut GitChild,
        stdout: &Option<Drained>,
        stderr: &Option<Drained>,
        event: &WaitEvent,
        now: u64,
    ) -> (next: (Option<Cleanup>, CleanupStep))
        ensures
            ({
                let errors = after_drains(optional_error(self.error), self.code@, *stdout, *stderr);
                match old(child).reaped(*event) {
                    Ok(true) => next.1 matches CleanupStep::Done(report) && report@
                        == cleanup_report(self.primary@, errors),
                    Err(error) => next.1 matches CleanupStep::Done(report) && report@
                        == cleanup_report(self.primary@, retained(errors, (self.code@, error.1))),
                    Ok(false) => if now >= self.deadline {
                        next.1 matches CleanupStep::Done(report) && report@ == cleanup_report(
                            self.primary@,
                            after_deadline(errors, self.code@, old(child).pipes_are_closed()),
                        )
                    } else {
                        &&& next.1 matches CleanupStep::Wait(time)
                        &&& time == waiting_time(self.deadline, now)
                        &&& next.0 matches Some(kept)
                        &&& kept.primary@ == self.primary@
                        &&& kept.code@ == self.code@
                        &&& kept.deadline == self.deadline
                        &&& optional_error(kept.error) == errors
                    },
                }
            }),
            next.1 is Wait ==> *final(child) == *old(child),
            next.1 is Done ==> {
                &&& next.0 is None
                &&& final(child).closed_from(old(child).after_reap(*event).given_up())
            },
    {
        let Cleanup { primary, code, error, deadline } = self;
        let error = match stdout {
            Some(Err(words)) => retain_error(
                error,
                Error::io(code, "cannot drain Git cleanup stdout", words.as_str()),
            ),
            _ => error,
        };
        let error = match stderr {
            Some(Err(words)) => retain_error(
                error,
                Error::io(code, "cannot drain Git cleanup stderr", words.as_str()),
            ),
            _ => error,
        };
        let rest = Cleanup { primary, code, error: None, deadline };
        match child.reap_if_exited(event) {
            Err(failure) => {
                let error = retain_error(error, Error::new(code, failure.detail.as_str()));
                (None, CleanupStep::Done(rest.settle(child, error)))
            },
            Ok(true) => (None, CleanupStep::Done(rest.settle(child, error))),
            Ok(false) => {
                if now >= deadline {
                    let error = retain_error(
                        error,
                        Error::new(code, "Git child was not reaped before its cleanup deadline"),
                    );
                    let error = if child.pipes_closed() {
                        error
                    } else {
                        retain_error(
                            error,
                            Error::new(code, "Git pipes remained open after cleanup termination"),
                        )
                    };
                    (None, CleanupStep::Done(rest.settle(child, error)))
                } else {
                    let time: u64 = time_to_wait(deadline, now);
                    (
                        Some(Cleanup { primary: rest.primary, code, error, deadline }),
                        CleanupStep::Wait(time),
                    )
                }
            },
        }
    }

    /// Notes a wait for pipe activity that failed.
    pub fn polled(self, words: &str) -> (next: Self)
        ensures
            next.primary == self.primary,
            next.code == self.code,
            next.deadline == self.deadline,
            optional_error(next.error) == retained_words(
                optional_error(self.error),
                self.code@,
                "cannot poll Git cleanup pipes"@,
                words@,
            ),
    {
        let error = retain_error(
            self.error,
            Error::io(self.code, "cannot poll Git cleanup pipes", words),
        );
        Cleanup { primary: self.primary, code: self.code, error, deadline: self.deadline }
    }
}

/// The first thing that goes wrong while a child is ended gives the code of what is reported, and
/// the primary error stands in its words.
pub proof fn law_cleanup_error_precedes_primary(
    primary: (Seq<char>, Seq<char>),
    first: (Seq<char>, Seq<char>),
    second: (Seq<char>, Seq<char>),
)
    ensures
        cleanup_report(primary, retained(None, first)).0 == first.0,
        cleanup_report(primary, retained(retained(None, first), second)).0 == first.0,
        shown(primary).is_suffix_of(cleanup_report(primary, retained(None, first)).1),
        cleanup_report(primary, None) == primary,
{
    let report = cleanup_report(primary, retained(None, first)).1;
    assert(report.subrange(report.len() - shown(primary).len(), report.len() as int) =~= shown(
        primary,
    ));
}

} // verus!
