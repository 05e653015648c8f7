//! What the owner of a child may rely on: its output is read to the end, waits end in time, it is reaped
//! once, and one that belongs to somebody else is left alone.

use crate::child::{
    after_deadline, after_drains, capture_clock, cleanup_report, later, CaptureView, Drained, GitChild,
    Termination, WaitEvent,
};
use crate::git::{shown, ExitReport};
use vstd::prelude::*;

verus! {

/// A capture tries to reap its child once, and only once, both pipes were drained without a failure and
/// without giving up a byte, the child could be observed, and no pipe has more to come.
pub proof fn law_captures_read_to_the_end(
    child: GitChild,
    grace: Option<u64>,
    stdout: Drained,
    stderr: Drained,
    exit: WaitEvent,
    now: u64,
)
    ensures
        child.capture_spec(grace, stdout, stderr, exit, now) is Reap <==> {
            &&& stdout matches Ok(exceeded) && !exceeded
            &&& stderr matches Ok(exceeded) && !exceeded
            &&& child.exit_observed || child.wait_capability is None || exit is Running
                || exit is Exited
            &&& child.stdout matches Some(pipe) ==> pipe.eof
            &&& child.stderr matches Some(pipe) ==> pipe.eof
        },
        child.capture_spec(grace, stdout, stderr, exit, now) !is Finish,
{
}

/// A capture waits only before its deadline and before the end of its grace, and for no longer than
/// either or than ten milliseconds. Behind its deadline it fails, and behind its grace as well.
pub proof fn law_captures_end_in_time(deadline: u64, grace: Option<u64>, now: u64)
    ensures
        capture_clock(deadline, grace, now) is Wait <==> now < deadline && (grace matches Some(end)
            ==> now < end),
        capture_clock(deadline, grace, now) matches CaptureView::Wait(time) ==> now + time <= deadline
            && time <= 10_000_000 && (grace matches Some(end) ==> now + time <= end),
        capture_clock(deadline, grace, now) matches CaptureView::Wait(time) ==> now + time == deadline
            || time == 10_000_000 || grace == Some((now + time) as u64),
        capture_clock(deadline, grace, now) matches CaptureView::Fail(error) ==> error.0
            == "GIT_PROBE_FAILED"@,
{
}

/// The pipes of a child that has exited may stay open for one second from when that was first seen; the
/// clock is not set again.
pub proof fn law_escaped_pipes_have_a_second(
    child: GitChild,
    grace: Option<u64>,
    exited: bool,
    now: u64,
)
    requires
        now + 1_000_000_000 <= u64::MAX,
    ensures
        grace is Some ==> child.grace_after(grace, exited, now) == grace,
        grace is None && (!exited || child.pipes_are_closed()) ==> child.grace_after(
            grace,
            exited,
            now,
        ) is None,
        grace is None && exited && !child.pipes_are_closed() ==> child.grace_after(grace, exited, now)
            == Some((now + 1_000_000_000) as u64),
{
}

/// Reaping a child gives the status that the system told, and gives it once: whatever is told later
/// changes nothing. A child that was reaped is not waited for again.
pub proof fn law_children_are_reaped_once(child: GitChild, report: ExitReport, again: WaitEvent)
    requires
        child.status is None,
    ensures
        ({
            let reaped = child.after_reap(WaitEvent::Exited(report));
            &&& child.reaped(WaitEvent::Exited(report)) == Ok::<bool, (Seq<char>, Seq<char>)>(true)
            &&& reaped.status == Some(report)
            &&& reaped.exit_observed
            &&& reaped.wait_capability is None
            &&& reaped.after_reap(again) == reaped
            &&& reaped.reaped(again) == Ok::<bool, (Seq<char>, Seq<char>)>(true)
            &&& reaped.observed(again) == Ok::<bool, (Seq<char>, Seq<char>)>(true)
            &&& reaped.after_observation(again) == reaped
        }),
        child.after_reap(WaitEvent::Running) == child,
        child.reaped(WaitEvent::Running) == Ok::<bool, (Seq<char>, Seq<char>)>(false),
{
}

/// Observing an exit leaves the child to be reaped.
pub proof fn law_observed_children_are_still_to_be_reaped(child: GitChild, report: ExitReport)
    requires
        child.wait_capability is Some,
    ensures
        child.observed(WaitEvent::Exited(report)) == Ok::<bool, (Seq<char>, Seq<char>)>(true),
        child.after_observation(WaitEvent::Exited(report)).exit_observed,
        child.after_observation(WaitEvent::Exited(report)).wait_capability == child.wait_capability,
        child.after_observation(WaitEvent::Exited(report)).status == child.status,
        !child.exit_observed ==> child.observed(WaitEvent::Running) == Ok::<
            bool,
            (Seq<char>, Seq<char>),
        >(false),
{
}

/// A child that somebody else has reaped is neither waited for nor signalled: its number may be that of
/// another process by now.
pub proof fn law_lost_children_are_left_alone(child: GitChild)
    requires
        !child.direct,
        !child.exit_observed,
        child.wait_capability is Some,
        child.status is None,
    ensures
        child.observed(WaitEvent::Lost) is Err,
        child.after_observation(WaitEvent::Lost).wait_capability is None,
        child.after_observation(WaitEvent::Lost).termination_spec() == Termination::Nothing,
        child.reaped(WaitEvent::Lost) is Err,
        child.after_reap(WaitEvent::Lost).wait_capability is None,
        child.after_reap(WaitEvent::Lost).termination_spec() == Termination::Nothing,
        child.taken().termination_spec() == Termination::Nothing,
        child.given_up().termination_spec() == Termination::Nothing,
{
}

/// A program in the foreground ends with the status that the system told, and is done with then; one
/// that still runs is waited for again, and is not changed.
pub proof fn law_foreground_programs_give_their_status(child: GitChild, report: ExitReport)
    requires
        child.direct,
    ensures
        child.direct_wait(WaitEvent::Exited(report)) == Ok::<
            Option<ExitReport>,
            (Seq<char>, Seq<char>),
        >(Some(report)),
        child.after_direct_wait(WaitEvent::Exited(report)).status == Some(report),
        child.after_direct_wait(WaitEvent::Exited(report)).settled,
        child.after_direct_wait(WaitEvent::Exited(report)).wait_capability is None,
        child.direct_wait(WaitEvent::Running) == Ok::<Option<ExitReport>, (Seq<char>, Seq<char>)>(
            None,
        ),
        child.after_direct_wait(WaitEvent::Running) == child,
        child.direct_wait(WaitEvent::Lost) is Err,
        child.after_direct_wait(WaitEvent::Lost).settled,
{
}

/// Progress moves the deadline by the time that a child may be idle, and never past the hard one.
pub proof fn law_progress_stays_before_the_hard_deadline(child: GitChild, now: u64)
    ensures
        child.progress_timeout is Some && child.hard_deadline is Some ==> child.moved_deadline(now)
            <= child.hard_deadline->0,
        child.progress_timeout matches Some(timeout) ==> {
            let moved = child.moved_deadline(now);
            ||| moved == now + timeout
            ||| moved == u64::MAX && now + timeout > u64::MAX
            ||| child.hard_deadline == Some(moved) && moved <= now + timeout
        },
        child.progress_timeout is None ==> child.moved_deadline(now) == child.deadline,
        child.past_hard_deadline(now) <==> (child.hard_deadline matches Some(hard) && now >= hard),
        later(now, 0) == now,
{
}

/// Whatever goes wrong while a child is ended is reported under the code of the cleanup; a cleanup that
/// found nothing wrong reports what was wrong before it. Failures to drain are told of each pipe, and a
/// pipe that stays open is told of as well.
pub proof fn law_cleanup_tells_what_went_wrong(
    primary: (Seq<char>, Seq<char>),
    code: Seq<char>,
    stdout: Option<Drained>,
    stderr: Option<Drained>,
    closed: bool,
)
    ensures
        after_drains(None, code, stdout, stderr) is Some <==> {
            ||| stdout matches Some(Err(_))
            ||| stderr matches Some(Err(_))
        },
        after_drains(None, code, stdout, stderr) matches Some(error) ==> error.0 == code,
        stdout matches Some(Err(words)) ==> stderr !is Some ==> after_drains(None, code, stdout, stderr)
            == Some((code, "cannot drain Git cleanup stdout"@ + ": "@ + words@)),
        stderr matches Some(Err(words)) ==> stdout !is Some ==> after_drains(None, code, stdout, stderr)
            == Some((code, "cannot drain Git cleanup stderr"@ + ": "@ + words@)),
        after_deadline(None, code, true) == Some(
            (code, "Git child was not reaped before its cleanup deadline"@),
        ),
        after_deadline(None, code, closed) matches Some(error) && error.0 == code,
        !closed ==> after_deadline(None, code, closed) == Some(
            (
                code,
                "Git child was not reaped before its cleanup deadline"@ + "; "@ + shown(
                    (code, "Git pipes remained open after cleanup termination"@),
                ),
            ),
        ),
        cleanup_report(primary, None) == primary,
        cleanup_report(primary, after_deadline(None, code, closed)).0 == code,
{
}

} // verus!
