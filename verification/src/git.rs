//! Git children: the environment they get, what is kept of their output, and how a child that has
//! to be given up is brought to an end.

use crate::bytes::{append, bytes_of, copy_bytes, join3, starts_with, text_of, utf8};
use vstd::prelude::*;
use vstd::string::StringExecFns;

verus! {

/// How much of each output stream of a captured child is kept.
pub const DEFAULT_LIMIT: usize = 16384;

/// How much unread batch output may be pending.
pub const MAX_PENDING: usize = 1048576;

/// Time is counted in nanoseconds.
pub const CLEANUP_TIMEOUT: u64 = 1000000000;

pub const ESCAPED_PIPE_GRACE: u64 = 1000000000;

pub const POLL_INTERVAL: u64 = 10000000;

#[derive(Debug)]
pub struct Error {
    pub code: &'static str,
    pub detail: String,
}

impl View for Error {
    type V = (Seq<char>, Seq<char>);

    open spec fn view(&self) -> (Seq<char>, Seq<char>) {
        (self.code@, self.detail@)
    }
}

/// What an error is shown as.
pub open spec fn shown(error: (Seq<char>, Seq<char>)) -> Seq<char> {
    error.0 + ": "@ + error.1
}

impl Error {
    pub fn new(code: &'static str, detail: &str) -> (error: Self)
        ensures
            error@ == (code@, detail@),
    {
        Error { code, detail: text_of(detail) }
    }

    /// An error of the system, whose own words are `error`.
    pub fn io(code: &'static str, context: &str, error: &str) -> (made: Self)
        ensures
            made@ == (code@, context@ + ": "@ + error@),
    {
        Error { code, detail: join3(context, ": ", error) }
    }

    pub fn copy(&self) -> (same: Self)
        ensures
            same@ == self@,
    {
        Error { code: self.code, detail: self.detail.clone() }
    }

    pub fn to_text(&self) -> (text: String)
        ensures
            text@ == shown(self@),
    {
        join3(self.code, ": ", self.detail.as_str())
    }
}

/// Which configuration a child may read.
#[derive(Clone, Copy, Debug, PartialEq, Eq, Structural)]
pub enum AuditConfig {
    Isolated,
    Authority,
}

/// How a child ended: with a code, or by a signal.
#[derive(Clone, Copy, Debug, PartialEq, Eq, Structural)]
pub struct ExitReport {
    pub code: Option<i32>,
    pub signal: Option<i32>,
}

impl ExitReport {
    pub open spec fn succeeded(self) -> bool {
        self.code == Some(0i32)
    }

    pub fn success(&self) -> (succeeded: bool)
        ensures
            succeeded == self.succeeded(),
    {
        match self.code {
            Some(code) => code == 0,
            None => false,
        }
    }
}

/// What a child that ended has written.
#[derive(Debug)]
pub struct Output {
    pub stdout: Vec<u8>,
    pub stderr: Vec<u8>,
    pub status: ExitReport,
}

impl Output {
    /// The child succeeded without a word on its error stream.
    pub open spec fn clean(self) -> bool {
        self.status.succeeded() && self.stderr@.len() == 0
    }

    /// The child succeeded without a word.
    pub open spec fn silent(self) -> bool {
        self.clean() && self.stdout@.len() == 0
    }

    pub fn is_clean(&self) -> (is: bool)
        ensures
            is == self.clean(),
    {
        self.status.success() && self.stderr.len() == 0
    }

    pub fn is_silent(&self) -> (is: bool)
        ensures
            is == self.silent(),
    {
        self.is_clean() && self.stdout.len() == 0
    }
}

/// A variable that a child is given.
#[derive(Debug)]
pub struct Assignment {
    pub name: Vec<u8>,
    pub value: Vec<u8>,
}

impl View for Assignment {
    type V = (Seq<u8>, Seq<u8>);

    open spec fn view(&self) -> (Seq<u8>, Seq<u8>) {
        (self.name@, self.value@)
    }
}

/// What is done to the inherited environment: removals first, then assignments in their order.
#[derive(Debug)]
pub struct EnvironmentPlan {
    pub remove: Vec<Vec<u8>>,
    pub assign: Vec<Assignment>,
}

pub open spec fn assigned(list: Seq<Assignment>) -> Seq<(Seq<u8>, Seq<u8>)> {
    Seq::new(list.len(), |i: int| list[i]@)
}

/// A variable that steers Git.
pub open spec fn steers_git(name: Seq<u8>) -> bool {
    utf8("GIT_"@).is_prefix_of(name)
}

/// The inherited variables that steer Git, in their order.
pub open spec fn steering(names: Seq<Seq<u8>>) -> Seq<Seq<u8>>
    decreases names.len(),
{
    if names.len() == 0 {
        Seq::empty()
    } else if steers_git(names.last()) {
        steering(names.drop_last()).push(names.last())
    } else {
        steering(names.drop_last())
    }
}

/// The variables that every captured child is given.
pub open spec fn fixed_assignments(audit: AuditConfig) -> Seq<(Seq<u8>, Seq<u8>)> {
    let common = seq![
        (utf8("LC_ALL"@), utf8("C"@)),
        (utf8("GIT_OPTIONAL_LOCKS"@), utf8("0"@)),
        (utf8("GIT_MAINTENANCE_AUTO"@), utf8("0"@)),
        (utf8("GIT_TERMINAL_PROMPT"@), utf8("0"@)),
        (utf8("GIT_NO_LAZY_FETCH"@), utf8("1"@)),
        (utf8("GIT_NO_REPLACE_OBJECTS"@), utf8("1"@)),
        (utf8("GIT_CONFIG_NOSYSTEM"@), utf8("1"@)),
        (utf8("GIT_CONFIG_GLOBAL"@), utf8("/dev/null"@)),
    ];
    match audit {
        AuditConfig::Isolated => common.push((utf8("GIT_ATTR_NOSYSTEM"@), utf8("1"@))),
        AuditConfig::Authority => common,
    }
}

/// The inherited variables that a child must not see.
pub fn steering_variables(names: &Vec<Vec<u8>>) -> (found: Vec<Vec<u8>>)
    ensures
        crate::bytes::views(found@) == steering(crate::bytes::views(names@)),
{
    let mut found: Vec<Vec<u8>> = Vec::new();
    let mut i: usize = 0;
    proof {
        assert(crate::bytes::views(found@) =~= steering(crate::bytes::views(names@).subrange(0, 0)));
    }
    while i < names.len()
        invariant
            i <= names@.len(),
            crate::bytes::views(found@) == steering(
                crate::bytes::views(names@).subrange(0, i as int),
            ),
        decreases names@.len() - i,
    {
        let ghost before = found@;
        if starts_with(names[i].as_slice(), "GIT_".as_bytes()) {
            found.push(copy_bytes(names[i].as_slice()));
        }
        i += 1;
        proof {
            let done = crate::bytes::views(names@).subrange(0, i as int);
            assert(done.drop_last() =~= crate::bytes::views(names@).subrange(0, i - 1));
            assert(done.last() == names@[i - 1]@);
            if steers_git(done.last()) {
                assert(crate::bytes::views(found@) =~= crate::bytes::views(before).push(done.last()));
            }
        }
    }
    proof {
        assert(crate::bytes::views(names@).subrange(0, i as int) =~= crate::bytes::views(names@));
    }
    found
}

fn assign(list: &mut Vec<Assignment>, name: &str, value: &str)
    ensures
        assigned(final(list)@) == assigned(old(list)@).push((utf8(name@), utf8(value@))),
{
    list.push(Assignment { name: bytes_of(name), value: bytes_of(value) });
    proof {
        assert(assigned(list@) =~= assigned(old(list)@).push((utf8(name@), utf8(value@))));
    }
}

/// The environment of a captured child.
pub fn child_environment(
    inherited: &Vec<Vec<u8>>,
    extra: &Vec<Assignment>,
    audit: AuditConfig,
) -> (plan: EnvironmentPlan)
    ensures
        crate::bytes::views(plan.remove@) == steering(crate::bytes::views(inherited@)),
        assigned(plan.assign@) == fixed_assignments(audit) + assigned(extra@),
{
    let mut list: Vec<Assignment> = Vec::new();
    assign(&mut list, "LC_ALL", "C");
    assign(&mut list, "GIT_OPTIONAL_LOCKS", "0");
    assign(&mut list, "GIT_MAINTENANCE_AUTO", "0");
    assign(&mut list, "GIT_TERMINAL_PROMPT", "0");
    assign(&mut list, "GIT_NO_LAZY_FETCH", "1");
    assign(&mut list, "GIT_NO_REPLACE_OBJECTS", "1");
    assign(&mut list, "GIT_CONFIG_NOSYSTEM", "1");
    assign(&mut list, "GIT_CONFIG_GLOBAL", "/dev/null");
    match audit {
        AuditConfig::Isolated => {
            assign(&mut list, "GIT_ATTR_NOSYSTEM", "1");
        },
        AuditConfig::Authority => {},
    }
    proof {
        assert(assigned(list@) =~= fixed_assignments(audit));
    }
    let mut i: usize = 0;
    while i < extra.len()
        invariant
            i <= extra@.len(),
            assigned(list@) == fixed_assignments(audit) + assigned(extra@).subrange(0, i as int),
        decreases extra@.len() - i,
    {
        let ghost before = list@;
        list.push(
            Assignment {
                name: copy_bytes(extra[i].name.as_slice()),
                value: copy_bytes(extra[i].value.as_slice()),
            },
        );
        i += 1;
        proof {
            assert(assigned(list@) =~= assigned(before).push(assigned(extra@)[i - 1]));
            assert(assigned(extra@).subrange(0, i as int) =~= assigned(extra@).subrange(
                0,
                i - 1,
            ).push(assigned(extra@)[i - 1]));
            assert(assigned(list@) =~= fixed_assignments(audit) + assigned(extra@).subrange(
                0,
                i as int,
            ));
        }
    }
    proof {
        assert(assigned(extra@).subrange(0, i as int) =~= assigned(extra@));
    }
    EnvironmentPlan { remove: steering_variables(inherited), assign: list }
}

/// A variable is among the steering ones exactly when it is inherited and steers Git.
proof fn lemma_steering(names: Seq<Seq<u8>>, name: Seq<u8>)
    ensures
        steering(names).contains(name) <==> names.contains(name) && steers_git(name),
    decreases names.len(),
{
    if names.len() > 0 {
        let earlier = names.drop_last();
        lemma_steering(earlier, name);
        assert(names =~= earlier.push(names.last()));
        if names.contains(name) {
            let i = choose|i: int| 0 <= i < names.len() && names[i] == name;
            if i < earlier.len() {
                assert(earlier[i] == name);
            }
        }
        if steers_git(names.last()) {
            let kept = steering(earlier);
            let all = kept.push(names.last());
            if kept.contains(name) {
                let i = choose|i: int| 0 <= i < kept.len() && kept[i] == name;
                assert(all[i] == name);
            }
            if name == names.last() {
                assert(all[kept.len() as int] == name);
                assert(names[names.len() - 1] == name);
            }
            if all.contains(name) && !kept.contains(name) {
                let i = choose|i: int| 0 <= i < all.len() && all[i] == name;
                if i < kept.len() {
                    assert(kept[i] == name);
                }
            }
        }
        if earlier.contains(name) {
            let i = choose|i: int| 0 <= i < earlier.len() && earlier[i] == name;
            assert(names[i] == name);
        }
    }
}

/// No inherited variable that steers Git reaches a child: each is removed before the fixed ones are
/// given.
pub proof fn law_no_inherited_steering(names: Seq<Seq<u8>>, name: Seq<u8>)
    requires
        names.contains(name),
        steers_git(name),
    ensures
        steering(names).contains(name),
{
    lemma_steering(names, name);
}

/// A variable that does not steer Git is left as it is inherited.
pub proof fn law_other_variables_stay(names: Seq<Seq<u8>>, name: Seq<u8>)
    requires
        !steers_git(name),
    ensures
        !steering(names).contains(name),
{
    lemma_steering(names, name);
}

/// Keeps the first cleanup error and adds the later ones to its words.
pub open spec fn retained(
    slot: Option<(Seq<char>, Seq<char>)>,
    error: (Seq<char>, Seq<char>),
) -> Option<(Seq<char>, Seq<char>)> {
    match slot {
        Some(previous) => Some((previous.0, previous.1 + "; "@ + shown(error))),
        None => Some(error),
    }
}

pub open spec fn optional_error(slot: Option<Error>) -> Option<(Seq<char>, Seq<char>)> {
    match slot {
        Some(error) => Some(error@),
        None => None,
    }
}

pub fn retain_error(slot: Option<Error>, error: Error) -> (kept: Option<Error>)
    ensures
        optional_error(kept) == retained(optional_error(slot), error@),
{
    match slot {
        Some(previous) => {
            let words = error.to_text();
            Some(
                Error {
                    code: previous.code,
                    detail: join3(previous.detail.as_str(), "; ", words.as_str()),
                },
            )
        },
        None => Some(error),
    }
}

/// What one read of a stream gave.
#[derive(Debug)]
pub enum ReadEvent {
    Bytes(Vec<u8>),
    Eof,
    WouldBlock,
    Interrupted,
    Failed(String),
}

/// What to do after a read.
#[derive(Debug)]
pub enum DrainStep {
    /// Read again.
    More,
    /// Stop; `true` where bytes had to be given up.
    Done(bool),
    /// The stream cannot be read.
    Failed(String),
}

/// What is kept of an output stream.
#[derive(Debug)]
pub struct Pipe {
    pub retained: Vec<u8>,
    pub eof: bool,
}

/// How many of `count` more bytes fit below `limit` behind `held`.
pub open spec fn accepted(held: nat, limit: nat, count: nat) -> nat {
    let available = if limit >= held {
        (limit - held) as nat
    } else {
        0
    };
    if available < count {
        available
    } else {
        count
    }
}

#[verifier::ext_equal]
pub struct PipeView {
    pub retained: Seq<u8>,
    pub eof: bool,
}

impl View for Pipe {
    type V = PipeView;

    open spec fn view(&self) -> PipeView {
        PipeView { retained: self.retained@, eof: self.eof }
    }
}

impl ReadEvent {
    /// The bytes that the read gave.
    pub open spec fn bytes(self) -> Seq<u8> {
        match self {
            ReadEvent::Bytes(bytes) => bytes@,
            _ => Seq::empty(),
        }
    }

    pub open spec fn is_end(self) -> bool {
        self is Eof || (self is Bytes && self.bytes().len() == 0)
    }
}

/// The bytes that a row of reads gave.
pub open spec fn read_bytes(events: Seq<ReadEvent>) -> Seq<u8>
    decreases events.len(),
{
    if events.len() == 0 {
        Seq::empty()
    } else {
        read_bytes(events.drop_last()) + events.last().bytes()
    }
}

impl PipeView {
    /// How many bytes of a read are kept.
    pub open spec fn takes(self, event: ReadEvent, limit: nat) -> nat {
        accepted(self.retained.len(), limit, event.bytes().len())
    }

    pub open spec fn gives_up(self, event: ReadEvent, limit: nat) -> bool {
        self.takes(event, limit) < event.bytes().len()
    }

    pub open spec fn after(self, event: ReadEvent, limit: nat) -> PipeView {
        PipeView {
            retained: self.retained + event.bytes().take(self.takes(event, limit) as int),
            eof: self.eof || event.is_end(),
        }
    }

    pub open spec fn after_all(self, events: Seq<ReadEvent>, limit: nat) -> PipeView
        decreases events.len(),
    {
        if events.len() == 0 {
            self
        } else {
            self.after_all(events.drop_last(), limit).after(events.last(), limit)
        }
    }

    /// Some read of the row had bytes that were given up.
    pub open spec fn gives_up_any(self, events: Seq<ReadEvent>, limit: nat) -> bool
        decreases events.len(),
    {
        events.len() > 0 && (self.gives_up_any(events.drop_last(), limit) || self.after_all(
            events.drop_last(),
            limit,
        ).gives_up(events.last(), limit))
    }
}

/// What is kept of a row of reads under one limit is a prefix of all that was read, as much of it as
/// the limit leaves room for; and bytes were given up exactly where that is not all.
pub proof fn law_kept_output_is_a_prefix(pipe: PipeView, events: Seq<ReadEvent>, limit: nat)
    ensures
        pipe.after_all(events, limit).retained == pipe.retained + read_bytes(events).take(
            accepted(pipe.retained.len(), limit, read_bytes(events).len()) as int,
        ),
        pipe.after_all(events, limit).retained.is_prefix_of(pipe.retained + read_bytes(events)),
        pipe.gives_up_any(events, limit) <==> pipe.after_all(events, limit).retained.len()
            < pipe.retained.len() + read_bytes(events).len(),
    decreases events.len(),
{
    let kept = pipe.after_all(events, limit).retained;
    let all = read_bytes(events);
    if events.len() > 0 {
        law_kept_output_is_a_prefix(pipe, events.drop_last(), limit);
    }
    assert(kept =~= pipe.retained + all.take(
        accepted(pipe.retained.len(), limit, all.len()) as int,
    ));
    assert(kept =~= (pipe.retained + all).take(kept.len() as int));
}

impl Pipe {
    pub fn new() -> (pipe: Self)
        ensures
            pipe.retained@ == Seq::<u8>::empty(),
            !pipe.eof,
    {
        Pipe { retained: Vec::new(), eof: false }
    }

    /// Takes in what a read gave, and says whether to read on.
    pub fn drain(&mut self, event: ReadEvent, limit: usize) -> (step: DrainStep)
        ensures
            final(self)@ == old(self)@.after(event, limit as nat),
            match event {
                ReadEvent::Bytes(_) | ReadEvent::Eof => if event.is_end() {
                    step == DrainStep::Done(false)
                } else if old(self)@.gives_up(event, limit as nat) {
                    step == DrainStep::Done(true)
                } else {
                    step is More
                },
                ReadEvent::WouldBlock => {
                    *final(self) == *old(self) && step == DrainStep::Done(false)
                },
                ReadEvent::Interrupted => *final(self) == *old(self) && step is More,
                ReadEvent::Failed(words) => *final(self) == *old(self) && step
                    == DrainStep::Failed(words),
            },
            old(self).retained@.len() <= limit ==> final(self).retained@.len() <= limit,
    {
        match event {
            ReadEvent::Bytes(bytes) => {
                if bytes.len() == 0 {
                    self.eof = true;
                    return DrainStep::Done(false);
                }
                let available: usize = if limit >= self.retained.len() {
                    limit - self.retained.len()
                } else {
                    0
                };
                let take: usize = if available < bytes.len() {
                    available
                } else {
                    bytes.len()
                };
                append(&mut self.retained, vstd::slice::slice_subrange(bytes.as_slice(), 0, take));
                if take != bytes.len() {
                    DrainStep::Done(true)
                } else {
                    DrainStep::More
                }
            },
            ReadEvent::Eof => {
                self.eof = true;
                DrainStep::Done(false)
            },
            ReadEvent::WouldBlock => DrainStep::Done(false),
            ReadEvent::Interrupted => DrainStep::More,
            ReadEvent::Failed(words) => DrainStep::Failed(words),
        }
    }

    pub fn eof(&self) -> (eof: bool)
        ensures
            eof == self.eof,
    {
        self.eof
    }

    pub fn into_bytes(self) -> (bytes: Vec<u8>)
        ensures
            bytes@ == self.retained@,
    {
        self.retained
    }
}

/// A child can be waited for only under the default disposition, and only where the flag that has
/// the system reap children by itself is not set.
pub fn sigchld_allows_waiting(handler: usize, flags: u64, no_child_wait: u64) -> (allows: bool)
    ensures
        allows == (handler == 0 && flags & no_child_wait == 0),
{
    handler == 0 && flags & no_child_wait == 0
}

/// Gives up the right to wait for a child that somebody else has reaped.
pub fn lose_probe_ownership(capability: &mut Option<u32>) -> (error: Error)
    ensures
        *final(capability) == None::<u32>,
        error@ == ("GIT_PROBE_CLEANUP_FAILED"@, "lost ownership of Git child"@),
{
    *capability = None;
    Error::new("GIT_PROBE_CLEANUP_FAILED", "lost ownership of Git child")
}

} // verus!
