//! Talking to a batch child: requests in, framed answers out, under a deadline that moves with the
//! child's progress.

use crate::bytes::{append, find_byte, first_index};
use crate::child::{earlier, later, Drained, GitChild};
use crate::git::{Error, Pipe, ReadEvent, MAX_PENDING};
use vstd::prelude::*;
use vstd::slice::{slice_subrange, slice_to_vec};

verus! {

/// What a write to the child's input gave.
#[derive(Debug)]
pub enum WriteEvent {
    Wrote(usize),
    Interrupted,
    WouldBlock,
    Failed(String),
}

/// What follows a write.
#[derive(Debug)]
pub enum WriteStep {
    /// This many bytes of the request are out.
    Wrote(usize),
    /// Write the same again.
    Again,
    /// Wait until the child reads, and take what it writes meanwhile.
    WaitWritable,
    /// The child takes no requests, and is left as it is.
    Refuse(Error),
    /// Give the child up.
    Fail(Error),
}

/// What follows a read of framed output.
#[derive(Debug)]
pub enum StreamStep {
    /// Look at what is pending again.
    Again,
    /// Wait for output.
    Wait,
    /// The stream ended between two frames.
    End,
    Fail(Error),
}

/// A frame, or what is missing for one.
#[derive(Debug)]
pub enum FrameStep {
    Frame(Vec<u8>),
    More,
    Fail(Error),
}

/// What a byte made of a line.
#[derive(Debug)]
pub enum LineStep {
    More,
    Complete,
    Fail(Error),
}

pub open spec fn batch_failed(error: Error, detail: Seq<char>) -> bool {
    error@ == ("GIT_BATCH_FAILED"@, detail)
}

impl GitChild {
    /// The child is past the deadline that no progress moves.
    pub open spec fn past_hard_deadline(self, now: u64) -> bool {
        self.hard_deadline is Some && now >= self.hard_deadline->0
    }

    /// The deadline after progress at `now`.
    pub open spec fn moved_deadline(self, now: u64) -> u64 {
        match (self.progress_timeout, self.hard_deadline) {
            (Some(timeout), Some(hard)) => earlier(later(now, timeout), hard),
            (Some(timeout), None) => later(now, timeout),
            (None, _) => self.deadline,
        }
    }

    /// What stays of a child when only its deadline and its pending output change.
    pub open spec fn same_but_for_stream(self, other: Self) -> bool {
        &&& self.wait_capability == other.wait_capability
        &&& self.process_group == other.process_group
        &&& self.direct == other.direct
        &&& self.exit_observed == other.exit_observed
        &&& self.status == other.status
        &&& self.stderr == other.stderr
        &&& self.stdin == other.stdin
        &&& self.hard_deadline == other.hard_deadline
        &&& self.progress_timeout == other.progress_timeout
        &&& self.settled == other.settled
    }

    /// Progress moves the deadline, never past the hard one; at the hard one the child is given up.
    pub fn note_progress(&mut self, now: u64) -> (noted: Result<(), Error>)
        ensures
            noted is Err <==> old(self).past_hard_deadline(now),
            noted matches Err(error) ==> batch_failed(
                error,
                "Git batch stream exceeded its hard deadline"@,
            ) && *final(self) == *old(self),
            noted is Ok ==> final(self).deadline == old(self).moved_deadline(now),
            final(self).same_but_for_stream(*old(self)),
            final(self).stdout == old(self).stdout,
            final(self).stdout_pending == old(self).stdout_pending,
    {
        if let Some(hard_deadline) = self.hard_deadline {
            if now >= hard_deadline {
                return Err(
                    Error::new("GIT_BATCH_FAILED", "Git batch stream exceeded its hard deadline"),
                );
            }
        }
        if let Some(timeout) = self.progress_timeout {
            let deadline: u64 = now.saturating_add(timeout);
            self.deadline = match self.hard_deadline {
                Some(hard_deadline) => if deadline < hard_deadline {
                    deadline
                } else {
                    hard_deadline
                },
                None => deadline,
            };
        }
        Ok(())
    }

    /// What is said of a batch stream that is past its deadline.
    pub fn batch_expired() -> (error: Error)
        ensures
            batch_failed(error, "Git batch stream exceeded its shared deadline"@),
    {
        Error::new("GIT_BATCH_FAILED", "Git batch stream exceeded its shared deadline")
    }

    /// What follows a write of the rest of a request, made before the deadline.
    pub fn write_stdin(&mut self, event: WriteEvent, now: u64) -> (step: WriteStep)
        ensures
            !old(self).stdin ==> (step matches WriteStep::Refuse(error) && batch_failed(
                error,
                "Git stdin was not piped"@,
            )),
            old(self).stdin ==> match event {
                WriteEvent::Wrote(count) => if count == 0 {
                    step matches WriteStep::Fail(error) && batch_failed(
                        error,
                        "Git batch stdin closed before a request was written"@,
                    )
                } else if old(self).past_hard_deadline(now) {
                    step matches WriteStep::Fail(error) && batch_failed(
                        error,
                        "Git batch stream exceeded its hard deadline"@,
                    )
                } else {
                    step == WriteStep::Wrote(count) && final(self).deadline == old(self).moved_deadline(now)
                },
                WriteEvent::Interrupted => step is Again && *final(self) == *old(self),
                WriteEvent::WouldBlock => step is WaitWritable && *final(self) == *old(self),
                WriteEvent::Failed(words) => step matches WriteStep::Fail(error) && batch_failed(
                    error,
                    "cannot write Git stdin"@ + ": "@ + words@,
                ),
            },
            final(self).same_but_for_stream(*old(self)),
            final(self).stdout == old(self).stdout,
            final(self).stdout_pending == old(self).stdout_pending,
            !(step is Wrote) ==> final(self).deadline == old(self).deadline,
    {
        if !self.stdin {
            return WriteStep::Refuse(Error::new("GIT_BATCH_FAILED", "Git stdin was not piped"));
        }
        match event {
            WriteEvent::Wrote(count) => {
                if count == 0 {
                    return WriteStep::Fail(
                        Error::new(
                            "GIT_BATCH_FAILED",
                            "Git batch stdin closed before a request was written",
                        ),
                    );
                }
                match self.note_progress(now) {
                    Ok(_) => WriteStep::Wrote(count),
                    Err(error) => WriteStep::Fail(error),
                }
            },
            WriteEvent::Interrupted => WriteStep::Again,
            WriteEvent::WouldBlock => WriteStep::WaitWritable,
            WriteEvent::Failed(words) => WriteStep::Fail(
                Error::io("GIT_BATCH_FAILED", "cannot write Git stdin", words.as_str()),
            ),
        }
    }

    /// Takes up to `want` bytes of the pending output, from its front.
    pub fn take_pending(&mut self, want: usize) -> (taken: Vec<u8>)
        ensures
            ({
                let pending = old(self).stdout_pending@;
                let count = if want < pending.len() {
                    want as int
                } else {
                    pending.len() as int
                };
                &&& taken@ == pending.subrange(0, count)
                &&& final(self).stdout_pending@ == pending.subrange(count, pending.len() as int)
            }),
            final(self).same_but_for_stream(*old(self)),
            final(self).stdout == old(self).stdout,
            final(self).deadline == old(self).deadline,
    {
        let count: usize = if want < self.stdout_pending.len() {
            want
        } else {
            self.stdout_pending.len()
        };
        let taken = slice_to_vec(slice_subrange(self.stdout_pending.as_slice(), 0, count));
        let rest = slice_to_vec(
            slice_subrange(self.stdout_pending.as_slice(), count, self.stdout_pending.len()),
        );
        self.stdout_pending = rest;
        taken
    }

    /// What follows a read of output of which a fixed number of bytes is still wanted. What was
    /// read joins the pending output.
    pub fn read_exact_stdout(&mut self, event: ReadEvent, now: u64) -> (step: StreamStep)
        ensures
            match event {
                ReadEvent::Bytes(bytes) if bytes@.len() > 0 => {
                    &&& final(self).stdout_pending@ == old(self).stdout_pending@ + bytes@
                    &&& if old(self).past_hard_deadline(now) {
                        step matches StreamStep::Fail(error) && batch_failed(
                            error,
                            "Git batch stream exceeded its hard deadline"@,
                        )
                    } else {
                        step is Again && final(self).deadline == old(self).moved_deadline(now)
                    }
                },
                ReadEvent::Bytes(_) | ReadEvent::Eof => step matches StreamStep::Fail(error)
                    && batch_failed(error, "Git batch output was truncated"@),
                ReadEvent::Interrupted => step is Again && *final(self) == *old(self),
                ReadEvent::WouldBlock => step is Wait && *final(self) == *old(self),
                ReadEvent::Failed(words) => step matches StreamStep::Fail(error) && batch_failed(
                    error,
                    "cannot read Git stdout"@ + ": "@ + words@,
                ),
            },
            final(self).same_but_for_stream(*old(self)),
            final(self).stdout == old(self).stdout,
            !(event matches ReadEvent::Bytes(bytes) && bytes@.len() > 0) ==> *final(self) == *old(self),
            step is Fail ==> final(self).deadline == old(self).deadline,
    {
        match event {
            ReadEvent::Bytes(bytes) => {
                if bytes.len() == 0 {
                    return StreamStep::Fail(
                        Error::new("GIT_BATCH_FAILED", "Git batch output was truncated"),
                    );
                }
                append(&mut self.stdout_pending, bytes.as_slice());
                match self.note_progress(now) {
                    Ok(_) => StreamStep::Again,
                    Err(error) => StreamStep::Fail(error),
                }
            },
            ReadEvent::Eof => StreamStep::Fail(
                Error::new("GIT_BATCH_FAILED", "Git batch output was truncated"),
            ),
            ReadEvent::Interrupted => StreamStep::Again,
            ReadEvent::WouldBlock => StreamStep::Wait,
            ReadEvent::Failed(words) => StreamStep::Fail(
                Error::io("GIT_BATCH_FAILED", "cannot read Git stdout", words.as_str()),
            ),
        }
    }

    /// Takes the next record that a NUL ends out of the pending output.
    pub fn next_nul_record(&mut self, limit: usize) -> (step: FrameStep)
        ensures
            ({
                let pending = old(self).stdout_pending@;
                let at = first_index(pending, 0);
                if at < pending.len() && at <= limit {
                    &&& step matches FrameStep::Frame(record)
                    &&& record@ == pending.subrange(0, at)
                    &&& final(self).stdout_pending@ == pending.subrange(
                        at + 1,
                        pending.len() as int,
                    )
                } else if at < pending.len() || pending.len() > limit {
                    &&& step matches FrameStep::Fail(error)
                    &&& batch_failed(error, "Git stream record exceeded the limit"@)
                    &&& *final(self) == *old(self)
                } else {
                    step is More && *final(self) == *old(self)
                }
            }),
            final(self).same_but_for_stream(*old(self)),
            final(self).stdout == old(self).stdout,
            final(self).deadline == old(self).deadline,
    {
        let at: usize = find_byte(self.stdout_pending.as_slice(), 0);
        if at < self.stdout_pending.len() {
            if at > limit {
                return FrameStep::Fail(
                    Error::new("GIT_BATCH_FAILED", "Git stream record exceeded the limit"),
                );
            }
            let record = slice_to_vec(slice_subrange(self.stdout_pending.as_slice(), 0, at));
            let rest = slice_to_vec(
                slice_subrange(self.stdout_pending.as_slice(), at + 1, self.stdout_pending.len()),
            );
            self.stdout_pending = rest;
            return FrameStep::Frame(record);
        }
        if self.stdout_pending.len() > limit {
            return FrameStep::Fail(
                Error::new("GIT_BATCH_FAILED", "Git stream record exceeded the limit"),
            );
        }
        FrameStep::More
    }

    /// What is said of a record stream that is past its deadline.
    pub fn stream_expired() -> (error: Error)
        ensures
            batch_failed(error, "Git stream exceeded its shared deadline"@),
    {
        Error::new("GIT_BATCH_FAILED", "Git stream exceeded its shared deadline")
    }

    /// The child whose output has come to its end.
    pub open spec fn at_end(self) -> GitChild {
        GitChild {
            stdout: match self.stdout {
                Some(pipe) => Some(Pipe { eof: true, ..pipe }),
                None => None,
            },
            ..self
        }
    }

    fn end_stdout(&mut self)
        ensures
            *final(self) == old(self).at_end(),
    {
        if let Some(pipe) = self.stdout.take() {
            let mut pipe = pipe;
            pipe.eof = true;
            self.stdout = Some(pipe);
        }
    }

    /// What follows a read of a stream of NUL-ended records, none of which is complete.
    pub fn read_nul_record(&mut self, event: ReadEvent, now: u64) -> (step: StreamStep)
        ensures
            match event {
                ReadEvent::Bytes(bytes) if bytes@.len() > 0 => {
                    &&& final(self).stdout_pending@ == old(self).stdout_pending@ + bytes@
                    &&& final(self).stdout == old(self).stdout
                    &&& if old(self).past_hard_deadline(now) {
                        step matches StreamStep::Fail(error) && batch_failed(
                            error,
                            "Git batch stream exceeded its hard deadline"@,
                        ) && final(self).deadline == old(self).deadline
                    } else {
                        step is Again && final(self).deadline == old(self).moved_deadline(now)
                    }
                },
                ReadEvent::Bytes(_) | ReadEvent::Eof => {
                    &&& *final(self) == old(self).at_end()
                    &&& if old(self).stdout_pending@.len() == 0 {
                        step is End
                    } else {
                        step matches StreamStep::Fail(error) && batch_failed(
                            error,
                            "Git stream ended with a partial record"@,
                        )
                    }
                },
                ReadEvent::Interrupted => step is Again && *final(self) == *old(self),
                ReadEvent::WouldBlock => step is Wait && *final(self) == *old(self),
                ReadEvent::Failed(words) => step matches StreamStep::Fail(error) && batch_failed(
                    error,
                    "cannot read Git stdout"@ + ": "@ + words@,
                ) && *final(self) == *old(self),
            },
            final(self).same_but_for_stream(*old(self)),
    {
        match event {
            ReadEvent::Bytes(bytes) => {
                if bytes.len() == 0 {
                    self.end_stdout();
                    if self.stdout_pending.len() == 0 {
                        return StreamStep::End;
                    }
                    return StreamStep::Fail(
                        Error::new("GIT_BATCH_FAILED", "Git stream ended with a partial record"),
                    );
                }
                append(&mut self.stdout_pending, bytes.as_slice());
                match self.note_progress(now) {
                    Ok(_) => StreamStep::Again,
                    Err(error) => StreamStep::Fail(error),
                }
            },
            ReadEvent::Eof => {
                self.end_stdout();
                if self.stdout_pending.len() == 0 {
                    StreamStep::End
                } else {
                    StreamStep::Fail(
                        Error::new("GIT_BATCH_FAILED", "Git stream ended with a partial record"),
                    )
                }
            },
            ReadEvent::Interrupted => StreamStep::Again,
            ReadEvent::WouldBlock => StreamStep::Wait,
            ReadEvent::Failed(words) => StreamStep::Fail(
                Error::io("GIT_BATCH_FAILED", "cannot read Git stdout", words.as_str()),
            ),
        }
    }

    /// Takes output that came while a request was being written. The pending buffer is bounded.
    /// `Again` reads on, `Wait` has nothing more to read for now.
    pub fn drain_batch_stdout(&mut self, event: ReadEvent, now: u64) -> (step: StreamStep)
        ensures
            match event {
                ReadEvent::Bytes(bytes) if bytes@.len() > 0 => if old(self).stdout_pending@.len()
                    + bytes@.len() > MAX_PENDING {
                    &&& step matches StreamStep::Fail(error)
                    &&& batch_failed(
                        error,
                        "Git batch output exceeded its bounded pending buffer"@,
                    )
                    &&& *final(self) == *old(self)
                } else {
                    &&& final(self).stdout_pending@ == old(self).stdout_pending@ + bytes@
                    &&& final(self).stdout == old(self).stdout
                    &&& if old(self).past_hard_deadline(now) {
                        step matches StreamStep::Fail(error) && batch_failed(
                            error,
                            "Git batch stream exceeded its hard deadline"@,
                        ) && final(self).deadline == old(self).deadline
                    } else {
                        step is Again && final(self).deadline == old(self).moved_deadline(now)
                    }
                },
                ReadEvent::Bytes(_) | ReadEvent::Eof => step is End && *final(self)
                    == old(self).at_end(),
                ReadEvent::Interrupted => step is Again && *final(self) == *old(self),
                ReadEvent::WouldBlock => step is Wait && *final(self) == *old(self),
                ReadEvent::Failed(words) => step matches StreamStep::Fail(error) && batch_failed(
                    error,
                    "cannot drain Git batch stdout"@ + ": "@ + words@,
                ) && *final(self) == *old(self),
            },
            final(self).same_but_for_stream(*old(self)),
            old(self).stdout_pending@.len() <= MAX_PENDING ==> final(self).stdout_pending@.len()
                <= MAX_PENDING,
    {
        match event {
            ReadEvent::Bytes(bytes) => {
                if bytes.len() == 0 {
                    self.end_stdout();
                    return StreamStep::End;
                }
                if self.stdout_pending.len().saturating_add(bytes.len()) > MAX_PENDING {
                    return StreamStep::Fail(
                        Error::new(
                            "GIT_BATCH_FAILED",
                            "Git batch output exceeded its bounded pending buffer",
                        ),
                    );
                }
                append(&mut self.stdout_pending, bytes.as_slice());
                match self.note_progress(now) {
                    Ok(_) => StreamStep::Again,
                    Err(error) => StreamStep::Fail(error),
                }
            },
            ReadEvent::Eof => {
                self.end_stdout();
                StreamStep::End
            },
            ReadEvent::Interrupted => StreamStep::Again,
            ReadEvent::WouldBlock => StreamStep::Wait,
            ReadEvent::Failed(words) => StreamStep::Fail(
                Error::io("GIT_BATCH_FAILED", "cannot drain Git batch stdout", words.as_str()),
            ),
        }
    }

    /// What draining the error stream of a batch child means.
    pub fn drain_batch_stderr(drained: &Drained) -> (failed: Option<Error>)
        ensures
            match *drained {
                Ok(false) => failed is None,
                Ok(true) => failed matches Some(error) && batch_failed(
                    error,
                    "Git batch stderr exceeded the limit"@,
                ),
                Err(words) => failed matches Some(error) && batch_failed(
                    error,
                    "cannot drain Git stderr"@ + ": "@ + words@,
                ),
            },
    {
        match drained {
            Ok(exceeded) => if *exceeded {
                Some(Error::new("GIT_BATCH_FAILED", "Git batch stderr exceeded the limit"))
            } else {
                None
            },
            Err(words) => Some(
                Error::io("GIT_BATCH_FAILED", "cannot drain Git stderr", words.as_str()),
            ),
        }
    }

    /// Adds a byte to a header line of fewer than `limit` bytes.
    pub fn read_line_stdout(line: &mut Vec<u8>, limit: usize, byte: u8) -> (step: LineStep)
        ensures
            old(line)@.len() >= limit ==> step is Fail && final(line)@ == old(line)@,
            old(line)@.len() < limit && byte == 10 ==> step is Complete && final(line)@ == old(line)@,
            old(line)@.len() < limit && byte != 10 ==> {
                &&& final(line)@ == old(line)@.push(byte)
                &&& step is More <==> final(line)@.len() < limit
                &&& step is Fail <==> final(line)@.len() >= limit
            },
            step matches LineStep::Fail(error) ==> batch_failed(
                error,
                "Git batch header exceeded the limit"@,
            ),
    {
        if line.len() < limit {
            if byte == 10 {
                return LineStep::Complete;
            }
            line.push(byte);
            if line.len() < limit {
                return LineStep::More;
            }
        }
        LineStep::Fail(Error::new("GIT_BATCH_FAILED", "Git batch header exceeded the limit"))
    }
}

} // verus!
