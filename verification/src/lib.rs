//! Decisions, encodings and state machines behind native copy-on-write Git worktrees.
//!
//! The library holds no descriptors and performs no system calls. It works on plain values that a
//! driver observed (identities, names, bytes, child outputs) and answers with the next value or the
//! next action.

pub mod acquire;
pub mod answered;
pub mod audit;
pub mod audited;
pub mod authority;
pub mod batch;
pub mod burial;
pub mod bytes;
pub mod child;
pub mod classified;
pub mod cli;
pub mod cloned;
pub mod collected;
pub mod content;
pub mod counted;
pub mod cow;
pub mod created;
pub mod creation;
pub mod digest;
pub mod discard;
pub mod entered;
pub mod entry;
pub mod exchanged;
pub mod findings;
pub mod git;
pub mod gone;
pub mod inspection;
pub mod kept;
pub mod leased;
pub mod listing;
pub mod loose_gc;
pub mod m4_checkpoint;
pub mod made;
pub mod maintained;
pub mod maintenance;
pub mod manifest;
pub mod materialize;
pub mod materializing;
pub mod notation;
pub mod objects;
pub mod opened;
pub mod opening;
pub mod order;
pub mod passes;
pub mod paths;
pub mod placed;
pub mod private_objects;
pub mod probing;
pub mod publish;
pub mod published;
pub mod reaped;
pub mod recognized;
pub mod record_txn;
pub mod registration;
pub mod removal;
pub mod remove;
pub mod rooted;
pub mod session;
pub mod session_gc;
pub mod session_git;
pub mod session_roots;
pub mod state_root;
pub mod storage;
pub mod sync;
pub mod synced;
pub mod template;
pub mod template_gc;
pub mod template_roots;
pub mod told;
pub mod tree;
pub mod walk;
pub mod walked;
pub mod written;
