//! What a session may hold that is nowhere else. A session is only removed without force where nothing
//! of it would be lost.

use crate::authority::{failure, or_fail, Error, Failure, Identity};
use crate::bytes::{
    append, bytes_of, concat, contains_byte, ends_with, same_bytes, slice_view, split,
    split_at_each, strip_prefix, strip_suffix, utf8, views, without_prefix, without_suffix,
};
use crate::git::{self, Output};
use crate::inspection::first_of;
use crate::manifest::{keep_nonempty, nonempty};
use crate::record_txn::basename_failure;
use crate::session::{
    cstring, decode_failure, decode_hex, decoded, discard_risk, SessionRecord, SessionView,
};
use crate::session_git::{branch_name, branch_reference, git_dir, Command, CommandView};
use vstd::prelude::*;
use vstd::slice::slice_subrange;

verus! {

pub open spec fn risk(detail: Seq<char>) -> Failure {
    ("SESSION_DISCARD_RISK"@, detail)
}

/// What Git has to say of a worktree: nothing, where nothing in it differs from its commit.
pub open spec fn changes_failure(outcome: Result<Output, git::Error>) -> Option<Failure> {
    match outcome {
        Err(_) => Some(risk("cannot inspect worktree changes"@)),
        Ok(output) => or_fail(
            None,
            output.silent(),
            "SESSION_DISCARD_RISK"@,
            "worktree has tracked, untracked, or ignored changes"@,
        ),
    }
}

pub fn ensure_worktree_unchanged(outcome: Result<Output, git::Error>) -> (unchanged: Result<(), Error>)
    ensures
        failure(unchanged) == changes_failure(outcome),
{
    match outcome {
        Err(_) => Err(discard_risk("cannot inspect worktree changes")),
        Ok(output) => if output.is_silent() {
            Ok(())
        } else {
            Err(discard_risk("worktree has tracked, untracked, or ignored changes"))
        },
    }
}

/// Where the last occurrence of a byte is, or before all of them.
pub open spec fn last_index(bytes: Seq<u8>, byte: u8) -> int
    decreases bytes.len(),
{
    if bytes.len() == 0 {
        -1
    } else if bytes.last() == byte {
        bytes.len() - 1
    } else {
        last_index(bytes.drop_last(), byte)
    }
}

fn find_last(bytes: &[u8], byte: u8) -> (at: Option<usize>)
    ensures
        match at {
            Some(at) => at == last_index(bytes@, byte) && at < bytes@.len(),
            None => last_index(bytes@, byte) == -1,
        },
{
    let mut end: usize = bytes.len();
    proof {
        assert(bytes@.take(end as int) =~= bytes@);
    }
    while end > 0
        invariant
            end <= bytes@.len(),
            last_index(bytes@.take(end as int), byte) == last_index(bytes@, byte),
        decreases end,
    {
        let ghost shorter = bytes@.take(end as int);
        proof {
            assert(shorter.drop_last() =~= bytes@.take(end - 1));
            assert(shorter.last() == bytes@[end - 1]);
        }
        if bytes[end - 1] == byte {
            return Some(end - 1);
        }
        end = end - 1;
    }
    None
}

/// One reference of a private repository, as it is listed.
pub open spec fn ref_failure(line: Seq<u8>, record: SessionView) -> Option<Failure> {
    let at = last_index(line, 32);
    let f = or_fail(
        None,
        at >= 0,
        "SESSION_DISCARD_RISK"@,
        "private ref listing was malformed"@,
    );
    or_fail(
        f,
        line.take(at) == branch_reference(decoded(record.target)) && line.skip(at + 1) == utf8(
            record.base,
        ),
        "SESSION_DISCARD_RISK"@,
        "private refs differ from the initial session target"@,
    )
}

pub open spec fn refs_failure(lines: Seq<Seq<u8>>, record: SessionView) -> Option<Failure>
    decreases lines.len(),
{
    if lines.len() == 0 {
        None
    } else {
        first_of(refs_failure(lines.drop_last(), record), ref_failure(lines.last(), record))
    }
}

fn check_ref(line: &[u8], expected_ref: &[u8], base: &[u8], record: &SessionRecord) -> (same: Result<
    (),
    Error,
>)
    requires
        expected_ref@ == branch_reference(decoded(record@.target)),
        base@ == utf8(record@.base),
    ensures
        failure(same) == ref_failure(line@, record@),
{
    match find_last(line, 32) {
        None => Err(discard_risk("private ref listing was malformed")),
        Some(at) => {
            let size: usize = line.len();
            let name = slice_subrange(line, 0, at);
            let oid = slice_subrange(line, at + 1, size);
            proof {
                assert(line@.subrange(0, at as int) =~= line@.take(at as int));
                assert(line@.subrange(at + 1, line@.len() as int) =~= line@.skip(at + 1));
            }
            if !same_bytes(name, expected_ref) || !same_bytes(oid, base) {
                return Err(discard_risk("private refs differ from the initial session target"));
            }
            Ok(())
        },
    }
}

pub fn private_refs_command(common_path: &[u8]) -> (command: Command)
    ensures
        command@ == CommandView::isolated(None).path(git_dir(common_path@)).word(
            "for-each-ref"@,
        ).word("--format=%(refname) %(objectname)"@),
{
    Command::in_git_dir(common_path).word("for-each-ref").word("--format=%(refname) %(objectname)")
}

/// What is seen of the references of a private repository, and of the directory of its objects.
#[derive(Debug)]
pub struct RefsSeen {
    pub listing: Result<Output, git::Error>,
    pub objects_opened: Result<(), Error>,
    pub objects: Result<Identity, Error>,
    pub common: Result<Identity, Error>,
}

/// The references of a private repository: the one branch of the session, at the commit it began with.
pub open spec fn listing_failure(listing: Result<Output, git::Error>, record: SessionView) -> Option<
    Failure,
> {
    match listing {
        Err(_) => Some(risk("cannot inspect private refs"@)),
        Ok(output) => {
            let f = or_fail(
                None,
                output.clean(),
                "SESSION_DISCARD_RISK"@,
                "cannot inspect private refs"@,
            );
            let f = first_of(f, decode_failure(record.target));
            let lines = nonempty(split_at_each(output.stdout@, 10));
            let f = first_of(f, refs_failure(lines, record));
            or_fail(
                f,
                lines.len() == 1,
                "SESSION_DISCARD_RISK"@,
                "private ref baseline is not exactly the initial session target"@,
            )
        },
    }
}

impl RefsSeen {
    pub open spec fn refs_failure(self, record: SessionView) -> Option<Failure> {
        let f = listing_failure(self.listing, record);
        let f = first_of(f, failure(self.objects_opened));
        let f = first_of(f, failure(self.objects));
        let f = first_of(f, failure(self.common));
        or_fail(
            f,
            self.objects->Ok_0.dev == self.common->Ok_0.dev,
            "SESSION_DISCARD_RISK"@,
            "private object directory left the session volume"@,
        )
    }
}

fn check_refs(lines: &Vec<Vec<u8>>, expected_ref: &[u8], record: &SessionRecord) -> (same: Result<(), Error>)
    requires
        expected_ref@ == branch_reference(decoded(record@.target)),
    ensures
        failure(same) == refs_failure(views(lines@), record@),
{
    let ghost all = views(lines@);
    let mut i: usize = 0;
    while i < lines.len()
        invariant
            i <= lines@.len(),
            all == views(lines@),
            expected_ref@ == branch_reference(decoded(record@.target)),
            refs_failure(all.take(i as int), record@) is None,
        decreases lines@.len() - i,
    {
        proof {
            assert(all.take(i + 1).drop_last() =~= all.take(i as int));
            assert(all.take(i + 1).last() == lines@[i as int]@);
        }
        match check_ref(
            lines[i].as_slice(),
            expected_ref,
            record.base.as_str().as_bytes(),
            record,
        ) {
            Err(error) => {
                proof {
                    lemma_refs_failure(all, i as int, record@);
                }
                return Err(error);
            },
            Ok(_) => {},
        }
        i = i + 1;
    }
    proof {
        assert(all.take(lines@.len() as int) =~= all);
    }
    Ok(())
}

fn check_listing(listing: Result<Output, git::Error>, record: &SessionRecord) -> (safe: Result<(), Error>)
    ensures
        failure(safe) == listing_failure(listing, record@),
{
    match listing {
        Err(_) => Err(discard_risk("cannot inspect private refs")),
        Ok(output) => {
            if !output.is_clean() {
                return Err(discard_risk("cannot inspect private refs"));
            }
            let target = decode_hex(record.target.as_str())?;
            let expected_ref = branch_name(target.as_slice());
            let pieces = split(output.stdout.as_slice(), 10);
            let lines = keep_nonempty(&pieces);
            check_refs(&lines, expected_ref.as_slice(), record)?;
            proof {
                assert(views(lines@).len() == lines@.len());
            }
            if lines.len() != 1 {
                return Err(
                    discard_risk("private ref baseline is not exactly the initial session target"),
                );
            }
            Ok(())
        },
    }
}

/// The first reference that is not as it should be decides.
proof fn lemma_refs_failure(lines: Seq<Seq<u8>>, at: int, record: SessionView)
    requires
        0 <= at < lines.len(),
        refs_failure(lines.take(at), record) is None,
        ref_failure(lines[at], record) is Some,
    ensures
        refs_failure(lines, record) == ref_failure(lines[at], record),
    decreases lines.len(),
{
    if at == lines.len() - 1 {
        assert(lines.take(at) =~= lines.drop_last());
    } else {
        assert(lines.drop_last().take(at) =~= lines.take(at));
        lemma_refs_failure(lines.drop_last(), at, record);
    }
}

/// The private repository still has its one branch, and that still points at what it began with.
pub fn ensure_private_refs_safe(seen: RefsSeen, record: &SessionRecord) -> (safe: Result<(), Error>)
    ensures
        failure(safe) == seen.refs_failure(record@),
{
    check_listing(seen.listing, record)?;
    seen.objects_opened?;
    let objects = seen.objects?;
    let common = seen.common?;
    if objects.dev != common.dev {
        return Err(discard_risk("private object directory left the session volume"));
    }
    Ok(())
}

/// What is seen of the objects of a private repository: the names there, and those in its two fixed
/// directories.
#[derive(Debug)]
pub struct StoreSeen {
    pub objects: Result<(), Error>,
    pub names: Result<Vec<Vec<u8>>, Error>,
    pub info: Result<Vec<Vec<u8>>, Error>,
    pub pack: Result<Vec<Vec<u8>>, Error>,
}

pub open spec fn only_alternates(names: Seq<Seq<u8>>) -> bool {
    forall|i: int| 0 <= i < names.len() ==> #[trigger] names[i] == utf8("alternates"@)
}

/// One entry among the objects of a private repository that holds no objects of its own.
pub open spec fn store_entry_failure(
    name: Seq<u8>,
    info: Result<Vec<Vec<u8>>, Error>,
    pack: Result<Vec<Vec<u8>>, Error>,
) -> Option<Failure> {
    let f = basename_failure(name, "private object entry"@, "SESSION_CORRUPT"@);
    first_of(
        f,
        if name == utf8("info"@) {
            let f = failure(info);
            or_fail(
                f,
                only_alternates(views(info->Ok_0@)),
                "SESSION_DISCARD_RISK"@,
                "private object metadata contains additional entries"@,
            )
        } else if name == utf8("pack"@) {
            let f = failure(pack);
            or_fail(
                f,
                pack->Ok_0@.len() == 0,
                "SESSION_DISCARD_RISK"@,
                "private object store contains packed objects"@,
            )
        } else {
            Some(risk("private object store contains loose objects"@))
        },
    )
}

pub open spec fn store_entries_failure(
    names: Seq<Seq<u8>>,
    info: Result<Vec<Vec<u8>>, Error>,
    pack: Result<Vec<Vec<u8>>, Error>,
) -> Option<Failure>
    decreases names.len(),
{
    if names.len() == 0 {
        None
    } else {
        first_of(
            store_entries_failure(names.drop_last(), info, pack),
            store_entry_failure(names.last(), info, pack),
        )
    }
}

proof fn lemma_store_failure(
    names: Seq<Seq<u8>>,
    at: int,
    info: Result<Vec<Vec<u8>>, Error>,
    pack: Result<Vec<Vec<u8>>, Error>,
)
    requires
        0 <= at < names.len(),
        store_entries_failure(names.take(at), info, pack) is None,
        store_entry_failure(names[at], info, pack) is Some,
    ensures
        store_entries_failure(names, info, pack) == store_entry_failure(names[at], info, pack),
    decreases names.len(),
{
    if at == names.len() - 1 {
        assert(names.take(at) =~= names.drop_last());
    } else {
        assert(names.drop_last().take(at) =~= names.take(at));
        lemma_store_failure(names.drop_last(), at, info, pack);
    }
}

fn holds_only_alternates(names: &Vec<Vec<u8>>) -> (only: bool)
    ensures
        only == only_alternates(views(names@)),
{
    let mut i: usize = 0;
    while i < names.len()
        invariant
            i <= names@.len(),
            forall|k: int| 0 <= k < i ==> #[trigger] views(names@)[k] == utf8("alternates"@),
        decreases names@.len() - i,
    {
        if !same_bytes(names[i].as_slice(), "alternates".as_bytes()) {
            proof {
                assert(views(names@)[i as int] == names@[i as int]@);
            }
            return false;
        }
        i = i + 1;
    }
    true
}

fn copied<T>(result: &Result<T, Error>) -> (same: Result<&T, Error>)
    ensures
        failure(same) == failure(*result),
        same matches Ok(value) ==> *result == Ok::<T, Error>(*value),
{
    match result {
        Ok(value) => Ok(value),
        Err(error) => Err(error.copy()),
    }
}

fn check_store_entry(
    name: &[u8],
    info: &Result<Vec<Vec<u8>>, Error>,
    pack: &Result<Vec<Vec<u8>>, Error>,
) -> (safe: Result<(), Error>)
    ensures
        failure(safe) == store_entry_failure(name@, *info, *pack),
{
    cstring(name, "private object entry")?;
    if same_bytes(name, "info".as_bytes()) {
        let names = copied(info)?;
        if !holds_only_alternates(names) {
            return Err(discard_risk("private object metadata contains additional entries"));
        }
        Ok(())
    } else if same_bytes(name, "pack".as_bytes()) {
        let names = copied(pack)?;
        if names.len() != 0 {
            return Err(discard_risk("private object store contains packed objects"));
        }
        Ok(())
    } else {
        Err(discard_risk("private object store contains loose objects"))
    }
}

impl StoreSeen {
    pub open spec fn store_failure(self) -> Option<Failure> {
        let f = failure(self.objects);
        let f = first_of(f, failure(self.names));
        first_of(f, store_entries_failure(views(self.names->Ok_0@), self.info, self.pack))
    }
}

/// The private repository holds no object of its own.
pub fn ensure_private_object_store_empty(seen: StoreSeen) -> (empty: Result<(), Error>)
    ensures
        failure(empty) == seen.store_failure(),
{
    let StoreSeen { objects, names, info, pack } = seen;
    objects?;
    let names = names?;
    let ghost all = views(names@);
    let mut i: usize = 0;
    while i < names.len()
        invariant
            i <= names@.len(),
            all == views(names@),
            seen.objects is Ok,
            seen.names == Ok::<Vec<Vec<u8>>, Error>(names),
            info == seen.info,
            pack == seen.pack,
            store_entries_failure(all.take(i as int), info, pack) is None,
        decreases names@.len() - i,
    {
        proof {
            assert(all.take(i + 1).drop_last() =~= all.take(i as int));
            assert(all.take(i + 1).last() == names@[i as int]@);
        }
        match check_store_entry(names[i].as_slice(), &info, &pack) {
            Err(error) => {
                proof {
                    lemma_store_failure(all, i as int, info, pack);
                }
                return Err(error);
            },
            Ok(_) => {},
        }
        i = i + 1;
    }
    proof {
        assert(all.take(names@.len() as int) =~= all);
    }
    Ok(())
}

/// A byte that may stand in the name of a branch that does not exist yet.
pub open spec fn is_plain(byte: u8) -> bool {
    48 <= byte <= 57 || 65 <= byte <= 90 || 97 <= byte <= 122 || byte == 46 || byte == 95 || byte
        == 45 || byte == 47
}

pub open spec fn is_plain_component(component: Seq<u8>) -> bool {
    &&& component.len() > 0
    &&& component[0] != 46
    &&& component.last() != 46
    &&& !utf8(".lock"@).is_suffix_of(component)
}

/// Two dots or two slashes in a row.
pub open spec fn doubled_at(head: Seq<u8>, at: int) -> bool {
    (head[at] == 46 && head[at + 1] == 46) || (head[at] == 47 && head[at + 1] == 47)
}

/// The name of a branch other than the session's, one that Git takes as it stands.
pub open spec fn is_safe_unborn_head(head: Seq<u8>, target: Seq<u8>) -> bool {
    &&& head.len() > 0
    &&& head != target
    &&& head[0] != 47
    &&& head[0] != 45
    &&& head.last() != 47
    &&& forall|i: int| 0 <= i < head.len() - 1 ==> !#[trigger] doubled_at(head, i)
    &&& forall|i: int| 0 <= i < head.len() ==> is_plain(#[trigger] head[i])
    &&& forall|i: int|
        0 <= i < split_at_each(head, 47).len() ==> is_plain_component(
            #[trigger] split_at_each(head, 47)[i],
        )
}

fn only_plain(head: &[u8]) -> (only: bool)
    ensures
        only == (forall|i: int| 0 <= i < head@.len() ==> is_plain(#[trigger] head@[i])),
{
    let mut i: usize = 0;
    while i < head.len()
        invariant
            i <= head@.len(),
            forall|k: int| 0 <= k < i ==> is_plain(#[trigger] head@[k]),
        decreases head@.len() - i,
    {
        let byte: u8 = head[i];
        if !((byte >= 48 && byte <= 57) || (byte >= 65 && byte <= 90) || (byte >= 97 && byte <= 122)
            || byte == 46 || byte == 95 || byte == 45 || byte == 47) {
            return false;
        }
        i = i + 1;
    }
    true
}

fn nothing_doubled(head: &[u8]) -> (none: bool)
    ensures
        none == (forall|i: int| 0 <= i < head@.len() - 1 ==> !#[trigger] doubled_at(head@, i)),
{
    let size: usize = head.len();
    let mut i: usize = 1;
    while i < size
        invariant
            size == head@.len(),
            1 <= i,
            i <= size || size == 0,
            forall|k: int| 0 <= k < i - 1 ==> !#[trigger] doubled_at(head@, k),
        decreases size - i,
    {
        let before: u8 = head[i - 1];
        let byte: u8 = head[i];
        if (before == 46 && byte == 46) || (before == 47 && byte == 47) {
            proof {
                assert(doubled_at(head@, i - 1));
            }
            return false;
        }
        i = i + 1;
    }
    true
}

fn plain_components(head: &[u8]) -> (all: bool)
    ensures
        all == (forall|i: int|
            0 <= i < split_at_each(head@, 47).len() ==> is_plain_component(
                #[trigger] split_at_each(head@, 47)[i],
            )),
{
    let components = split(head, 47);
    let ghost pieces = split_at_each(head@, 47);
    let mut i: usize = 0;
    while i < components.len()
        invariant
            i <= components@.len(),
            views(components@) == pieces,
            pieces == split_at_each(head@, 47),
            forall|k: int| 0 <= k < i ==> is_plain_component(#[trigger] pieces[k]),
        decreases components@.len() - i,
    {
        let component = components[i].as_slice();
        proof {
            assert(pieces[i as int] == components@[i as int]@);
        }
        let size: usize = component.len();
        if size == 0 || component[0] == 46 || component[size - 1] == 46 || ends_with(
            component,
            ".lock".as_bytes(),
        ) {
            proof {
                assert(!is_plain_component(pieces[i as int]));
            }
            return false;
        }
        i = i + 1;
    }
    true
}

pub fn git_safe_unborn_head(head: &[u8], target: &[u8]) -> (safe: bool)
    ensures
        safe == is_safe_unborn_head(head@, target@),
{
    let size: usize = head.len();
    size > 0 && !same_bytes(head, target) && head[0] != 47 && head[0] != 45 && head[size - 1] != 47
        && nothing_doubled(head) && only_plain(head) && plain_components(head)
}

/// The branch that a file points at, where it is one that was never made.
pub open spec fn unborn(bytes: Seq<u8>, target: Seq<u8>) -> Option<Seq<u8>> {
    match without_prefix(bytes, utf8("ref: refs/heads/"@)) {
        None => None,
        Some(rest) => match without_suffix(rest, seq![10u8]) {
            None => None,
            Some(head) => if head.contains(10) || head.contains(13) || !is_safe_unborn_head(
                head,
                target,
            ) {
                None
            } else {
                Some(head)
            },
        },
    }
}

pub fn unborn_head<'a>(bytes: &'a [u8], target: &[u8]) -> (head: Option<&'a [u8]>)
    ensures
        slice_view(head) == unborn(bytes@, target@),
{
    let end: [u8; 1] = [10u8];
    proof {
        assert(end@ =~= seq![10u8]);
    }
    match strip_prefix(bytes, "ref: refs/heads/".as_bytes()) {
        None => None,
        Some(rest) => match strip_suffix(rest, &end) {
            None => None,
            Some(head) => if contains_byte(head, 10) || contains_byte(head, 13)
                || !git_safe_unborn_head(head, target) {
                None
            } else {
                Some(head)
            },
        },
    }
}

/// An unborn branch is never the session's own, and the file that names it holds nothing else.
pub proof fn law_unborn_head_is_another_branch(bytes: Seq<u8>, target: Seq<u8>)
    requires
        unborn(bytes, target) is Some,
    ensures
        unborn(bytes, target)->0 != target,
        is_safe_unborn_head(unborn(bytes, target)->0, target),
        bytes == (utf8("ref: refs/heads/"@) + unborn(bytes, target)->0).push(10),
{
    let head = unborn(bytes, target)->0;
    let prefix = utf8("ref: refs/heads/"@);
    let rest = bytes.subrange(prefix.len() as int, bytes.len() as int);
    assert(prefix.is_prefix_of(bytes));
    assert(seq![10u8].is_suffix_of(rest));
    assert(bytes =~= prefix + rest);
    assert(rest.subrange(rest.len() - 1, rest.len() as int)[0] == 10);
    assert(rest =~= head.push(10));
    assert(bytes =~= (prefix + head).push(10));
}

pub fn unreachable_command(common_path: &[u8]) -> (command: Command)
    ensures
        command@ == CommandView::isolated(None).path(git_dir(common_path@)).word("fsck"@).word(
            "--no-reflogs"@,
        ).word("--unreachable"@).word("--no-progress"@),
{
    Command::in_git_dir(common_path).word("fsck").word("--no-reflogs").word("--unreachable").word(
        "--no-progress",
    )
}

/// What Git says of the objects that nothing leads to, and what the file says that names the private
/// repository's branch, read twice.
#[derive(Debug)]
pub struct ClosureSeen {
    pub fsck: Result<Output, git::Error>,
    pub head: Result<Vec<u8>, Error>,
    pub head_again: Result<Vec<u8>, Error>,
}

/// What Git notes where the branch was never made.
pub open spec fn unborn_notice(head: Seq<u8>) -> Seq<u8> {
    utf8("notice: HEAD points to an unborn branch ("@) + head + utf8(")"@).push(10)
}

impl ClosureSeen {
    /// Git complains of nothing but the unborn branch that the repository was made with.
    pub open spec fn is_notice(self, errors: Seq<u8>, record: SessionView) -> bool {
        &&& decode_failure(record.target) is None
        &&& self.head is Ok
        &&& unborn(self.head->Ok_0@, decoded(record.target)) is Some
        &&& errors == unborn_notice(unborn(self.head->Ok_0@, decoded(record.target))->0)
        &&& self.head_again is Ok
        &&& self.head_again->Ok_0@ == self.head->Ok_0@
    }

    pub open spec fn closure_failure(self, record: SessionView) -> Option<Failure> {
        match self.fsck {
            Err(_) => Some(risk("cannot prove the private object closure is disposable"@)),
            Ok(output) => or_fail(
                None,
                output.status.succeeded() && output.stdout@.len() == 0 && (output.stderr@.len() == 0
                    || self.is_notice(output.stderr@, record)),
                "SESSION_DISCARD_RISK"@,
                "private refs, reflogs, or objects are not proven disposable"@,
            ),
        }
    }
}

fn only_the_notice(
    head: Result<Vec<u8>, Error>,
    head_again: Result<Vec<u8>, Error>,
    errors: &[u8],
    record: &SessionRecord,
) -> (only: bool)
    ensures
        forall|seen: ClosureSeen|
            seen.head == head && seen.head_again == head_again ==> only == #[trigger] seen.is_notice(
                errors@,
                record@,
            ),
{
    match (decode_hex(record.target.as_str()), head, head_again) {
        (Ok(target), Ok(head), Ok(again)) => match unborn_head(head.as_slice(), target.as_slice()) {
            None => false,
            Some(name) => {
                let mut notice = concat(
                    "notice: HEAD points to an unborn branch (".as_bytes(),
                    name,
                );
                let mut end = bytes_of(")");
                end.push(10);
                append(&mut notice, end.as_slice());
                same_bytes(errors, notice.as_slice()) && same_bytes(
                    again.as_slice(),
                    head.as_slice(),
                )
            },
        },
        _ => false,
    }
}

/// Nothing in the private repository is reachable from nowhere.
pub fn ensure_no_unreachable_private_closure(seen: ClosureSeen, record: &SessionRecord) -> (safe: Result<
    (),
    Error,
>)
    ensures
        failure(safe) == seen.closure_failure(record@),
{
    let ghost whole = seen;
    let ClosureSeen { fsck, head, head_again } = seen;
    match fsck {
        Err(_) => Err(discard_risk("cannot prove the private object closure is disposable")),
        Ok(output) => {
            if !output.status.success() || output.stdout.len() != 0 {
                return Err(
                    discard_risk("private refs, reflogs, or objects are not proven disposable"),
                );
            }
            if output.stderr.len() == 0 {
                return Ok(());
            }
            let only: bool = only_the_notice(head, head_again, output.stderr.as_slice(), record);
            proof {
                assert(only == whole.is_notice(output.stderr@, record@));
            }
            if only {
                Ok(())
            } else {
                Err(discard_risk("private refs, reflogs, or objects are not proven disposable"))
            }
        },
    }
}

pub fn discard_status_command(worktree: &[u8]) -> (command: Command)
    ensures
        command@ == CommandView::isolated(Some(worktree@)).word("status"@).word(
            "--porcelain=v1"@,
        ).word("--untracked-files=all"@).word("--ignored=matching"@),
{
    Command::isolated(Some(worktree)).word("status").word("--porcelain=v1").word(
        "--untracked-files=all",
    ).word("--ignored=matching")
}

/// All that is looked at before a session is removed without force.
#[derive(Debug)]
pub struct DiscardSeen {
    pub status: Result<Output, git::Error>,
    pub refs: RefsSeen,
    pub store: StoreSeen,
    pub closure: ClosureSeen,
}

impl DiscardSeen {
    pub open spec fn discard_failure(self, record: SessionView) -> Option<Failure> {
        let f = changes_failure(self.status);
        let f = first_of(f, self.refs.refs_failure(record));
        let f = first_of(f, self.store.store_failure());
        first_of(f, self.closure.closure_failure(record))
    }
}

pub fn ensure_discard_safe(seen: DiscardSeen, record: &SessionRecord) -> (safe: Result<(), Error>)
    ensures
        failure(safe) == seen.discard_failure(record@),
{
    ensure_worktree_unchanged(seen.status)?;
    ensure_private_refs_safe(seen.refs, record)?;
    ensure_private_object_store_empty(seen.store)?;
    ensure_no_unreachable_private_closure(seen.closure, record)
}

/// A session that may be discarded holds nothing of its own: its worktree is as its commit, its one
/// reference is where it began, and its repository has no objects but borrowed ones.
pub proof fn law_discarded_sessions_hold_nothing(seen: DiscardSeen, record: SessionView)
    requires
        seen.discard_failure(record) is None,
    ensures
        seen.status->Ok_0.silent(),
        nonempty(split_at_each(seen.refs.listing->Ok_0.stdout@, 10)).len() == 1,
        ({
            let line = nonempty(split_at_each(seen.refs.listing->Ok_0.stdout@, 10))[0];
            let at = last_index(line, 32);
            &&& line.take(at) == branch_reference(decoded(record.target))
            &&& line.skip(at + 1) == utf8(record.base)
        }),
        forall|i: int|
            0 <= i < views(seen.store.names->Ok_0@).len() ==> {
                let name = #[trigger] views(seen.store.names->Ok_0@)[i];
                name == utf8("info"@) || name == utf8("pack"@) && seen.store.pack->Ok_0@.len() == 0
            },
        seen.closure.fsck->Ok_0.stdout@.len() == 0,
{
    let lines = nonempty(split_at_each(seen.refs.listing->Ok_0.stdout@, 10));
    assert(refs_failure(lines, record) is None);
    assert(lines.drop_last() =~= Seq::<Seq<u8>>::empty());
    assert(ref_failure(lines[0], record) is None);
    lemma_stores_name_by_name(
        views(seen.store.names->Ok_0@),
        seen.store.info,
        seen.store.pack,
    );
}

/// Where no entry is amiss, each of them is in order.
proof fn lemma_stores_name_by_name(
    names: Seq<Seq<u8>>,
    info: Result<Vec<Vec<u8>>, Error>,
    pack: Result<Vec<Vec<u8>>, Error>,
)
    requires
        store_entries_failure(names, info, pack) is None,
    ensures
        forall|i: int|
            0 <= i < names.len() ==> store_entry_failure(#[trigger] names[i], info, pack) is None,
    decreases names.len(),
{
    if names.len() > 0 {
        let shorter = names.drop_last();
        lemma_stores_name_by_name(shorter, info, pack);
        assert forall|i: int| 0 <= i < names.len() implies store_entry_failure(
            #[trigger] names[i],
            info,
            pack,
        ) is None by {
            if i < shorter.len() {
                assert(shorter[i] == names[i]);
            }
        }
    }
}

} // verus!
