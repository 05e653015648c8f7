//! Inspecting a repository: what Git says of it, what its directories are, and whether that makes it
//! an authority.

use crate::authority::{
    failure, from_git_error, object_format_is_supported, or_fail, quoted_text,
    ref_format_is_supported, supported_format, Authority, AuthorityView, Error, Failure, Identity,
};
use crate::bytes::{
    bytes_of, contains_byte, copy_bytes, decode_text, join2, lemma_utf8_around, lemma_utf8_pieces,
    same_text, split, split_at_each, strip_suffix, utf8, utf8_text, views, without_suffix,
};
use crate::git;
use crate::git::Output;
use crate::paths::{is_absolute, is_absolute_path, join, joined, same_path, same_path_spec};
use vstd::prelude::*;
use vstd::string::StringExecFns;
use vstd::utf8::valid_utf8;

verus! {

/// What stands at a path.
#[derive(Debug)]
pub enum Presence {
    /// Nothing, in the system's words.
    Absent(String),
    Directory,
    /// Something else, a symbolic link among it.
    Other,
    /// It cannot be told, in the system's words.
    Failed(String),
}

pub open spec fn directory_failure(found: Presence, label: Seq<char>) -> Option<Failure> {
    match found {
        Presence::Directory => None,
        Presence::Other => Some(("AUTHORITY_STORAGE_INVALID"@, label + " is not a real directory"@)),
        Presence::Absent(words) | Presence::Failed(words) => Some(
            ("AUTHORITY_INVALID"@, "cannot stat "@ + label + ": "@ + words@),
        ),
    }
}

pub fn ensure_directory(found: &Presence, label: &str) -> (result: Result<(), Error>)
    ensures
        failure(result) == directory_failure(*found, label@),
{
    match found {
        Presence::Directory => Ok(()),
        Presence::Other => Err(
            Error::new(
                "AUTHORITY_STORAGE_INVALID",
                join2(label, " is not a real directory").as_str(),
            ),
        ),
        Presence::Absent(words) => Err(
            Error::io("AUTHORITY_INVALID", join2("cannot stat ", label).as_str(), words.as_str()),
        ),
        Presence::Failed(words) => Err(
            Error::io("AUTHORITY_INVALID", join2("cannot stat ", label).as_str(), words.as_str()),
        ),
    }
}

pub open spec fn presence_failure(found: Presence, label: Seq<char>) -> Option<Failure> {
    match found {
        Presence::Absent(_) => None,
        Presence::Directory | Presence::Other => Some(
            ("AUTHORITY_STORAGE_INVALID"@, label + " is present"@),
        ),
        Presence::Failed(words) => Some(
            ("AUTHORITY_INVALID"@, "cannot inspect "@ + label + ": "@ + words@),
        ),
    }
}

pub fn reject_if_present(found: &Presence, label: &str) -> (result: Result<(), Error>)
    ensures
        failure(result) == presence_failure(*found, label@),
{
    match found {
        Presence::Absent(_) => Ok(()),
        Presence::Directory => Err(
            Error::new("AUTHORITY_STORAGE_INVALID", join2(label, " is present").as_str()),
        ),
        Presence::Other => Err(
            Error::new("AUTHORITY_STORAGE_INVALID", join2(label, " is present").as_str()),
        ),
        Presence::Failed(words) => Err(
            Error::io("AUTHORITY_INVALID", join2("cannot inspect ", label).as_str(), words.as_str()),
        ),
    }
}

/// What stands in a repository where its storage is looked for.
#[derive(Debug)]
pub struct StorageProbe {
    pub objects: Presence,
    /// `refs` or `reftable`, after the ref format.
    pub refs: Presence,
    pub worktrees: Presence,
    pub alternates: Presence,
}

/// The first of two failures.
pub open spec fn first_of(first: Option<Failure>, second: Option<Failure>) -> Option<Failure> {
    if first is Some {
        first
    } else {
        second
    }
}

/// The first failure of a list.
pub open spec fn first_failure(failures: Seq<Option<Failure>>) -> Option<Failure>
    decreases failures.len(),
{
    if failures.len() == 0 {
        None
    } else {
        first_of(first_failure(failures.drop_last()), failures.last())
    }
}

/// What a list fails with is what comes first in it; and without any, it does not fail.
pub proof fn lemma_first_failure(failures: Seq<Option<Failure>>, at: int)
    requires
        0 <= at <= failures.len(),
        forall|i: int| 0 <= i < at ==> (#[trigger] failures[i]) is None,
        at < failures.len() ==> failures[at] is Some,
    ensures
        first_failure(failures) == if at < failures.len() {
            failures[at]
        } else {
            None
        },
    decreases failures.len(),
{
    if failures.len() > 0 {
        let shorter = failures.drop_last();
        if at < shorter.len() {
            lemma_first_failure(shorter, at);
        } else {
            lemma_first_failure(shorter, shorter.len() as int);
        }
    }
}

/// A list that does not fail holds no failure.
pub proof fn lemma_no_failure(failures: Seq<Option<Failure>>)
    requires
        first_failure(failures) is None,
    ensures
        forall|i: int| 0 <= i < failures.len() ==> (#[trigger] failures[i]) is None,
    decreases failures.len(),
{
    if failures.len() > 0 {
        let shorter = failures.drop_last();
        lemma_no_failure(shorter);
        assert forall|i: int| 0 <= i < failures.len() implies (#[trigger] failures[i]) is None by {
            if i < shorter.len() {
                assert(shorter[i] == failures[i]);
            }
        }
    }
}

/// The directory in which a ref format keeps its references.
pub open spec fn ref_directory(ref_format: Seq<char>) -> Seq<char> {
    if ref_format == "files"@ {
        "refs"@
    } else {
        "reftable"@
    }
}

/// The storage of an authority is its own: objects and references in real directories, no linked
/// worktrees, and no objects borrowed from elsewhere.
pub open spec fn storage_failure(probe: StorageProbe, ref_format: Seq<char>) -> Option<Failure> {
    let f = directory_failure(probe.objects, "objects"@);
    let f = first_of(f, directory_failure(probe.refs, ref_directory(ref_format)));
    let f = first_of(f, presence_failure(probe.worktrees, "linked-worktree registry"@));
    first_of(f, presence_failure(probe.alternates, "object alternates"@))
}

/// The name of the directory in which a ref format keeps its references.
pub fn ref_directory_name(ref_format: &str) -> (name: &'static str)
    ensures
        name@ == ref_directory(ref_format@),
{
    if same_text(ref_format, "files") {
        "refs"
    } else {
        "reftable"
    }
}

pub fn verify_storage(probe: &StorageProbe, ref_format: &str) -> (result: Result<(), Error>)
    ensures
        failure(result) == storage_failure(*probe, ref_format@),
{
    ensure_directory(&probe.objects, "objects")?;
    ensure_directory(&probe.refs, ref_directory_name(ref_format))?;
    reject_if_present(&probe.worktrees, "linked-worktree registry")?;
    reject_if_present(&probe.alternates, "object alternates")
}

/// What Git says of a repository.
#[derive(Debug)]
pub struct GitProbe {
    pub bare: String,
    pub git_dir: String,
    pub common_dir: String,
    pub object_format: String,
    pub ref_format: String,
}

/// The arguments of the probe.
pub open spec fn git_probe_arguments(path: Seq<u8>) -> Seq<Seq<u8>> {
    seq![
        utf8("-C"@),
        path,
        utf8("rev-parse"@),
        utf8("--is-bare-repository"@),
        utf8("--path-format=absolute"@),
        utf8("--git-dir"@),
        utf8("--git-common-dir"@),
        utf8("--show-object-format=storage"@),
        utf8("--show-ref-format"@),
    ]
}

pub fn git_probe_args(path: &[u8]) -> (arguments: Vec<Vec<u8>>)
    ensures
        views(arguments@) == git_probe_arguments(path@),
{
    let arguments: Vec<Vec<u8>> = vec![
        bytes_of("-C"),
        copy_bytes(path),
        bytes_of("rev-parse"),
        bytes_of("--is-bare-repository"),
        bytes_of("--path-format=absolute"),
        bytes_of("--git-dir"),
        bytes_of("--git-common-dir"),
        bytes_of("--show-object-format=storage"),
        bytes_of("--show-ref-format"),
    ];
    proof {
        assert(views(arguments@) =~= git_probe_arguments(path@));
    }
    arguments
}

/// The lines of the probe's answer.
pub open spec fn probe_lines(stdout: Seq<u8>) -> Seq<Seq<u8>> {
    split_at_each(without_suffix(stdout, utf8("\n"@))->0, 10)
}

/// A line of an answer that can be taken for a value.
pub open spec fn plain_line(line: Seq<u8>) -> bool {
    line.len() > 0 && !line.contains(13)
}

pub open spec fn git_probe_failure(outcome: Result<Output, git::Error>) -> Option<Failure> {
    match outcome {
        Err(error) => Some(error@),
        Ok(output) => {
            let code = "GIT_PROBE_FAILED"@;
            let f = or_fail(None, output.clean(), code, "Git probe did not complete cleanly"@);
            let f = or_fail(
                f,
                valid_utf8(output.stdout@),
                code,
                "Git probe output was not UTF-8"@,
            );
            let f = or_fail(
                f,
                utf8("\n"@).is_suffix_of(output.stdout@),
                code,
                "Git probe lacked a final newline"@,
            );
            let lines = probe_lines(output.stdout@);
            or_fail(
                f,
                lines.len() == 5 && forall|i: int| 0 <= i < 5 ==> plain_line(#[trigger] lines[i]),
                code,
                "Git probe output was ambiguous"@,
            )
        },
    }
}

fn is_plain_line(line: &Vec<u8>) -> (is: bool)
    ensures
        is == plain_line(line@),
{
    line.len() > 0 && !contains_byte(line.as_slice(), 13)
}

fn line_text(line: &Vec<u8>) -> (text: String)
    requires
        valid_utf8(line@),
    ensures
        Some(text@) == utf8_text(line@),
        utf8(text@) == line@,
{
    match decode_text(line.as_slice()) {
        Some(text) => text,
        None => String::new(),
    }
}

pub fn git_probe(outcome: Result<Output, git::Error>) -> (probe: Result<GitProbe, Error>)
    ensures
        failure(probe) == git_probe_failure(outcome),
        probe matches Ok(probe) ==> {
            let lines = probe_lines(outcome->Ok_0.stdout@);
            &&& utf8(probe.bare@) == lines[0]
            &&& utf8(probe.git_dir@) == lines[1]
            &&& utf8(probe.common_dir@) == lines[2]
            &&& utf8(probe.object_format@) == lines[3]
            &&& utf8(probe.ref_format@) == lines[4]
        },
{
    let output = match outcome {
        Ok(output) => output,
        Err(error) => return Err(from_git_error(error)),
    };
    if !output.is_clean() {
        return Err(Error::probe_failed("Git probe did not complete cleanly"));
    }
    if decode_text(output.stdout.as_slice()).is_none() {
        return Err(Error::probe_failed("Git probe output was not UTF-8"));
    }
    let body: &[u8] = match strip_suffix(output.stdout.as_slice(), "\n".as_bytes()) {
        Some(body) => body,
        None => return Err(Error::probe_failed("Git probe lacked a final newline")),
    };
    let lines = split(body, 10);
    proof {
        let stdout = output.stdout@;
        reveal_strlit("\n");
        assert(vstd::utf8::is_ascii_chars("\n"@));
        crate::bytes::lemma_utf8_ascii("\n"@);
        assert(utf8("\n"@) =~= seq![10u8]);
        assert(stdout.subrange(stdout.len() - 1, stdout.len() as int)[0] == 10);
        lemma_utf8_around(stdout, stdout.len() - 1);
        lemma_utf8_pieces(body@, 10);
        assert(views(lines@) == probe_lines(stdout));
        assert(forall|i: int| 0 <= i < lines@.len() ==> #[trigger] views(lines@)[i] == lines@[i]@);
    }
    if lines.len() != 5 || !is_plain_line(&lines[0]) || !is_plain_line(&lines[1]) || !is_plain_line(
        &lines[2],
    ) || !is_plain_line(&lines[3]) || !is_plain_line(&lines[4]) {
        proof {
            let all = probe_lines(output.stdout@);
            if all.len() == 5 && forall|i: int| 0 <= i < 5 ==> plain_line(#[trigger] all[i]) {
                assert(plain_line(all[0]));
                assert(plain_line(all[1]));
                assert(plain_line(all[2]));
                assert(plain_line(all[3]));
                assert(plain_line(all[4]));
            }
        }
        return Err(Error::probe_failed("Git probe output was ambiguous"));
    }
    proof {
        let all = probe_lines(output.stdout@);
        assert(all[0] == lines@[0]@);
        assert(all[1] == lines@[1]@);
        assert(all[2] == lines@[2]@);
        assert(all[3] == lines@[3]@);
        assert(all[4] == lines@[4]@);
        assert forall|i: int| 0 <= i < 5 implies plain_line(#[trigger] all[i]) by {}
    }
    Ok(
        GitProbe {
            bare: line_text(&lines[0]),
            git_dir: line_text(&lines[1]),
            common_dir: line_text(&lines[2]),
            object_format: line_text(&lines[3]),
            ref_format: line_text(&lines[4]),
        },
    )
}

pub open spec fn git_path_failure(
    value: Seq<char>,
    label: Seq<char>,
    resolved: Result<Vec<u8>, String>,
) -> Option<Failure> {
    if !is_absolute_path(utf8(value)) {
        Some(("GIT_PROBE_FAILED"@, label + " was not absolute"@))
    } else {
        match resolved {
            Ok(_) => None,
            Err(words) => Some(
                ("GIT_PROBE_FAILED"@, "cannot canonicalize "@ + label + ": "@ + words@),
            ),
        }
    }
}

/// The canonical form of a path that Git named, where Git named an absolute one.
pub fn canonical_git_path(value: &str, label: &str, resolved: &Result<Vec<u8>, String>) -> (path:
    Result<Vec<u8>, Error>)
    ensures
        failure(path) == git_path_failure(value@, label@, *resolved),
        path matches Ok(path) ==> resolved is Ok && path@ == resolved->Ok_0@,
{
    if !is_absolute(value.as_bytes()) {
        return Err(Error::probe_failed(join2(label, " was not absolute").as_str()));
    }
    match resolved {
        Ok(path) => Ok(copy_bytes(path.as_slice())),
        Err(words) => Err(
            Error::io("GIT_PROBE_FAILED", join2("cannot canonicalize ", label).as_str(), words.as_str()),
        ),
    }
}

/// All that is observed of a repository when it is inspected.
#[derive(Debug)]
pub struct Inspection {
    /// The canonical form of the given path.
    pub canonical: Result<Vec<u8>, String>,
    pub identity: Result<Identity, String>,
    pub probe: Result<Output, git::Error>,
    /// The canonical forms of the paths that Git named, and what stands there.
    pub git_dir: Result<Vec<u8>, String>,
    pub common_dir: Result<Vec<u8>, String>,
    pub git_identity: Result<Identity, String>,
    pub common_identity: Result<Identity, String>,
    pub storage: StorageProbe,
}

pub open spec fn observed_failure<T>(
    observed: Result<T, String>,
    code: Seq<char>,
    context: Seq<char>,
) -> Option<Failure> {
    match observed {
        Ok(_) => None,
        Err(words) => Some((code, context + ": "@ + words@)),
    }
}

/// A bare repository is the directory that was named. A project is named by its root or by its Git
/// directory. Either way one directory holds all of the repository.
pub open spec fn is_sole(
    bare: bool,
    named: Seq<u8>,
    named_identity: Identity,
    git_dir: Seq<u8>,
    git_identity: Identity,
    common_dir: Seq<u8>,
    common_identity: Identity,
) -> bool {
    &&& same_path_spec(git_dir, common_dir)
    &&& git_identity.is_same_node(common_identity)
    &&& if bare || same_path_spec(named, git_dir) {
        same_path_spec(named, git_dir) && named_identity.is_same_node(git_identity)
    } else {
        same_path_spec(joined(named, utf8(".git"@)), git_dir) && git_identity.is_directory()
    }
}

pub open spec fn format_failure(supported: bool, kind: Seq<char>, value: Seq<char>) -> Option<
    Failure,
> {
    if supported {
        None
    } else {
        Some(("FORMAT_UNSUPPORTED"@, "unsupported "@ + kind + " format "@ + quoted_text(value)))
    }
}

/// The text of a line of the probe's answer.
pub open spec fn probe_text(stdout: Seq<u8>, line: int) -> Seq<char> {
    utf8_text(probe_lines(stdout)[line])->0
}

/// Why what was observed is no authority.
pub open spec fn inspection_failure(seen: Inspection) -> Option<Failure> {
    let f = observed_failure(
        seen.canonical,
        "AUTHORITY_INVALID"@,
        "cannot canonicalize authority"@,
    );
    let f = first_of(
        f,
        observed_failure(seen.identity, "AUTHORITY_INVALID"@, "cannot stat authority"@),
    );
    let f = or_fail(
        f,
        seen.identity->Ok_0.is_directory(),
        "AUTHORITY_INVALID"@,
        "authority is not a directory"@,
    );
    let f = first_of(f, git_probe_failure(seen.probe));
    let stdout = seen.probe->Ok_0.stdout@;
    let bare = probe_text(stdout, 0);
    let f = or_fail(
        f,
        bare == "true"@ || bare == "false"@,
        "AUTHORITY_NOT_BARE"@,
        "Git did not report a bare repository"@,
    );
    let f = first_of(
        f,
        git_path_failure(probe_text(stdout, 1), "git-dir"@, seen.git_dir),
    );
    let f = first_of(
        f,
        git_path_failure(probe_text(stdout, 2), "git-common-dir"@, seen.common_dir),
    );
    let f = first_of(
        f,
        observed_failure(
            seen.git_identity,
            "AUTHORITY_INVALID"@,
            "cannot stat "@ + "git-dir"@,
        ),
    );
    let f = first_of(
        f,
        observed_failure(
            seen.common_identity,
            "AUTHORITY_INVALID"@,
            "cannot stat "@ + "git-common-dir"@,
        ),
    );
    let f = or_fail(
        f,
        is_sole(
            bare == "true"@,
            seen.canonical->Ok_0@,
            seen.identity->Ok_0,
            seen.git_dir->Ok_0@,
            seen.git_identity->Ok_0,
            seen.common_dir->Ok_0@,
            seen.common_identity->Ok_0,
        ),
        "AUTHORITY_NOT_SOLE"@,
        "authority, git-dir, and common-dir differ"@,
    );
    let object_format = probe_text(stdout, 3);
    let f = first_of(
        f,
        format_failure(object_format_is_supported(object_format), "object"@, object_format),
    );
    let ref_format = probe_text(stdout, 4);
    let f = first_of(
        f,
        format_failure(ref_format_is_supported(ref_format), "ref"@, ref_format),
    );
    first_of(f, storage_failure(seen.storage, ref_format))
}

/// What was observed, as an authority: the directory that holds the repository.
pub open spec fn inspected(seen: Inspection) -> AuthorityView {
    let stdout = seen.probe->Ok_0.stdout@;
    AuthorityView {
        canonical: seen.git_dir->Ok_0@,
        identity: seen.git_identity->Ok_0,
        object_format: probe_text(stdout, 3),
        ref_format: probe_text(stdout, 4),
    }
}

fn taken<T: Copy>(observed: &Result<T, String>, code: &'static str, context: &str) -> (value: Result<
    T,
    Error,
>)
    ensures
        failure(value) == observed_failure(*observed, code@, context@),
        value matches Ok(value) ==> observed is Ok && value == observed->Ok_0,
{
    match observed {
        Ok(value) => Ok(*value),
        Err(words) => Err(Error::io(code, context, words.as_str())),
    }
}

/// Judges what was observed of a repository.
pub fn inspect_authority(seen: Inspection) -> (authority: Result<Authority, Error>)
    ensures
        failure(authority) == inspection_failure(seen),
        authority matches Ok(authority) ==> authority@ == inspected(seen),
{
    let Inspection {
        canonical,
        identity,
        probe,
        git_dir,
        common_dir,
        git_identity,
        common_identity,
        storage,
    } = seen;
    let named = match canonical {
        Ok(path) => path,
        Err(words) => return Err(
            Error::io("AUTHORITY_INVALID", "cannot canonicalize authority", words.as_str()),
        ),
    };
    let named_identity = taken(&identity, "AUTHORITY_INVALID", "cannot stat authority")?;
    if !named_identity.directory() {
        return Err(Error::new("AUTHORITY_INVALID", "authority is not a directory"));
    }
    let probe = git_probe(probe)?;
    proof {
        let stdout = seen.probe->Ok_0.stdout@;
        vstd::utf8::encode_utf8_decode_utf8(probe.bare@);
        vstd::utf8::encode_utf8_decode_utf8(probe.git_dir@);
        vstd::utf8::encode_utf8_decode_utf8(probe.common_dir@);
        vstd::utf8::encode_utf8_decode_utf8(probe.object_format@);
        vstd::utf8::encode_utf8_decode_utf8(probe.ref_format@);
        vstd::utf8::encode_utf8_valid_utf8(probe.bare@);
        vstd::utf8::encode_utf8_valid_utf8(probe.git_dir@);
        vstd::utf8::encode_utf8_valid_utf8(probe.common_dir@);
        vstd::utf8::encode_utf8_valid_utf8(probe.object_format@);
        vstd::utf8::encode_utf8_valid_utf8(probe.ref_format@);
        assert(probe_text(stdout, 0) == probe.bare@);
        assert(probe_text(stdout, 3) == probe.object_format@);
        assert(probe_text(stdout, 4) == probe.ref_format@);
    }
    let bare: bool = same_text(probe.bare.as_str(), "true");
    if !bare && !same_text(probe.bare.as_str(), "false") {
        return Err(Error::new("AUTHORITY_NOT_BARE", "Git did not report a bare repository"));
    }
    let git_dir = canonical_git_path(probe.git_dir.as_str(), "git-dir", &git_dir)?;
    let common_dir = canonical_git_path(probe.common_dir.as_str(), "git-common-dir", &common_dir)?;
    let git_identity = taken(
        &git_identity,
        "AUTHORITY_INVALID",
        join2("cannot stat ", "git-dir").as_str(),
    )?;
    let common_identity = taken(
        &common_identity,
        "AUTHORITY_INVALID",
        join2("cannot stat ", "git-common-dir").as_str(),
    )?;
    let whole: bool = same_path(git_dir.as_slice(), common_dir.as_slice())
        && git_identity.same_node(common_identity);
    let at_git_dir: bool = same_path(named.as_slice(), git_dir.as_slice());
    let placed: bool = if bare || at_git_dir {
        at_git_dir && named_identity.same_node(git_identity)
    } else {
        let below = join(named.as_slice(), ".git".as_bytes());
        same_path(below.as_slice(), git_dir.as_slice()) && git_identity.directory()
    };
    if !whole || !placed {
        return Err(Error::new("AUTHORITY_NOT_SOLE", "authority, git-dir, and common-dir differ"));
    }
    let object_formats: [&str; 2] = ["sha1", "sha256"];
    let ref_formats: [&str; 2] = ["files", "reftable"];
    proof {
        assert(object_formats@[0]@ == "sha1"@ && object_formats@[1]@ == "sha256"@);
        assert(ref_formats@[0]@ == "files"@ && ref_formats@[1]@ == "reftable"@);
    }
    let object_format = supported_format(probe.object_format.as_str(), &object_formats, "object")?;
    let ref_format = supported_format(probe.ref_format.as_str(), &ref_formats, "ref")?;
    verify_storage(&storage, ref_format.as_str())?;
    Ok(Authority { canonical: git_dir, identity: git_identity, object_format, ref_format })
}

/// Two inspections, the second at the path that the first one found, must find the same authority.
pub fn inspect(first: Result<Authority, Error>, second: Result<Authority, Error>) -> (authority: Result<
    Authority,
    Error,
>)
    ensures
        match (first, second) {
            (Err(error), _) => failure(authority) == Some(error@),
            (Ok(_), Err(error)) => failure(authority) == Some(error@),
            (Ok(first), Ok(second)) => if first@.same_authority(second@) {
                authority matches Ok(found) && found@ == second@
            } else {
                failure(authority) == Some(
                    ("AUTHORITY_IDENTITY_DRIFT"@, "authority changed during preflight"@),
                )
            },
        },
{
    let first = first?;
    let second = second?;
    if !first.matches(&second) {
        return Err(Error::new("AUTHORITY_IDENTITY_DRIFT", "authority changed during preflight"));
    }
    Ok(second)
}

} // verus!
