//! Which repositories are authorities, and what is recorded of them.

use crate::authority::{AuthorityView, DIRECTORY_TYPE};
use crate::bytes::{
    ended, lemma_split_ended, lemma_utf8_ascii, lemma_utf8_concat, utf8, without_suffix,
};
use crate::inspection::{
    git_probe_arguments, git_probe_failure, inspected, inspection_failure, probe_lines, probe_text,
    ref_directory, Inspection, StorageProbe,
};
use crate::paths::{is_absolute_path, joined, same_path_spec};
use vstd::prelude::*;

verus! {

/// What Git says of a repository.
pub struct Description {
    pub bare: bool,
    pub git_dir: Seq<char>,
    pub common_dir: Seq<char>,
    pub object_format: Seq<char>,
    pub ref_format: Seq<char>,
}

pub open spec fn is_line(text: Seq<char>) -> bool {
    utf8(text).len() > 0 && !utf8(text).contains(10) && !utf8(text).contains(13)
}

impl Description {
    pub open spec fn lines(self) -> Seq<Seq<u8>> {
        seq![
            utf8(
                if self.bare {
                    "true"@
                } else {
                    "false"@
                },
            ),
            utf8(self.git_dir),
            utf8(self.common_dir),
            utf8(self.object_format),
            utf8(self.ref_format),
        ]
    }

    /// Git answered the probe with this, each thing on a line.
    pub open spec fn is_answer(self, seen: Inspection) -> bool {
        seen.probe matches Ok(output) && output.status.code == Some(0i32) && output.stderr@.len()
            == 0 && output.stdout@ == ended(self.lines(), 10)
    }

    pub open spec fn is_plain(self) -> bool {
        is_line(self.git_dir) && is_line(self.common_dir) && is_line(self.object_format) && is_line(
            self.ref_format,
        )
    }
}

/// What the storage of a repository has to be to be its own.
pub open spec fn is_own_storage(storage: StorageProbe) -> bool {
    storage.objects is Directory && storage.refs is Directory && storage.worktrees is Absent
        && storage.alternates is Absent
}

/// The repository is one directory: the one that was named, or the `.git` of the project that was
/// named.
pub open spec fn is_one_directory(bare: bool, seen: Inspection) -> bool {
    let named = seen.canonical->Ok_0@;
    let git_dir = seen.git_dir->Ok_0@;
    &&& same_path_spec(git_dir, seen.common_dir->Ok_0@)
    &&& seen.git_identity->Ok_0.is_same_node(seen.common_identity->Ok_0)
    &&& if same_path_spec(named, git_dir) {
        seen.identity->Ok_0.is_same_node(seen.git_identity->Ok_0)
    } else {
        !bare && same_path_spec(joined(named, utf8(".git"@)), git_dir)
            && seen.git_identity->Ok_0.kind == DIRECTORY_TYPE
    }
}

pub open spec fn is_known_format(description: Description) -> bool {
    (description.object_format == "sha1"@ || description.object_format == "sha256"@) && (
    description.ref_format == "files"@ || description.ref_format == "reftable"@)
}

proof fn lemma_probe(description: Description, seen: Inspection)
    requires
        description.is_plain(),
        description.is_answer(seen),
    ensures
        git_probe_failure(seen.probe) is None,
        probe_text(seen.probe->Ok_0.stdout@, 0) == (if description.bare {
            "true"@
        } else {
            "false"@
        }),
        probe_text(seen.probe->Ok_0.stdout@, 1) == description.git_dir,
        probe_text(seen.probe->Ok_0.stdout@, 2) == description.common_dir,
        probe_text(seen.probe->Ok_0.stdout@, 3) == description.object_format,
        probe_text(seen.probe->Ok_0.stdout@, 4) == description.ref_format,
{
    let stdout = seen.probe->Ok_0.stdout@;
    let lines = description.lines();
    let bare = if description.bare {
        "true"@
    } else {
        "false"@
    };
    reveal_strlit("true");
    reveal_strlit("false");
    reveal_strlit("\n");
    lemma_utf8_ascii("true"@);
    lemma_utf8_ascii("false"@);
    lemma_utf8_ascii("\n"@);
    assert(utf8("\n"@) =~= seq![10u8]);
    assert(is_line(bare)) by {
        assert forall|i: int| 0 <= i < utf8(bare).len() implies utf8(bare)[i] != 10 && utf8(bare)[i]
            != 13 by {
            assert(utf8(bare)[i] == bare[i] as u8);
        }
    }
    assert forall|i: int| 0 <= i < lines.len() implies !(#[trigger] lines[i]).contains(10) by {}
    lemma_split_ended(lines, 10);
    assert(stdout.subrange(stdout.len() - 1, stdout.len() as int) =~= seq![10u8]);
    assert(utf8("\n"@).is_suffix_of(stdout));
    assert(without_suffix(stdout, utf8("\n"@))->0 =~= stdout.drop_last());
    assert(probe_lines(stdout) == lines);
    vstd::utf8::encode_utf8_decode_utf8(bare);
    vstd::utf8::encode_utf8_decode_utf8(description.git_dir);
    vstd::utf8::encode_utf8_decode_utf8(description.common_dir);
    vstd::utf8::encode_utf8_decode_utf8(description.object_format);
    vstd::utf8::encode_utf8_decode_utf8(description.ref_format);
    vstd::utf8::encode_utf8_valid_utf8(bare);
    vstd::utf8::encode_utf8_valid_utf8(description.git_dir);
    vstd::utf8::encode_utf8_valid_utf8(description.common_dir);
    vstd::utf8::encode_utf8_valid_utf8(description.object_format);
    vstd::utf8::encode_utf8_valid_utf8(description.ref_format);
    lemma_whole_is_text(description);
    assert forall|i: int| 0 <= i < 5 implies crate::inspection::plain_line(
        #[trigger] probe_lines(stdout)[i],
    ) by {}
}

/// Lines of text are text.
proof fn lemma_lines_are_text(texts: Seq<Seq<char>>, lines: Seq<Seq<u8>>) -> (text: Seq<char>)
    requires
        texts.len() == lines.len(),
        forall|i: int| 0 <= i < lines.len() ==> #[trigger] lines[i] == utf8(texts[i]),
    ensures
        ended(lines, 10) == utf8(text),
    decreases lines.len(),
{
    if lines.len() == 0 {
        let text = Seq::<char>::empty();
        assert(utf8(text) =~= Seq::<u8>::empty());
        text
    } else {
        let more_texts = texts.subrange(1, texts.len() as int);
        let more_lines = lines.subrange(1, lines.len() as int);
        assert forall|i: int| 0 <= i < more_lines.len() implies #[trigger] more_lines[i] == utf8(
            more_texts[i],
        ) by {
            assert(more_lines[i] == lines[i + 1]);
        }
        let rest = lemma_lines_are_text(more_texts, more_lines);
        reveal_strlit("\n");
        lemma_utf8_ascii("\n"@);
        assert(utf8("\n"@) =~= seq![10u8]);
        lemma_utf8_concat(texts[0], "\n"@);
        lemma_utf8_concat(texts[0] + "\n"@, rest);
        assert(lines[0] == utf8(texts[0]));
        assert(ended(lines, 10) =~= utf8(texts[0] + "\n"@ + rest));
        texts[0] + "\n"@ + rest
    }
}

/// What Git said is text.
proof fn lemma_whole_is_text(description: Description)
    ensures
        vstd::utf8::valid_utf8(ended(description.lines(), 10)),
{
    let bare = if description.bare {
        "true"@
    } else {
        "false"@
    };
    let texts = seq![
        bare,
        description.git_dir,
        description.common_dir,
        description.object_format,
        description.ref_format,
    ];
    let text = lemma_lines_are_text(texts, description.lines());
    vstd::utf8::encode_utf8_valid_utf8(text);
}

/// A repository is an authority exactly where Git describes it in a known format, it is one directory,
/// and its storage is its own; a bare repository and a project are both taken. What is recorded is the
/// directory that holds the repository, with its node and its formats, as Git named them.
pub proof fn law_own_repositories_are_authorities(seen: Inspection, description: Description)
    requires
        description.is_plain(),
        description.is_answer(seen),
    ensures
        inspection_failure(seen) is None <==> {
            &&& seen.canonical is Ok
            &&& seen.identity matches Ok(identity) && identity.kind == DIRECTORY_TYPE
            &&& is_absolute_path(utf8(description.git_dir)) && seen.git_dir is Ok
            &&& is_absolute_path(utf8(description.common_dir)) && seen.common_dir is Ok
            &&& seen.git_identity is Ok && seen.common_identity is Ok
            &&& is_one_directory(description.bare, seen)
            &&& is_known_format(description)
            &&& is_own_storage(seen.storage)
        },
        inspection_failure(seen) is None ==> {
            let authority = inspected(seen);
            &&& authority.canonical == seen.git_dir->Ok_0@
            &&& authority.identity == seen.git_identity->Ok_0
            &&& authority.object_format == description.object_format
            &&& authority.ref_format == description.ref_format
        },
{
    lemma_probe(description, seen);
    reveal_strlit("true");
    reveal_strlit("false");
    assert("true"@.len() != "false"@.len());
}

/// Nothing is an authority that Git does not describe, cleanly and without a word of complaint.
pub proof fn law_authorities_are_described(seen: Inspection)
    requires
        inspection_failure(seen) is None,
    ensures
        seen.probe matches Ok(output) && output.status.code == Some(0i32) && output.stderr@.len()
            == 0,
        is_own_storage(seen.storage),
        inspected(seen).object_format == "sha1"@ || inspected(seen).object_format == "sha256"@,
        inspected(seen).ref_format == "files"@ || inspected(seen).ref_format == "reftable"@,
        same_path_spec(inspected(seen).canonical, seen.common_dir->Ok_0@),
{
}

/// What Git is asked, and where the references of each format are looked for.
pub proof fn law_probe_asks_for_what_is_recorded(path: Seq<u8>)
    ensures
        git_probe_arguments(path) == seq![
            utf8("-C"@),
            path,
            utf8("rev-parse"@),
            utf8("--is-bare-repository"@),
            utf8("--path-format=absolute"@),
            utf8("--git-dir"@),
            utf8("--git-common-dir"@),
            utf8("--show-object-format=storage"@),
            utf8("--show-ref-format"@),
        ],
        ref_directory("files"@) == "refs"@,
        ref_directory("reftable"@) == "reftable"@,
{
    reveal_strlit("files");
    reveal_strlit("reftable");
    assert("files"@.len() != "reftable"@.len());
}

/// An authority is the same only at the same path, on the same node and in the same formats.
pub proof fn law_same_authority_is_the_same_in_all(first: AuthorityView, second: AuthorityView)
    ensures
        first.same_authority(second) == {
            &&& same_path_spec(first.canonical, second.canonical)
            &&& first.identity.dev == second.identity.dev
            &&& first.identity.ino == second.identity.ino
            &&& first.identity.uid == second.identity.uid
            &&& first.identity.mode == second.identity.mode
            &&& first.identity.kind == second.identity.kind
            &&& first.object_format == second.object_format
            &&& first.ref_format == second.ref_format
        },
        first.same_authority(first),
        first.same_authority(second) == second.same_authority(first),
{
}

} // verus!
