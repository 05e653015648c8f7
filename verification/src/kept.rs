//! What a record keeps: what it says of its session or its template from step to step, and what a
//! record that passes for valid says.

use crate::authority::Identity;
use crate::bytes::utf8;
use crate::classified::is_hex_of;
use crate::digest::digest_text;
use crate::notation::{big_endian, framed, unhex};
use crate::rooted::is_with_mode;
use crate::session::{
    loose_path, selection_failure, GitMetadataView, JournalView, SessionPayloadView, SessionView,
};
use crate::session_git::MetadataSeen;
use crate::storage::SealedView;
use crate::template::{TemplatePayloadView, TemplateView};
use vstd::prelude::*;

verus! {

/// Two records say the same but for where their session stands and how far it is published.
pub open spec fn is_of_one_session(left: SessionView, right: SessionView) -> bool {
    &&& left.version == right.version
    &&& left.sid == right.sid
    &&& left.authority_path == right.authority_path
    &&& left.authority_identity == right.authority_identity
    &&& left.name == right.name
    &&& left.base == right.base
    &&& left.target == right.target
    &&& left.template_key == right.template_key
    &&& left.template == right.template
    &&& left.container_identity == right.container_identity
    &&& left.volume == right.volume
}

/// Each step of a session changes where it stands, and nothing else; a publication that is done changes
/// what its target is known to point at, and that nothing is under way.
pub proof fn law_session_steps_change_only_the_stage(
    record: SessionView,
    root: Identity,
    common: Identity,
    worktree: (SealedView, Identity),
    git: GitMetadataView,
    new: Seq<char>,
)
    ensures
        is_of_one_session(record, record.materialize(root)),
        is_of_one_session(record, record.settle(root, common, worktree, git)),
        is_of_one_session(record, record.bury(root)),
        is_of_one_session(record, record.publish(new)),
        record.materialize(root).expected_old == record.expected_old,
        record.settle(root, common, worktree, git).expected_old == record.expected_old,
        record.bury(root).expected_old == record.expected_old,
        record.publish(new).expected_old == Some(new),
        record.materialize(root).journal == record.journal,
        record.settle(root, common, worktree, git).journal == record.journal,
        record.bury(root).journal == record.journal,
        record.publish(new).journal is Idle,
        record.publish(new).payload == record.payload,
        record.materialize(root).payload == (SessionPayloadView::Materializing {
            root_name: "session-"@ + record.sid + ".root"@,
            root_identity: root,
        }),
        record.settle(root, common, worktree, git).payload == (SessionPayloadView::Ready {
            root_name: "session-"@ + record.sid + ".root"@,
            root_identity: root,
            common_identity: common,
            worktree,
            git,
        }),
        record.bury(root).payload == (SessionPayloadView::Tombstoned {
            root_name: "session-"@ + record.sid + ".root"@,
            tombstone_name: "session-"@ + record.sid + ".tombstone"@,
            root_identity: root,
        }),
{
}

/// The second record stands one stage behind the first, in the same directory.
pub open spec fn is_a_stage_further(previous: SessionView, next: SessionView) -> bool {
    ||| previous.payload matches SessionPayloadView::Prepared { root_name: left }
        && next.payload matches SessionPayloadView::Materializing { root_name: right, .. }
        && left == right
    ||| previous.payload matches SessionPayloadView::Materializing {
        root_name: left,
        root_identity: from,
    } && next.payload matches SessionPayloadView::Ready {
        root_name: right,
        root_identity: to,
        ..
    } && left == right && from.dev == to.dev && from.ino == to.ino
    ||| previous.payload matches SessionPayloadView::Ready {
        root_name: left,
        root_identity: from,
        ..
    } && next.payload matches SessionPayloadView::Tombstoned {
        root_name: right,
        root_identity: to,
        ..
    } && left == right && from.dev == to.dev && from.ino == to.ino
}

/// One record of a session comes before another only where both are of one session and neither is being
/// published, and where the second stands one stage further, in the same directory.
pub proof fn law_session_steps_stay_in_the_session(previous: SessionView, next: SessionView)
    requires
        previous.steps_to(next),
    ensures
        previous.version == 2,
        previous.sid == next.sid,
        previous.authority_path == next.authority_path,
        previous.authority_identity == next.authority_identity,
        previous.name == next.name,
        previous.base == next.base,
        previous.target == next.target,
        previous.expected_old == next.expected_old,
        previous.template_key == next.template_key,
        previous.template == next.template,
        previous.container_identity.dev == next.container_identity.dev,
        previous.container_identity.ino == next.container_identity.ino,
        previous.volume == next.volume,
        previous.journal is Idle,
        next.journal is Idle,
        is_a_stage_further(previous, next),
{
}

/// A text is a number in hexadecimal notation, in either case, of this many digits.
pub open spec fn is_hex_number(text: Seq<char>, len: int) -> bool {
    &&& utf8(text).len() == len
    &&& forall|i: int|
        0 <= i < utf8(text).len() ==> 48 <= #[trigger] utf8(text)[i] <= 57 || 97 <= utf8(text)[i] <= 102
            || 65 <= utf8(text)[i] <= 70
}

/// A valid record of a session proves what it is bound to: its identifier is the digest of the
/// authority's path and node and of its own name. It is of the second version, its directory is named
/// by its identifier, what it was cloned from is on its own volume, and only a session that is ready is
/// being published.
pub proof fn law_valid_sessions_prove_their_binding(record: SessionView, uid: u32)
    requires
        record.is_valid(uid),
    ensures
        record.version == 2,
        record.sid == digest_text(
            framed(
                seq![
                    utf8("git-vws/session-id/v1"@),
                    unhex(utf8(record.authority_path)),
                    big_endian(record.authority_identity.dev as nat, 8),
                    big_endian(record.authority_identity.ino as nat, 8),
                    big_endian(record.authority_identity.uid as nat, 4),
                    unhex(utf8(record.name)),
                ],
            ),
        ),
        is_hex_number(record.sid, 64),
        is_hex_number(record.template_key, 64),
        is_hex_number(record.template.digest, 64),
        is_hex_number(record.template.content_digest, 64),
        is_hex_number(record.base, 40) || is_hex_number(record.base, 64),
        record.expected_old matches Some(old) ==> is_hex_number(old, 40) || is_hex_number(old, 64),
        unhex(utf8(record.name)).len() > 0,
        !unhex(utf8(record.name)).contains(0),
        unhex(utf8(record.authority_path)).len() > 0 && unhex(utf8(record.authority_path))[0] == 47,
        !unhex(utf8(record.authority_path)).contains(0),
        record.authority_identity.is_directory(),
        is_with_mode(record.container_identity, uid, 0o700),
        record.template.volume == record.volume,
        record.volume.len() > 0,
        match record.payload {
            SessionPayloadView::Prepared { root_name } => root_name == "session-"@ + record.sid
                + ".root"@,
            SessionPayloadView::Materializing { root_name, root_identity } => root_name == "session-"@
                + record.sid + ".root"@ && is_with_mode(root_identity, uid, 0o700),
            SessionPayloadView::Ready {
                root_name,
                root_identity,
                common_identity,
                worktree,
                git,
            } => {
                &&& root_name == "session-"@ + record.sid + ".root"@
                &&& is_with_mode(root_identity, uid, 0o700)
                &&& is_with_mode(common_identity, uid, 0o700)
                &&& worktree.0 == record.template
                &&& worktree.1.is_directory() && worktree.1.uid == uid
                &&& is_hex_number(git.dot_git, 64) && is_hex_number(git.head, 64)
                &&& is_hex_number(git.target_ref, 64) && is_hex_number(git.index, 64)
                &&& is_hex_number(git.worktrees, 64) && is_hex_number(git.alternates, 64)
            },
            SessionPayloadView::Tombstoned { root_name, tombstone_name, root_identity } => {
                &&& root_name == "session-"@ + record.sid + ".root"@
                &&& tombstone_name == "session-"@ + record.sid + ".tombstone"@
                &&& is_with_mode(root_identity, uid, 0o700)
            },
        },
        record.journal !is Idle ==> record.payload is Ready,
        match record.journal {
            JournalView::Idle => true,
            JournalView::Prepared(frozen)
            | JournalView::ObjectsImported(frozen)
            | JournalView::CasAttempted(frozen)
            | JournalView::CasCommitted(frozen) => {
                &&& is_hex_of(utf8(frozen.txid), 64)
                &&& is_hex_of(utf8(frozen.new), 40) || is_hex_of(utf8(frozen.new), 64)
                &&& frozen.expected_old matches Some(old) ==> is_hex_of(utf8(old), 40) || is_hex_of(
                    utf8(old),
                    64,
                )
                &&& is_hex_of(utf8(frozen.config_fingerprint), 64)
            },
        },
{
}

/// A session is selected by its name or by the bytes of its name in hexadecimal notation, not by both
/// and not by neither; and a name has at least one byte, none of them zero.
pub proof fn law_one_name_selects(name: Seq<u8>, text: Seq<char>)
    ensures
        selection_failure(None, None) is Some,
        selection_failure(Some(name), Some(text)) is Some,
        selection_failure(Some(name), None) is None <==> name.len() > 0 && !name.contains(0),
        selection_failure(None, Some(text)) is None ==> utf8(text).len() > 0 && utf8(text).len() % 2
            == 0 && is_hex_of(utf8(text), utf8(text).len() as int) && unhex(utf8(text)).len() > 0
            && !unhex(utf8(text)).contains(0),
        selection_failure(Some(name), Some(text)) == Some(
            ("SESSION_USAGE"@, "select exactly one of NAME or --name-hex"@),
        ),
{
}

/// A private object lies in the private repository of its session, in the directory of its first two
/// digits.
pub proof fn law_private_objects_have_their_places(
    record: SessionView,
    fanout: Seq<u8>,
    tail: Seq<u8>,
)
    ensures
        loose_path(record, fanout, None) == utf8("session-"@ + record.sid + ".root"@) + utf8(
            "/common.git/objects/"@,
        ) + fanout,
        loose_path(record, fanout, Some(tail)) == loose_path(record, fanout, None) + seq![47u8] + tail,
{
}

/// The receipt of a worktree has the digest of each thing that was read: its pointer, its head, its
/// branch, its index, the registry and the borrowed objects, each under its own name.
pub proof fn law_metadata_receipts_are_of_what_was_read(seen: MetadataSeen, uid: u32)
    requires
        seen.metadata_failure(uid) is None,
    ensures
        seen.dot_git.bytes matches Ok(bytes) && seen.digests().dot_git == digest_text(bytes@),
        seen.head matches Ok(output) && output.status.succeeded() && output.stderr@.len() == 0
            && seen.digests().head == digest_text(output.stdout@),
        seen.target_ref matches Ok(output) && output.status.succeeded() && output.stderr@.len() == 0
            && seen.digests().target_ref == digest_text(output.stdout@),
        seen.index matches Ok(output) && output.status.succeeded() && output.stderr@.len() == 0
            && seen.digests().index == digest_text(output.stdout@),
        seen.worktrees matches Ok(output) && output.status.succeeded() && output.stderr@.len() == 0
            && seen.digests().worktrees == digest_text(output.stdout@),
        seen.alternates.bytes matches Ok(bytes) && seen.digests().alternates == digest_text(bytes@),
        seen.objects is Ok,
        seen.info is Ok,
{
}

/// Each step of a template changes where it stands, and nothing else; only one that goes is of the
/// later version.
pub proof fn law_template_steps_change_only_the_stage(
    record: TemplateView,
    root: Identity,
    seal: SealedView,
)
    ensures
        record.payload matches TemplatePayloadView::Prepared { building_name } ==> record.materialize(
            root,
        ) == (TemplateView {
            version: record.version,
            key: record.key,
            digest: record.digest,
            entries: record.entries,
            volume: record.volume,
            payload: TemplatePayloadView::Materializing { building_name, root_identity: root },
        }),
        record.payload matches TemplatePayloadView::Materializing { building_name, .. }
            ==> record.publish(seal) == (TemplateView {
            version: record.version,
            key: record.key,
            digest: record.digest,
            entries: record.entries,
            volume: record.volume,
            payload: TemplatePayloadView::Publishing {
                building_name,
                ready_name: "template-"@ + record.key + ".root"@,
                sealed: seal,
            },
        }),
        record.payload matches TemplatePayloadView::Publishing { ready_name, sealed, .. }
            ==> record.settle() == (TemplateView {
            version: record.version,
            key: record.key,
            digest: record.digest,
            entries: record.entries,
            volume: record.volume,
            payload: TemplatePayloadView::Ready { root_name: ready_name, sealed },
        }),
        record.payload matches TemplatePayloadView::Ready { root_name, sealed } ==> record.bury() == (
        TemplateView {
            version: 4,
            key: record.key,
            digest: record.digest,
            entries: record.entries,
            volume: record.volume,
            payload: TemplatePayloadView::Tombstoned {
                root_name,
                tombstone_name: "template-"@ + record.key + ".tombstone"@,
                sealed,
            },
        }),
{
}

/// The second record stands one stage behind the first, under the same name and seal.
pub open spec fn is_a_template_stage_further(previous: TemplateView, next: TemplateView) -> bool {
    ||| previous.payload matches TemplatePayloadView::Prepared { building_name: left }
        && next.payload matches TemplatePayloadView::Materializing { building_name: right, .. }
        && left == right
    ||| previous.payload matches TemplatePayloadView::Materializing { building_name: left, .. }
        && next.payload matches TemplatePayloadView::Publishing { building_name: right, .. }
        && left == right
    ||| previous.payload matches TemplatePayloadView::Publishing { ready_name, sealed: left, .. }
        && next.payload matches TemplatePayloadView::Ready { root_name, sealed: right }
        && ready_name == root_name && left == right
    ||| previous.payload matches TemplatePayloadView::Ready { root_name: before, sealed: left }
        && next.payload matches TemplatePayloadView::Tombstoned {
        root_name: after,
        sealed: right,
        ..
    } && before == after && left == right
}

/// One record of a template comes before another only where both are of one template and the second
/// stands one stage further: under the same name, and under the same seal once there is one.
pub proof fn law_template_steps_stay_in_the_template(previous: TemplateView, next: TemplateView)
    requires
        previous.steps_to(next),
    ensures
        previous.key == next.key,
        previous.digest == next.digest,
        previous.entries == next.entries,
        previous.volume == next.volume,
        previous.version == 3,
        next.payload is Tombstoned ==> next.version == 4,
        next.payload !is Tombstoned ==> next.version == 3,
        is_a_template_stage_further(previous, next),
{
}

/// The seal of a template: of the record's listing, on the record's volume, over a sealed directory of
/// the user.
pub open spec fn is_sealed_by(record: TemplateView, sealed: SealedView, uid: u32) -> bool {
    &&& sealed.digest == record.digest
    &&& sealed.entries == record.entries
    &&& sealed.volume == record.volume
    &&& is_with_mode(sealed.root, uid, 0o555)
    &&& is_hex_number(sealed.content_digest, 64)
}

/// A valid record of a template names its directories by its key, and is sealed as it says.
pub proof fn law_valid_templates_are_named_by_their_key(record: TemplateView, uid: u32)
    requires
        record.is_valid(uid),
    ensures
        is_hex_number(record.key, 64),
        is_hex_number(record.digest, 64),
        record.volume.len() > 0,
        record.payload is Tombstoned ==> record.version == 4,
        record.payload !is Tombstoned ==> record.version == 3,
        match record.payload {
            TemplatePayloadView::Prepared { .. } => true,
            TemplatePayloadView::Materializing { root_identity, .. } => is_with_mode(
                root_identity,
                uid,
                0o700,
            ),
            TemplatePayloadView::Publishing { ready_name, sealed, .. } => ready_name == "template-"@
                + record.key + ".root"@ && is_sealed_by(record, sealed, uid),
            TemplatePayloadView::Ready { root_name, sealed } => root_name == "template-"@ + record.key
                + ".root"@ && is_sealed_by(record, sealed, uid),
            TemplatePayloadView::Tombstoned { root_name, tombstone_name, sealed } => root_name
                == "template-"@ + record.key + ".root"@ && tombstone_name == "template-"@ + record.key
                + ".tombstone"@ && is_sealed_by(record, sealed, uid),
        },
{
}

} // verus!
