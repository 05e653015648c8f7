use git_vws::authority::{
    decode_path, field, hex, hex_digit, parse_number, parse_record, path_hash, record_name,
    supported_format, Authority, Error, Identity, Record, DIRECTORY_TYPE,
};
use git_vws::bytes::{
    bytes_of, contains_byte, decode_text, ends_with, find_byte, same_bytes, split, starts_with,
    strip_prefix, strip_suffix,
};
use git_vws::digest::{digest_hex, MessageHasher};
use git_vws::notation::{
    from_hex, only_digits, only_hex, only_lower_hex, push_frame, read_decimal, to_big_endian,
    to_decimal, to_hex, to_octal, to_short_hex,
};
use git_vws::order::{is_before, sort_names, sorted_order, SortKey};
use git_vws::paths::{is_absolute, join, same_lists, same_path};

fn directory() -> Identity {
    Identity {
        dev: 7,
        ino: 11,
        uid: 1000,
        mode: 0o755,
        kind: DIRECTORY_TYPE,
        nlink: 4,
    }
}

fn authority() -> Authority {
    Authority {
        canonical: b"/repo.git".to_vec(),
        identity: directory(),
        object_format: "sha1".to_owned(),
        ref_format: "files".to_owned(),
    }
}

#[test]
fn bytes_are_compared_split_and_stripped() {
    assert!(same_bytes(b"ab", b"ab"));
    assert!(!same_bytes(b"ab", b"abc"));
    assert!(starts_with(b"session-1", b"session-"));
    assert!(!starts_with(b"sess", b"session-"));
    assert!(ends_with(b"a.record", b".record"));
    assert_eq!(strip_prefix(b"key=value", b"key="), Some(b"value".as_slice()));
    assert_eq!(strip_prefix(b"key", b"key="), None);
    assert_eq!(strip_suffix(b"line\n", b"\n"), Some(b"line".as_slice()));
    assert_eq!(find_byte(b"a/b", b'/'), 1);
    assert_eq!(find_byte(b"ab", b'/'), 2);
    assert!(contains_byte(b"a\0b", 0));
    assert_eq!(
        split(b"a//b", b'/'),
        vec![b"a".to_vec(), b"".to_vec(), b"b".to_vec()]
    );
    assert_eq!(split(b"", b'/'), vec![b"".to_vec()]);
}

#[test]
fn text_is_utf8() {
    assert_eq!(decode_text("gr\u{fc}n".as_bytes()), Some("gr\u{fc}n".to_owned()));
    assert_eq!(decode_text(&[0xff]), None);
    assert_eq!(bytes_of("\u{e9}"), vec![0xc3, 0xa9]);
}

#[test]
fn numbers_are_written_out() {
    assert_eq!(to_hex(&[0x00, 0xab, 0x0f]), "00ab0f");
    assert_eq!(from_hex(b"00ab0f"), vec![0x00, 0xab, 0x0f]);
    assert_eq!(to_decimal(0), "0");
    assert_eq!(to_decimal(u64::MAX), "18446744073709551615");
    assert_eq!(read_decimal(b"255", 255), Some(255));
    assert_eq!(read_decimal(b"256", 255), None);
    assert_eq!(to_octal(0o755), "755");
    assert_eq!(to_short_hex(0xbeef), "beef");
    assert_eq!(to_big_endian(0x0102, 4), vec![0, 0, 1, 2]);
    assert!(only_digits(b"019"));
    assert!(!only_digits(b"0a"));
    assert!(only_lower_hex(b"09af"));
    assert!(!only_lower_hex(b"09AF"));
    assert!(only_hex(b"09AF"));
    assert!(!only_hex(b"0g"));
}

#[test]
fn framed_fields_cannot_be_confused() {
    let mut first = Vec::new();
    push_frame(&mut first, b"ab");
    push_frame(&mut first, b"c");
    let mut second = Vec::new();
    push_frame(&mut second, b"a");
    push_frame(&mut second, b"bc");
    assert_eq!(
        first,
        vec![0, 0, 0, 0, 0, 0, 0, 2, b'a', b'b', 0, 0, 0, 0, 0, 0, 0, 1, b'c']
    );
    assert_ne!(first, second);
}

#[test]
fn digests_are_sha256() {
    assert_eq!(
        digest_hex(b""),
        "e3b0c44298fc1c149afbf4c8996fb92427ae41e4649b934ca495991b7852b855"
    );
    let pieces = MessageHasher::new().update(b"a").update(b"bc");
    assert_eq!(pieces.len(), 3);
    assert_eq!(
        pieces.finish(),
        "ba7816bf8f01cfea414140de5dae2223b00361a396177a9cb410ff61f20015ad"
    );
    assert_eq!(digest_hex(b"abc"), MessageHasher::new().update(b"abc").finish());
}

#[test]
fn paths_are_joined_and_compared_by_component() {
    assert!(is_absolute(b"/a"));
    assert!(!is_absolute(b"a"));
    assert_eq!(join(b"/a", b"b"), b"/a/b".to_vec());
    assert_eq!(join(b"/a/", b"b"), b"/a/b".to_vec());
    assert_eq!(join(b"/a", b"/b"), b"/b".to_vec());
    assert!(same_path(b"/a//b/./c/", b"/a/b/c"));
    assert!(!same_path(b"/a/b", b"a/b"));
    assert!(!same_path(b"/a/b", b"/a/c"));
    assert!(same_lists(&vec![b"a".to_vec()], &vec![b"a".to_vec()]));
    assert!(!same_lists(&vec![b"a".to_vec()], &vec![]));
}

#[test]
fn names_are_sorted_as_bytes() {
    assert!(is_before(b"a", b"ab"));
    assert!(is_before(b"Z", b"a"));
    assert!(!is_before(b"a", b"a"));
    assert_eq!(
        sort_names(&vec![b"b".to_vec(), b"a".to_vec(), b"ab".to_vec(), b"a".to_vec()]),
        vec![b"a".to_vec(), b"a".to_vec(), b"ab".to_vec(), b"b".to_vec()]
    );
}

#[test]
fn equal_keys_keep_their_places() {
    let key = |part: &[u8]| SortKey {
        parts: vec![part.to_vec()],
    };
    let keys = vec![key(b"b"), key(b"a"), key(b"b"), key(b"a")];
    assert_eq!(sorted_order(&keys), vec![1, 3, 0, 2]);
}

#[test]
fn numbers_order_as_their_bytes() {
    for (low, high) in [(0, 1), (255, 256), (1 << 32, (1 << 32) + 1), (9, u64::MAX)] {
        assert!(is_before(&to_big_endian(low, 8), &to_big_endian(high, 8)));
        assert!(!is_before(&to_big_endian(high, 8), &to_big_endian(low, 8)));
    }
}

#[test]
fn nodes_are_the_same_but_for_their_links() {
    let one = directory();
    let two = Identity { nlink: 9, ..one };
    assert!(one.same_node(one));
    assert!(one.same_node(two) && two.same_node(one));
    assert!(!one.same_node(Identity { ino: 12, ..one }));
    let seen = Identity::from_stat(7, 11, 1000, 0o040755, 4);
    assert_eq!(seen, one);
    assert!(seen.directory() && !seen.regular());
}

#[test]
fn authority_records_come_back() {
    let authority = authority();
    let record = Record::from_authority(&authority);
    let bytes = record.encode();
    assert_eq!(
        String::from_utf8(bytes.clone()).expect("text"),
        "version=1\npath=2f7265706f2e676974\ndev=7\nino=11\nuid=1000\nmode=493\nobject=sha1\nref=files\n"
    );
    let read = parse_record(&bytes).expect("record");
    assert!(read.exactly_matches(&authority));
    assert_eq!(read.canonical, b"/repo.git".to_vec());
    assert!(authority.matches(&authority.copy()));
}

#[test]
fn authority_records_are_named_after_their_path() {
    assert_eq!(path_hash(b""), 0xcbf29ce484222325);
    assert_eq!(path_hash(b"/repo.git"), 0xc30ae996a929a2cc);
    assert_eq!(
        record_name(b"/repo.git"),
        b"authority-c30ae996a929a2cc.record".to_vec()
    );
}

#[test]
fn broken_authority_records_are_corrupt() {
    let good = Record::from_authority(&authority()).encode();
    let text = String::from_utf8(good).expect("text");
    for broken in [
        text.replace("version=1", "version=2"),
        text.replace("object=sha1", "object=md5"),
        text.replace("ref=files", "ref=none"),
        text.replace("path=2f", "path=2F"),
        text.replace("path=2f", "path=2"),
        text.replace("path=2f72", "path=7272"),
        text.replace("dev=7", "dev=x"),
        text.replace("uid=1000", "uid=4294967296"),
        text.replace("ino=11\n", ""),
        text.trim_end().to_owned(),
    ] {
        let error = parse_record(broken.as_bytes()).expect_err("broken record accepted");
        assert_eq!(error.code, "STATE_CORRUPT");
    }
}

#[test]
fn record_fields_and_numbers() {
    assert_eq!(field(b"dev=7", "dev").expect("field"), b"7");
    assert_eq!(
        field(b"dev=", "dev").expect_err("empty field").detail,
        "invalid dev field"
    );
    assert_eq!(parse_number(b"+12", "dev", 100).expect("number"), 12);
    assert_eq!(
        parse_number(b"-1", "dev", 100).expect_err("negative").detail,
        "invalid dev number"
    );
    assert_eq!(decode_path(b"2f61").expect("path"), b"/a".to_vec());
    for (path, detail) in [
        (b"2f6".as_slice(), "path encoding has odd length"),
        (b"2F".as_slice(), "path is not hex"),
        (b"6161".as_slice(), "recorded path is not absolute"),
        (b"2f00".as_slice(), "recorded path is not absolute"),
    ] {
        assert_eq!(decode_path(path).expect_err("broken path").detail, detail);
    }
    assert_eq!(hex(b"/a"), "2f61");
    assert_eq!(hex_digit(b'f'), Some(15));
    assert_eq!(hex_digit(b'F'), None);
}

#[test]
fn unsupported_formats_are_shown_quoted() {
    assert_eq!(
        supported_format("sha1", &["sha1", "sha256"], "object").expect("format"),
        "sha1"
    );
    let error = supported_format("a\"b\n", &["sha1"], "object").expect_err("format");
    assert_eq!(error.code, "FORMAT_UNSUPPORTED");
    assert_eq!(error.detail, "unsupported object format \"a\\\"b\\n\"");
    assert_eq!(
        Error::io("A", "context", "words").to_text(),
        "A: context: words"
    );
}
