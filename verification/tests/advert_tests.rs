use gitmirror::advert::{build_refs_advertisement, RefEntry};

const CAPS: &str = " HEAD\0multi_ack multi_ack_detailed thin-pack side-band side-band-64k ofs-delta shallow deepen-since deepen-not deepen-relative no-progress include-tag ofs-delta agent=git/2.40.0\n";

fn frame(line: &str) -> Vec<u8> {
    let mut v = format!("{:04x}", line.len() + 4).into_bytes();
    v.extend_from_slice(line.as_bytes());
    v
}

fn entry(name: &str, oid: Option<&str>, is_tag: bool) -> RefEntry {
    RefEntry {
        name: String::from(name),
        oid: oid.map(String::from),
        is_tag,
    }
}

#[test]
fn advertisement_for_two_branches() {
    let a = "a".repeat(40);
    let b = "b".repeat(40);
    let entries = vec![
        entry("refs/heads/main", Some(&a), false),
        entry("refs/heads/feature", Some(&b), false),
    ];
    let bytes = build_refs_advertisement(&a, &entries);

    let mut expected: Vec<u8> = Vec::new();
    expected.extend_from_slice(b"001e# service=git-upload-pack\n");
    expected.extend_from_slice(b"0000");
    expected.extend_from_slice(&frame(&format!("{}{}", a, CAPS)));
    expected.extend_from_slice(&frame(&format!("{} refs/heads/main\n", a)));
    expected.extend_from_slice(&frame(&format!("{} refs/heads/feature\n", b)));
    expected.extend_from_slice(b"0000");
    assert_eq!(bytes, expected);
}

#[test]
fn advertisement_with_no_references() {
    let c = "c".repeat(40);
    let bytes = build_refs_advertisement(&c, &Vec::new());
    let mut expected: Vec<u8> = Vec::new();
    expected.extend_from_slice(b"001e# service=git-upload-pack\n");
    expected.extend_from_slice(b"0000");
    expected.extend_from_slice(&frame(&format!("{}{}", c, CAPS)));
    expected.extend_from_slice(b"0000");
    assert_eq!(bytes, expected);
}

#[test]
fn tags_are_excluded_from_the_advertisement() {
    let a = "a".repeat(40);
    let b = "b".repeat(40);
    let without_tag = vec![entry("refs/heads/main", Some(&a), false)];
    let with_tag = vec![
        entry("refs/heads/main", Some(&a), false),
        entry("refs/tags/v1", Some(&b), true),
    ];
    assert_eq!(
        build_refs_advertisement(&a, &with_tag),
        build_refs_advertisement(&a, &without_tag)
    );
}

#[test]
fn unresolved_references_are_excluded() {
    let a = "a".repeat(40);
    let with_symbolic = vec![
        entry("refs/heads/main", Some(&a), false),
        entry("refs/other/sym", None, false),
    ];
    let without = vec![entry("refs/heads/main", Some(&a), false)];
    assert_eq!(
        build_refs_advertisement(&a, &with_symbolic),
        build_refs_advertisement(&a, &without)
    );
}

#[test]
fn head_line_comes_first_and_exactly_once() {
    let a = "a".repeat(40);
    let entries = vec![entry("refs/heads/main", Some(&a), false)];
    let bytes = build_refs_advertisement(&a, &entries);
    let text = String::from_utf8(bytes).unwrap();
    let after_header = text
        .strip_prefix("001e# service=git-upload-pack\n0000")
        .unwrap();
    let head_line = format!("{}{}", a, CAPS);
    let first_payload = &after_header[4..4 + head_line.len()];
    assert_eq!(first_payload, head_line);
    assert_eq!(text.matches(" HEAD\0").count(), 1);
    assert!(text.ends_with("0000"));
}
