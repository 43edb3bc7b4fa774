use gitmirror::errors::GitServiceError;
use gitmirror::pkt::{finish_upload_pack, format_pkt_prefix};

#[test]
fn pkt_prefix_small_values_are_zero_padded() {
    assert_eq!(format_pkt_prefix(0), "0000");
    assert_eq!(format_pkt_prefix(4), "0004");
    assert_eq!(format_pkt_prefix(30), "001e");
    assert_eq!(format_pkt_prefix(255), "00ff");
    assert_eq!(format_pkt_prefix(4096), "1000");
}

#[test]
fn pkt_prefix_matches_formatter_for_large_values() {
    for n in [65535usize, 65536, 1048576, 123456789] {
        assert_eq!(format_pkt_prefix(n), format!("{:04x}", n));
    }
}

#[test]
fn upload_pack_output_gets_flush_appended() {
    let out = finish_upload_pack(true, b"0008ack\n".to_vec(), String::new()).unwrap();
    assert_eq!(out, b"0008ack\n0000".to_vec());
}

#[test]
fn upload_pack_output_with_flush_is_unchanged() {
    let out = finish_upload_pack(true, b"0008ack\n0000".to_vec(), String::new()).unwrap();
    assert_eq!(out, b"0008ack\n0000".to_vec());
}

#[test]
fn upload_pack_short_output_gets_flush_appended() {
    let out = finish_upload_pack(true, b"ab".to_vec(), String::new()).unwrap();
    assert_eq!(out, b"ab0000".to_vec());
}

#[test]
fn upload_pack_failure_carries_diagnostic() {
    let r = finish_upload_pack(false, b"junk".to_vec(), String::from("fatal: bad pack"));
    match r {
        Err(GitServiceError::SubprocessFailure(d)) => assert_eq!(d, "fatal: bad pack"),
        other => panic!("expected SubprocessFailure, got {:?}", other),
    }
}

#[test]
fn error_messages_render_their_payload() {
    assert_eq!(
        GitServiceError::NotFound(String::from("demo.git")).message(),
        "not found: demo.git"
    );
    assert_eq!(
        GitServiceError::BranchMismatch(String::from("master"), String::from("main")).message(),
        "branch mismatch: current master, requested main"
    );
    assert_eq!(
        GitServiceError::ManualMergeRequired.message(),
        "manual merge required: histories have diverged"
    );
    assert_eq!(
        GitServiceError::AlreadyExists(String::from("test_repos/x")).message(),
        "repository already exists: test_repos/x"
    );
}
