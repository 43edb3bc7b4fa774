use base64::Engine;
use gitmirror::auth::{authorize_request, find_char, requires_auth, AuthDecision};
use gitmirror::text::{str_contains, str_ends_with, str_eq, str_starts_with};

#[test]
fn protected_paths_are_recognized() {
    assert!(requires_auth("/demo.git"));
    assert!(requires_auth("/demo.git/info/refs"));
    assert!(requires_auth("/demo/git-upload-pack"));
    assert!(requires_auth("/x/info/refs"));
    assert!(!requires_auth("/"));
    assert!(!requires_auth("/download"));
    assert!(!requires_auth("/demo/HEAD"));
}

#[test]
fn unprotected_path_passes_without_header() {
    assert_eq!(
        authorize_request("/hello", None, "sekret"),
        AuthDecision::Allow
    );
}

#[test]
fn protected_path_without_header_is_denied() {
    assert_eq!(
        authorize_request("/demo.git", None, "sekret"),
        AuthDecision::Deny
    );
}

#[test]
fn bearer_token_matching_is_allowed() {
    assert_eq!(
        authorize_request("/demo.git", Some("Bearer sekret"), "sekret"),
        AuthDecision::Allow
    );
}

#[test]
fn bearer_token_mismatch_is_denied() {
    assert_eq!(
        authorize_request("/demo.git", Some("Bearer wrong"), "sekret"),
        AuthDecision::Deny
    );
    assert_eq!(
        authorize_request("/demo.git", Some("Bearer "), "sekret"),
        AuthDecision::Deny
    );
}

#[test]
fn basic_credentials_with_matching_password_are_allowed() {
    let encoded = base64::engine::general_purpose::STANDARD.encode("anyuser:sekret");
    let header = format!("Basic {}", encoded);
    assert_eq!(
        authorize_request("/demo.git", Some(&header), "sekret"),
        AuthDecision::Allow
    );
}

#[test]
fn basic_credentials_with_wrong_password_are_denied() {
    let encoded = base64::engine::general_purpose::STANDARD.encode("anyuser:nope");
    let header = format!("Basic {}", encoded);
    assert_eq!(
        authorize_request("/demo.git", Some(&header), "sekret"),
        AuthDecision::Deny
    );
}

#[test]
fn basic_credentials_without_colon_are_denied() {
    let encoded = base64::engine::general_purpose::STANDARD.encode("nocolonhere");
    let header = format!("Basic {}", encoded);
    assert_eq!(
        authorize_request("/demo.git", Some(&header), "sekret"),
        AuthDecision::Deny
    );
}

#[test]
fn basic_credentials_with_empty_password_match_empty_token() {
    let encoded = base64::engine::general_purpose::STANDARD.encode("user:");
    let header = format!("Basic {}", encoded);
    assert_eq!(
        authorize_request("/demo.git", Some(&header), ""),
        AuthDecision::Allow
    );
}

#[test]
fn undecodable_basic_header_is_denied() {
    assert_eq!(
        authorize_request("/demo.git", Some("Basic !!!"), "sekret"),
        AuthDecision::Deny
    );
}

#[test]
fn unrecognized_header_scheme_is_denied() {
    assert_eq!(
        authorize_request("/demo.git", Some("Token sekret"), "sekret"),
        AuthDecision::Deny
    );
}

#[test]
fn find_char_reports_first_occurrence() {
    assert_eq!(find_char("a:b:c", ':'), Some(1));
    assert_eq!(find_char(":x", ':'), Some(0));
    assert_eq!(find_char("abc", ':'), None);
    assert_eq!(find_char("", ':'), None);
}

#[test]
fn string_scanning_basics() {
    assert!(str_contains("abcde", "cd"));
    assert!(str_contains("abc", ""));
    assert!(!str_contains("abc", "abcd"));
    assert!(str_contains("aaab", "aab"));
    assert!(str_starts_with("https://x", "https://"));
    assert!(!str_starts_with("http://x", "https://"));
    assert!(str_ends_with("demo.git", ".git"));
    assert!(!str_ends_with("git", ".git"));
    assert!(str_eq("same", "same"));
    assert!(!str_eq("same", "Same"));
    assert!(!str_eq("same", "sam"));
}
