//! The inbound-request authorization decision: which paths are protected,
//! and whether a supplied `Authorization` header carries the valid token as
//! a bearer token or as the password of a basic credential pair.
use vstd::prelude::*;
use vstd::string::StrSliceExecFns;
use vstd::utf8::{decode_utf8, valid_utf8};
use crate::text::{contains_seq, ends_with_seq, starts_with_seq, str_contains, str_ends_with,
    str_eq, str_starts_with};

verus! {

/// Only the fetch-protocol endpoints are protected.
pub open spec fn requires_auth_spec(path: Seq<char>) -> bool {
    ends_with_seq(path, ".git"@) || contains_seq(path, "/info/refs"@) || contains_seq(
        path,
        "/git-upload-pack"@,
    )
}

/// Whether the request path is a protected fetch-protocol endpoint.
pub fn requires_auth(path: &str) -> (r: bool)
    ensures
        r == requires_auth_spec(path@),
{
    str_ends_with(path, ".git") || str_contains(path, "/info/refs") || str_contains(
        path,
        "/git-upload-pack",
    )
}

/// The position of the first occurrence of `c` in `s`.
pub open spec fn char_index(s: Seq<char>, c: char) -> Option<int>
    decreases s.len(),
{
    if s.len() == 0 {
        Option::None
    } else if s[0] == c {
        Option::Some(0)
    } else {
        match char_index(s.drop_first(), c) {
            Option::Some(i) => Option::Some(i + 1),
            Option::None => Option::None,
        }
    }
}

/// A position before the first occurrence holds another character; the
/// first occurrence holds `c`.
proof fn lemma_char_index_first(s: Seq<char>, c: char, i: int)
    requires
        0 <= i < s.len(),
        s[i] == c,
        forall|k: int| 0 <= k < i ==> s[k] != c,
    ensures
        char_index(s, c) == Option::<int>::Some(i),
    decreases i,
{
    if i > 0 {
        lemma_char_index_first(s.drop_first(), c, i - 1);
    }
}

/// A string without `c` has no first occurrence of it.
proof fn lemma_char_index_none(s: Seq<char>, c: char)
    requires
        forall|k: int| 0 <= k < s.len() ==> s[k] != c,
    ensures
        char_index(s, c) is None,
    decreases s.len(),
{
    if s.len() > 0 {
        lemma_char_index_none(s.drop_first(), c);
    }
}

/// Scans for the first occurrence of `c` in `s`.
pub fn find_char(s: &str, c: char) -> (r: Option<usize>)
    ensures
        match r {
            Option::Some(i) => i < s@.len() && char_index(s@, c) == Option::<int>::Some(i as int),
            Option::None => char_index(s@, c) is None,
        },
{
    let n = s.unicode_len();
    let mut i: usize = 0;
    while i < n
        invariant
            n == s@.len(),
            i <= n,
            forall|k: int| 0 <= k < i ==> s@[k] != c,
        decreases n - i,
    {
        if s.get_char(i) == c {
            proof {
                lemma_char_index_first(s@, c, i as int);
            }
            return Some(i);
        }
        i = i + 1;
    }
    proof {
        lemma_char_index_none(s@, c);
    }
    None
}

/// What a standard-alphabet base64 decode of `s` yields, if it decodes.
pub uninterp spec fn base64_decoding(s: Seq<char>) -> Option<Seq<u8>>;

/// Relies on base64's standard-alphabet engine: the decode is a function of
/// the input characters alone.
#[verifier::external_body]
fn base64_decode(s: &str) -> (r: Option<Vec<u8>>)
    ensures
        r is Some <==> base64_decoding(s@) is Some,
        r matches Some(v) ==> base64_decoding(s@) == Option::<Seq<u8>>::Some(v@),
{
    base64::Engine::decode(&base64::engine::general_purpose::STANDARD, s).ok()
}

/// Relies on String::from_utf8: succeeds exactly on valid UTF-8 input, and
/// the characters of the result are the decoding of the bytes.
#[verifier::external_body]
fn string_from_utf8(bytes: Vec<u8>) -> (r: Option<String>)
    ensures
        r is Some <==> valid_utf8(bytes@),
        r matches Some(s) ==> s@ == decode_utf8(bytes@),
{
    String::from_utf8(bytes).ok()
}

/// The password of a `username:password` credential pair: everything after
/// the first colon, if there is one.
pub open spec fn password_of(creds: Seq<char>) -> Option<Seq<char>> {
    match char_index(creds, ':') {
        Option::Some(i) => Option::Some(creds.skip(i + 1)),
        Option::None => Option::None,
    }
}

/// A bearer header authorizes when everything after `"Bearer "` is the
/// valid token.
pub open spec fn bearer_authorizes(header: Seq<char>, token: Seq<char>) -> bool {
    starts_with_seq(header, "Bearer "@) && header.skip(7) == token
}

/// A basic header authorizes when the text after `"Basic "` decodes from
/// base64 to valid text of the form `username:password` whose password is
/// the valid token.
pub open spec fn basic_authorizes(header: Seq<char>, token: Seq<char>) -> bool {
    starts_with_seq(header, "Basic "@) && match base64_decoding(header.skip(6)) {
        Option::Some(bytes) => valid_utf8(bytes) && match password_of(decode_utf8(bytes)) {
            Option::Some(p) => p == token,
            Option::None => false,
        },
        Option::None => false,
    }
}

/// Whether an `Authorization` header value carries the valid token: a
/// bearer header is checked as such (with no basic fallback), any other
/// header only as a basic credential pair.
pub open spec fn header_authorizes(header: Seq<char>, token: Seq<char>) -> bool {
    if starts_with_seq(header, "Bearer "@) {
        bearer_authorizes(header, token)
    } else {
        basic_authorizes(header, token)
    }
}

/// The outcome of the authorization decision.
#[derive(PartialEq, Eq, Structural, Clone, Copy, Debug)]
pub enum AuthDecision {
    Allow,
    Deny,
}

/// Decides a request: unprotected paths always pass; a protected path
/// passes exactly when the supplied header authorizes against the valid
/// token.
pub fn authorize_request(path: &str, auth_header: Option<&str>, valid_token: &str) -> (r:
    AuthDecision)
    ensures
        r == AuthDecision::Allow <==> (!requires_auth_spec(path@) || (match auth_header {
            Option::Some(h) => header_authorizes(h@, valid_token@),
            Option::None => false,
        })),
{
    if !requires_auth(path) {
        return AuthDecision::Allow;
    }
    let header = match auth_header {
        Option::Some(h) => h,
        Option::None => {
            return AuthDecision::Deny;
        },
    };
    let n = header.unicode_len();
    if str_starts_with(header, "Bearer ") {
        proof {
            reveal_strlit("Bearer ");
        }
        let tail = header.substring_char(7, n);
        proof {
            assert(tail@ =~= header@.skip(7));
        }
        if str_eq(tail, valid_token) {
            return AuthDecision::Allow;
        }
        return AuthDecision::Deny;
    }
    if str_starts_with(header, "Basic ") {
        proof {
            reveal_strlit("Basic ");
        }
        let tail = header.substring_char(6, n);
        proof {
            assert(tail@ =~= header@.skip(6));
        }
        let decoded = match base64_decode(tail) {
            Option::Some(bytes) => bytes,
            Option::None => {
                return AuthDecision::Deny;
            },
        };
        let creds = match string_from_utf8(decoded) {
            Option::Some(s) => s,
            Option::None => {
                return AuthDecision::Deny;
            },
        };
        let m = creds.as_str().unicode_len();
        let colon = match find_char(creds.as_str(), ':') {
            Option::Some(i) => i,
            Option::None => {
                return AuthDecision::Deny;
            },
        };
        let password = creds.as_str().substring_char(colon + 1, m);
        proof {
            assert(password@ =~= creds@.skip(colon + 1));
        }
        if str_eq(password, valid_token) {
            return AuthDecision::Allow;
        }
        return AuthDecision::Deny;
    }
    AuthDecision::Deny
}

} // verus!
