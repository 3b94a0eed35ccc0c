//! Reading the role claim out of a signed access token (`header.payload.signature`).
use vstd::prelude::*;
use vstd::string::StringSliceAdditionalSpecFns;
use vstd::utf8::encode_utf8;
use base64::engine::general_purpose;
use base64::Engine;
use crate::models::{LoginResponse, Session};
use crate::text::{chars_of, string_from_range};

verus! {

/// `i` is the first `.` of `s` and `j` the `.` after it, or the end of `s`.
pub open spec fn bounds_second_part(s: Seq<char>, i: int, j: int) -> bool {
    &&& 0 <= i < j <= s.len()
    &&& s[i] == '.'
    &&& forall|k: int| 0 <= k < i ==> s[k] != '.'
    &&& forall|k: int| i < k < j ==> s[k] != '.'
    &&& (j == s.len() || s[j] == '.')
}

/// The second of the `.`-separated parts of `s`, if `s` has a `.`.
pub open spec fn second_part(s: Seq<char>) -> Option<Seq<char>> {
    if exists|i: int, j: int| bounds_second_part(s, i, j) {
        let (i, j) = choose|i: int, j: int| bounds_second_part(s, i, j);
        Some(s.subrange(i + 1, j))
    } else {
        None
    }
}

/// Only one pair of positions bounds the second part.
pub proof fn second_part_bounds_are_unique(s: Seq<char>, i: int, j: int, i2: int, j2: int)
    requires
        bounds_second_part(s, i, j),
        bounds_second_part(s, i2, j2),
    ensures
        i == i2,
        j == j2,
{
    if i < i2 {
        assert(s[i] != '.');
    }
    if i2 < i {
        assert(s[i2] != '.');
    }
    if j < j2 {
        assert(s[j] != '.');
    }
    if j2 < j {
        assert(s[j2] != '.');
    }
}

/// The second `.`-separated part of `s`, as `s.split('.').nth(1)` gives it.
pub fn second_part_of(s: &str) -> (part: Option<String>)
    ensures
        match part {
            Some(p) => second_part(s@) == Some(p@),
            None => second_part(s@) is None,
        },
{
    let chars = chars_of(s);
    let n = chars.len();
    let mut i: usize = 0;
    while i < n && chars[i] != '.'
        invariant
            chars@ == s@,
            n == chars@.len(),
            i <= n,
            forall|k: int| 0 <= k < i ==> chars@[k] != '.',
        decreases n - i,
    {
        i = i + 1;
    }
    if i == n {
        assert(!exists|a: int, b: int| bounds_second_part(s@, a, b)) by {
            if exists|a: int, b: int| bounds_second_part(s@, a, b) {
                let (a, b) = choose|a: int, b: int| bounds_second_part(s@, a, b);
                assert(chars@[a] != '.');
            }
        }
        return None;
    }
    let mut j: usize = i + 1;
    while j < n && chars[j] != '.'
        invariant
            chars@ == s@,
            n == chars@.len(),
            i < j <= n,
            chars@[i as int] == '.',
            forall|k: int| 0 <= k < i ==> chars@[k] != '.',
            forall|k: int| i < k < j ==> chars@[k] != '.',
        decreases n - j,
    {
        j = j + 1;
    }
    assert(bounds_second_part(s@, i as int, j as int));
    proof {
        let (a, b) = choose|a: int, b: int| bounds_second_part(s@, a, b);
        second_part_bounds_are_unique(s@, i as int, j as int, a, b);
    }
    Some(string_from_range(&chars, i + 1, j))
}

/// What base64's `URL_SAFE_NO_PAD` engine decodes `text` to, or `None` where it
/// refuses `text`.
pub uninterp spec fn base64_url_no_pad_decode(text: Seq<u8>) -> Option<Seq<u8>>;

/// `Engine::decode` of base64's `general_purpose::URL_SAFE_NO_PAD`, applied to the
/// bytes of `text`. Stated: the outcome is the named decoding of those bytes, and
/// `None` exactly where the crate returns an error.
#[verifier::external_body]
fn decode_base64_url(text: &str) -> (bytes: Option<Vec<u8>>)
    ensures
        match bytes {
            Some(b) => base64_url_no_pad_decode(text.spec_bytes()) == Some(b@),
            None => base64_url_no_pad_decode(text.spec_bytes()) is None,
        },
{
    general_purpose::URL_SAFE_NO_PAD.decode(text).ok()
}

/// The string that member `key` of the JSON object in `document` holds, as serde_json
/// reads it; `None` where `document` is no JSON object, lacks `key`, or holds no
/// string there.
pub uninterp spec fn json_string_member(document: Seq<u8>, key: Seq<char>) -> Option<Seq<char>>;

/// `serde_json::from_slice::<serde_json::Value>` of `document`, then the member `key`
/// of the object it holds if that member is a string. Stated: the outcome is the
/// named lookup of `document` and `key`.
#[verifier::external_body]
fn read_json_string_member(document: &[u8], key: &str) -> (value: Option<String>)
    ensures
        match value {
            Some(v) => json_string_member(document@, key@) == Some(v@),
            None => json_string_member(document@, key@) is None,
        },
{
    match serde_json::from_slice::<serde_json::Value>(document) {
        Ok(serde_json::Value::Object(members)) => match members.get(key) {
            Some(serde_json::Value::String(text)) => Some(text.clone()),
            _ => None,
        },
        _ => None,
    }
}

/// The role written in the payload of `token`, if the payload decodes to a JSON
/// object with a string member `role`.
pub open spec fn role_claim(token: Seq<char>) -> Option<Seq<char>> {
    match second_part(token) {
        Some(payload) => match base64_url_no_pad_decode(encode_utf8(payload)) {
            Some(document) => json_string_member(document, "role"@),
            None => None,
        },
        None => None,
    }
}

/// The role a session gets: the role claim of its token, else `student`.
pub open spec fn role_or_student(claim: Option<Seq<char>>) -> Seq<char> {
    match claim {
        Some(role) => role,
        None => "student"@,
    }
}

/// The role written in the token, or `student` where none can be read.
pub fn role_or_default(claim: Option<String>) -> (role: String)
    ensures
        role@ == role_or_student(match claim {
            Some(c) => Some(c@),
            None => None,
        }),
{
    match claim {
        Some(role) => role,
        None => "student".to_owned(),
    }
}

/// The role claim carried by `token`, as the service signed it.
pub fn read_role_claim(token: &str) -> (claim: Option<String>)
    ensures
        match claim {
            Some(c) => role_claim(token@) == Some(c@),
            None => role_claim(token@) is None,
        },
{
    match second_part_of(token) {
        None => None,
        Some(payload) => match decode_base64_url(payload.as_str()) {
            None => None,
            Some(document) => read_json_string_member(document.as_slice(), "role"),
        },
    }
}

/// The role of the user that `token` was issued to; `student` where the token
/// carries none.
pub fn extract_role(token: &str) -> (role: String)
    ensures
        role@ == role_or_student(role_claim(token@)),
{
    role_or_default(read_role_claim(token))
}

/// The session opened by a successful login of `email`.
pub fn session_from_login(response: LoginResponse, email: String) -> (session: Session)
    ensures
        session.access_token == response.access_token,
        session.refresh_token == response.refresh_token,
        session.role@ == role_or_student(role_claim(response.access_token@)),
        session.email == email,
{
    let role = extract_role(response.access_token.as_str());
    Session {
        access_token: response.access_token,
        refresh_token: response.refresh_token,
        role: role,
        email: email,
    }
}

} // verus!
