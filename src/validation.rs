use vstd::prelude::*;
use vstd::utf8::encode_utf8;

use crate::error::{message_of, ApiError};

verus! {

broadcast use vstd::slice::group_slice_axioms;

/// The characters of the Unicode `White_Space` property, which `char::is_whitespace`
/// and `str::trim` go by.
pub open spec fn is_white_space(c: char) -> bool {
    ('\u{9}' <= c && c <= '\u{d}') || c == ' ' || c == '\u{85}' || c == '\u{a0}'
        || c == '\u{1680}' || ('\u{2000}' <= c && c <= '\u{200a}') || c == '\u{2028}'
        || c == '\u{2029}' || c == '\u{202f}' || c == '\u{205f}' || c == '\u{3000}'
}

pub open spec fn trim_start_chars(s: Seq<char>) -> Seq<char>
    decreases s.len(),
{
    if s.len() > 0 && is_white_space(s[0]) {
        trim_start_chars(s.drop_first())
    } else {
        s
    }
}

pub open spec fn trim_end_chars(s: Seq<char>) -> Seq<char>
    decreases s.len(),
{
    if s.len() > 0 && is_white_space(s.last()) {
        trim_end_chars(s.drop_last())
    } else {
        s
    }
}

/// `s` without its leading and trailing white space.
pub open spec fn trimmed(s: Seq<char>) -> Seq<char> {
    trim_end_chars(trim_start_chars(s))
}

/// Length in bytes of the UTF-8 encoding of `s`, which is what `str::len` counts.
pub open spec fn byte_len(s: Seq<char>) -> nat {
    encode_utf8(s).len()
}

proof fn lemma_trim_start_head(s: Seq<char>)
    ensures
        trim_start_chars(s).len() == 0 || !is_white_space(trim_start_chars(s)[0]),
    decreases s.len(),
{
    if s.len() > 0 && is_white_space(s[0]) {
        lemma_trim_start_head(s.drop_first());
    }
}

proof fn lemma_trim_end_prefix(s: Seq<char>)
    ensures
        trim_end_chars(s).len() <= s.len(),
        trim_end_chars(s) == s.subrange(0, trim_end_chars(s).len() as int),
        trim_end_chars(s).len() == 0 || !is_white_space(trim_end_chars(s).last()),
    decreases s.len(),
{
    if s.len() > 0 && is_white_space(s.last()) {
        lemma_trim_end_prefix(s.drop_last());
        let k = trim_end_chars(s).len() as int;
        assert(s.drop_last().subrange(0, k) == s.subrange(0, k));
    } else {
        assert(s.subrange(0, s.len() as int) == s);
    }
}

/// Trimming twice is trimming once.
pub proof fn lemma_trimmed_idempotent(s: Seq<char>)
    ensures
        trimmed(trimmed(s)) == trimmed(s),
{
    let a = trim_start_chars(s);
    lemma_trim_start_head(s);
    let u = trim_end_chars(a);
    lemma_trim_end_prefix(a);
    if u.len() > 0 {
        assert(u[0] == a[0]);
    }
    assert(trim_start_chars(u) == u);
    assert(trim_end_chars(u) == u);
}

pub const MIN_USERNAME_LEN: usize = 3;
pub const MIN_PASSWORD_LEN: usize = 8;

/// Relies on `str::trim`: leading and trailing `White_Space` characters removed.
#[verifier::external_body]
pub(crate) fn trim(s: &str) -> (r: &str)
    ensures
        r@ == trimmed(s@),
{
    s.trim()
}

/// A username is acceptable when, trimmed, it is at least three bytes long.
pub fn validate_username(username: &str) -> (r: Result<(), ApiError>)
    ensures
        r is Ok <==> byte_len(trimmed(username@)) >= MIN_USERNAME_LEN,
        r is Err ==> r->Err_0 is ValidationError,
        trimmed(username@).len() == 0 ==> r is Err && message_of(r->Err_0)
            == "username is required"@,
        trimmed(username@).len() > 0 && r is Err ==> message_of(r->Err_0)
            == "username must be at least 3 characters"@,
{
    let u = trim(username);
    if u.is_empty() {
        return Err(ApiError::ValidationError("username is required"));
    }
    if u.as_bytes().len() < MIN_USERNAME_LEN {
        return Err(ApiError::ValidationError("username must be at least 3 characters"));
    }
    Ok(())
}

/// A display name is acceptable when it is not blank.
pub fn validate_display_name(display_name: &str) -> (r: Result<(), ApiError>)
    ensures
        r is Ok <==> trimmed(display_name@).len() > 0,
        r is Err ==> r->Err_0 is ValidationError && message_of(r->Err_0)
            == "display_name is required"@,
{
    let d = trim(display_name);
    if d.is_empty() {
        return Err(ApiError::ValidationError("display_name is required"));
    }
    Ok(())
}

/// A password for a new account: at least eight bytes once trimmed.
pub fn validate_password(pw: &str) -> (r: Result<(), ApiError>)
    ensures
        r is Ok <==> byte_len(trimmed(pw@)) >= MIN_PASSWORD_LEN,
        r is Err ==> r->Err_0 is ValidationError && message_of(r->Err_0)
            == "password must be at least 8 characters"@,
{
    let p = trim(pw);
    if p.as_bytes().len() < MIN_PASSWORD_LEN {
        return Err(ApiError::ValidationError("password must be at least 8 characters"));
    }
    Ok(())
}

/// The strength rule for a changed or reset password: at least eight bytes once trimmed.
pub fn validate_new_password(pw: &str) -> (r: Result<(), ApiError>)
    ensures
        r is Ok <==> byte_len(trimmed(pw@)) >= MIN_PASSWORD_LEN,
        r is Err ==> r->Err_0 is ValidationError && message_of(r->Err_0)
            == "new_password must be at least 8 characters"@,
{
    let p = trim(pw);
    if p.as_bytes().len() < MIN_PASSWORD_LEN {
        return Err(ApiError::ValidationError("new_password must be at least 8 characters"));
    }
    Ok(())
}

} // verus!
