use vstd::prelude::*;

use headers::Header;

use crate::validation::trim_start_chars;

verus! {

/// A character that an `Authorization` header value may hold and still read as text.
pub open spec fn is_visible_ascii(c: char) -> bool {
    (' ' <= c && c <= '~') || c == '\t'
}

/// The six characters "Bearer", in any mix of ASCII case.
pub open spec fn is_bearer_scheme(s: Seq<char>) -> bool {
    &&& s.len() == 6
    &&& (s[0] == 'B' || s[0] == 'b')
    &&& (s[1] == 'E' || s[1] == 'e')
    &&& (s[2] == 'A' || s[2] == 'a')
    &&& (s[3] == 'R' || s[3] == 'r')
    &&& (s[4] == 'E' || s[4] == 'e')
    &&& (s[5] == 'R' || s[5] == 'r')
}

/// The credential of an `Authorization: Bearer <token>` header value: the value
/// is visible ASCII, starts with the scheme and one space, and the credential is
/// what follows with its leading white space removed.
pub open spec fn bearer_credential(h: Seq<char>) -> Option<Seq<char>> {
    if h.len() > 6 && h[6] == ' ' && is_bearer_scheme(h.subrange(0, 6)) && (forall|i: int|
        0 <= i < h.len() ==> is_visible_ascii(#[trigger] h[i])) {
        Some(trim_start_chars(h.subrange(7, h.len() as int)))
    } else {
        None
    }
}

/// Relies on http's `HeaderValue::from_str` and headers' `Authorization::<Bearer>`
/// (`Header::decode`, `Authorization::token`): a value of visible ASCII that
/// starts with "Bearer " in any case gives the rest, without leading white space.
#[verifier::external_body]
pub(crate) fn bearer_token(header_value: &str) -> (r: Option<String>)
    ensures
        r is Some <==> bearer_credential(header_value@) is Some,
        r is Some ==> r->Some_0@ == bearer_credential(header_value@)->Some_0,
{
    let value = headers::HeaderValue::from_str(header_value).ok()?;
    let auth = headers::Authorization::<headers::authorization::Bearer>::decode(
        &mut std::iter::once(&value),
    ).ok()?;
    Some(auth.token().to_string())
}

} // verus!
