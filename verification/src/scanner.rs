//! The header scanner: locating the session cookie among the `Set-Cookie`
//! values of a response and extracting the token.
//!
//! The scanner is a pure function over the raw header values, taken in the
//! order the response carried them. Each value is first decoded as header
//! text; an undecodable value aborts the whole scan (a known sharp edge:
//! later valid cookies are not reached). A decoded value matches when its
//! text begins with the literal prefix `user_session=user_session_`; the
//! first match wins.

use vstd::prelude::*;
use vstd::utf8::{encode_utf8, is_leading_byte_width_1,
    partial_valid_utf8, partial_valid_utf8_extend_ascii_block, valid_utf8};

use crate::errors::{LoginError, LoginResult};
use crate::session::{secret_chars, SecretText, UserSession};

verus! {

/// True of the bytes a header value may hold and still decode as text:
/// visible ASCII, space, or horizontal tab.
pub open spec fn is_header_text_byte(b: u8) -> bool {
    (32 <= b && b < 127) || b == 9
}

/// True when every byte of the value decodes as header text.
pub open spec fn is_header_text(v: Seq<u8>) -> bool {
    forall|i: int| 0 <= i < v.len() ==> is_header_text_byte(#[trigger] v[i])
}

/// The literal prefix that marks a session cookie.
pub open spec fn session_prefix() -> Seq<char> {
    "user_session=user_session_"@
}

/// The session-cookie prefix, as the bytes a header value carries.
pub open spec fn session_prefix_bytes() -> Seq<u8> {
    encode_utf8(session_prefix())
}

/// True when the value's text begins with the session-cookie prefix. Only
/// the start of the value is constrained: cookie attributes may follow.
pub open spec fn has_session_prefix(v: Seq<u8>) -> bool {
    v.len() >= session_prefix_bytes().len() && v.subrange(
        0,
        session_prefix_bytes().len() as int,
    ) == session_prefix_bytes()
}

/// What the scan of the given `Set-Cookie` values yields: the bytes of the
/// first value whose text begins with the session-cookie prefix, or the
/// failure met first — an undecodable value aborts the scan, and exhausting
/// all values without a match means the cookie is absent.
pub open spec fn scan_spec(vals: Seq<Seq<u8>>) -> Result<Seq<u8>, LoginError>
    decreases vals.len(),
{
    if vals.len() == 0 {
        Err(LoginError::UserSessionNotFound)
    } else if !is_header_text(vals[0]) {
        Err(LoginError::HeaderParseError)
    } else if has_session_prefix(vals[0]) {
        Ok(vals[0])
    } else {
        scan_spec(vals.drop_first())
    }
}

/// How a scanner's return value relates to the scan of the values it was
/// given: an error is the scan's own error, and a session carries exactly
/// the text of the value the scan found.
pub open spec fn scan_result_matches(r: LoginResult, vals: Seq<Seq<u8>>) -> bool {
    match r {
        Ok(session) => scan_spec(vals) == Ok::<Seq<u8>, LoginError>(
            encode_utf8(secret_chars(session.user_session)),
        ),
        Err(e) => scan_spec(vals) == Err::<Seq<u8>, LoginError>(e),
    }
}

/// When every value decodes as header text and at least one begins with the
/// session-cookie prefix, the scan succeeds, and the token is exactly the
/// earliest such value: no value before it matches.
pub proof fn lemma_scan_success_on_match(vals: Seq<Seq<u8>>)
    requires
        forall|j: int| 0 <= j < vals.len() ==> is_header_text(#[trigger] vals[j]),
        exists|j: int| 0 <= j < vals.len() && has_session_prefix(#[trigger] vals[j]),
    ensures
        exists|i: int|
            {
                &&& 0 <= i < vals.len()
                &&& has_session_prefix(#[trigger] vals[i])
                &&& forall|j: int| 0 <= j < i ==> !has_session_prefix(#[trigger] vals[j])
                &&& scan_spec(vals) == Ok::<Seq<u8>, LoginError>(vals[i])
            },
    decreases vals.len(),
{
    if has_session_prefix(vals[0]) {
        assert({
            &&& 0 <= 0 < vals.len()
            &&& has_session_prefix(vals[0])
            &&& forall|j: int| 0 <= j < 0 ==> !has_session_prefix(#[trigger] vals[j])
            &&& scan_spec(vals) == Ok::<Seq<u8>, LoginError>(vals[0])
        });
    } else {
        let rest = vals.drop_first();
        assert forall|j: int| 0 <= j < rest.len() implies is_header_text(#[trigger] rest[j]) by {
            assert(rest[j] == vals[j + 1]);
        }
        let w = choose|j: int| 0 <= j < vals.len() && has_session_prefix(#[trigger] vals[j]);
        assert(rest[w - 1] == vals[w]);
        lemma_scan_success_on_match(rest);
        let i = choose|i: int|
            {
                &&& 0 <= i < rest.len()
                &&& has_session_prefix(#[trigger] rest[i])
                &&& forall|j: int| 0 <= j < i ==> !has_session_prefix(#[trigger] rest[j])
                &&& scan_spec(rest) == Ok::<Seq<u8>, LoginError>(rest[i])
            };
        assert(vals[i + 1] == rest[i]);
        assert forall|j: int| 0 <= j < i + 1 implies !has_session_prefix(#[trigger] vals[j]) by {
            if j > 0 {
                assert(rest[j - 1] == vals[j]);
            }
        }
        assert({
            &&& 0 <= i + 1 < vals.len()
            &&& has_session_prefix(vals[i + 1])
            &&& forall|j: int| 0 <= j < i + 1 ==> !has_session_prefix(#[trigger] vals[j])
            &&& scan_spec(vals) == Ok::<Seq<u8>, LoginError>(vals[i + 1])
        });
    }
}

/// The first match wins: when the value at `i` decodes as header text and
/// begins with the session-cookie prefix, and every earlier value decodes
/// but does not match, the scan returns exactly the value at `i` — however
/// many later values also match, and whatever else they hold.
pub proof fn lemma_scan_first_match_wins(vals: Seq<Seq<u8>>, i: int)
    requires
        0 <= i < vals.len(),
        is_header_text(vals[i]),
        has_session_prefix(vals[i]),
        forall|j: int| 0 <= j < i ==> is_header_text(#[trigger] vals[j]) && !has_session_prefix(
            vals[j],
        ),
    ensures
        scan_spec(vals) == Ok::<Seq<u8>, LoginError>(vals[i]),
    decreases i,
{
    if i > 0 {
        let rest = vals.drop_first();
        assert forall|j: int| 0 <= j < i - 1 implies is_header_text(#[trigger] rest[j])
            && !has_session_prefix(rest[j]) by {
            assert(rest[j] == vals[j + 1]);
        }
        assert(rest[i - 1] == vals[i]);
        lemma_scan_first_match_wins(rest, i - 1);
    }
}

/// When every value decodes as header text and none begins with the
/// session-cookie prefix — an empty collection included — the scan reports
/// that the session cookie was not found.
pub proof fn lemma_scan_not_found(vals: Seq<Seq<u8>>)
    requires
        forall|j: int| 0 <= j < vals.len() ==> is_header_text(#[trigger] vals[j])
            && !has_session_prefix(vals[j]),
    ensures
        scan_spec(vals) == Err::<Seq<u8>, LoginError>(LoginError::UserSessionNotFound),
    decreases vals.len(),
{
    if vals.len() > 0 {
        let rest = vals.drop_first();
        assert forall|j: int| 0 <= j < rest.len() implies is_header_text(#[trigger] rest[j])
            && !has_session_prefix(rest[j]) by {
            assert(rest[j] == vals[j + 1]);
        }
        lemma_scan_not_found(rest);
    }
}

/// A value that does not decode as header text aborts the scan: when every
/// value before `i` decodes and does not match, and the value at `i` is
/// undecodable, the scan reports a parse failure — even when a later value
/// would have matched.
pub proof fn lemma_scan_aborts_on_malformed(vals: Seq<Seq<u8>>, i: int)
    requires
        0 <= i < vals.len(),
        !is_header_text(vals[i]),
        forall|j: int| 0 <= j < i ==> is_header_text(#[trigger] vals[j]) && !has_session_prefix(
            vals[j],
        ),
    ensures
        scan_spec(vals) == Err::<Seq<u8>, LoginError>(LoginError::HeaderParseError),
    decreases i,
{
    if i > 0 {
        let rest = vals.drop_first();
        assert forall|j: int| 0 <= j < i - 1 implies is_header_text(#[trigger] rest[j])
            && !has_session_prefix(rest[j]) by {
            assert(rest[j] == vals[j + 1]);
        }
        assert(rest[i - 1] == vals[i]);
        lemma_scan_aborts_on_malformed(rest, i - 1);
    }
}

/// A value the scan yields always decodes as header text and begins with
/// the session-cookie prefix: the one structural guarantee a session token
/// carries.
pub proof fn lemma_scan_token_has_prefix(vals: Seq<Seq<u8>>)
    requires
        scan_spec(vals) is Ok,
    ensures
        is_header_text(scan_spec(vals)->Ok_0),
        has_session_prefix(scan_spec(vals)->Ok_0),
    decreases vals.len(),
{
    if vals.len() > 0 && is_header_text(vals[0]) && !has_session_prefix(vals[0]) {
        lemma_scan_token_has_prefix(vals.drop_first());
    }
}

/// Header text is ASCII, so it is valid UTF-8.
pub proof fn lemma_header_text_valid_utf8(v: Seq<u8>)
    requires
        is_header_text(v),
    ensures
        valid_utf8(v),
{
    assert forall|i: int| 0 <= i < v.len() implies is_leading_byte_width_1(#[trigger] v[i]) by {
        assert(is_header_text_byte(v[i]));
    }
    assert(v.subrange(0, 0) =~= Seq::<u8>::empty());
    assert(valid_utf8(v.subrange(0, 0)));
    assert(partial_valid_utf8(v, 0));
    partial_valid_utf8_extend_ascii_block(v, 0, v.len() as int);
    assert(v.subrange(0, v.len() as int) =~= v);
}

/// The session-cookie prefix as a vector of bytes.
fn session_prefix_vec() -> (r: Vec<u8>)
    ensures
        r@ == session_prefix_bytes(),
{
    let s: &str = "user_session=user_session_";
    s.as_bytes_vec()
}

/// Whether every byte of the value decodes as header text.
fn is_text_value(v: &Vec<u8>) -> (r: bool)
    ensures
        r == is_header_text(v@),
{
    let mut j: usize = 0;
    while j < v.len()
        invariant
            j <= v@.len(),
            forall|k: int| 0 <= k < j ==> is_header_text_byte(#[trigger] v@[k]),
        decreases v@.len() - j,
    {
        let b = v[j];
        if !((32 <= b && b < 127) || b == 9) {
            assert(!is_header_text_byte(v@[j as int]));
            return false;
        }
        j += 1;
    }
    true
}

/// Whether the value begins with the session-cookie prefix.
fn has_prefix_value(v: &Vec<u8>) -> (r: bool)
    ensures
        r == has_session_prefix(v@),
{
    let p = session_prefix_vec();
    if v.len() < p.len() {
        return false;
    }
    let mut j: usize = 0;
    while j < p.len()
        invariant
            j <= p@.len(),
            p@ == session_prefix_bytes(),
            v@.len() >= p@.len(),
            forall|k: int| 0 <= k < j ==> v@[k] == p@[k],
        decreases p@.len() - j,
    {
        if v[j] != p[j] {
            assert(!has_session_prefix(v@)) by {
                if has_session_prefix(v@) {
                    assert(v@.subrange(0, p@.len() as int)[j as int] == p@[j as int]);
                }
            }
            return false;
        }
        j += 1;
    }
    assert(v@.subrange(0, p@.len() as int) =~= p@);
    true
}

/// Relies on std's `String::from_utf8`: it returns the string whose UTF-8
/// encoding is the given bytes, and fails exactly on bytes that are not
/// valid UTF-8.
#[verifier::external_body]
fn string_from_utf8_bytes(v: &Vec<u8>) -> (r: Option<String>)
    ensures
        r is Some <==> valid_utf8(v@),
        (r matches Some(s) ==> encode_utf8(s@) == v@),
{
    String::from_utf8(v.clone()).ok()
}

/// Scan the `Set-Cookie` values of a response, in the order they appeared,
/// and extract the session token from the first value whose text begins
/// with the session-cookie prefix.
///
/// An undecodable value aborts the scan with [`LoginError::HeaderParseError`]
/// even when a later value would match; when every value decodes and none
/// matches, the result is [`LoginError::UserSessionNotFound`].
pub fn extract_session(values: &Vec<Vec<u8>>) -> (r: LoginResult)
    ensures
        scan_result_matches(r, values.deep_view()),
{
    let ghost dv = values.deep_view();
    proof {
        assert(dv.skip(0) =~= dv);
    }
    let mut i: usize = 0;
    while i < values.len()
        invariant
            dv == values.deep_view(),
            dv.len() == values@.len(),
            i <= values@.len(),
            scan_spec(dv) == scan_spec(dv.skip(i as int)),
        decreases values@.len() - i,
    {
        let v = &values[i];
        assert(dv[i as int] =~= v@);
        assert(dv.skip(i as int)[0] == dv[i as int]);
        if !is_text_value(v) {
            assert(scan_spec(dv.skip(i as int)) == Err::<Seq<u8>, LoginError>(
                LoginError::HeaderParseError,
            ));
            return Err(LoginError::HeaderParseError);
        }
        if has_prefix_value(v) {
            proof {
                lemma_header_text_valid_utf8(v@);
            }
            let decoded = string_from_utf8_bytes(v);
            match decoded {
                Some(text) => {
                    let session = UserSession { user_session: SecretText::new(text) };
                    assert(scan_spec(dv.skip(i as int)) == Ok::<Seq<u8>, LoginError>(v@));
                    return Ok(session);
                },
                None => {
                    assert(false);
                    return Err(LoginError::HeaderParseError);
                },
            }
        }
        proof {
            assert(dv.skip(i as int).drop_first() =~= dv.skip(i as int + 1));
        }
        i += 1;
    }
    assert(dv.skip(i as int).len() == 0);
    Err(LoginError::UserSessionNotFound)
}

} // verus!
