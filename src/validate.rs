//! The response-acceptance pipeline: content-type gate, forbidden check, error-page verdict.
use crate::outcome::FetchError;
use crate::text::{contains, contains_seq};
use vstd::prelude::*;
use vstd::utf8::is_ascii_chars;

verus! {

/// What `str::to_lowercase` returns for a string holding characters beyond ASCII.
pub uninterp spec fn lower_of(s: Seq<char>) -> Seq<char>;

/// An ASCII upper-case letter mapped to its lower-case form; any other character kept.
pub open spec fn ascii_lower_char(c: char) -> char {
    if 'A' <= c && c <= 'Z' {
        ((c as u32) + 32) as char
    } else {
        c
    }
}

/// Every ASCII upper-case letter of `s` mapped to lower case.
pub open spec fn ascii_lower(s: Seq<char>) -> Seq<char> {
    s.map_values(|c: char| ascii_lower_char(c))
}

/// The lower-case form of a string.
pub open spec fn lowercase_spec(s: Seq<char>) -> Seq<char> {
    if is_ascii_chars(s) {
        ascii_lower(s)
    } else {
        lower_of(s)
    }
}

/// Relies on `str::to_lowercase`: on ASCII text it lower-cases the letters A-Z and keeps
/// every other character; beyond ASCII its result depends on the characters alone.
#[verifier::external_body]
fn to_lower(s: &str) -> (r: String)
    ensures
        is_ascii_chars(s@) ==> r@ == ascii_lower(s@),
        !is_ascii_chars(s@) ==> r@ == lower_of(s@),
{
    s.to_lowercase()
}

/// An already lower-cased content type names one of the accepted media types.
pub open spec fn allowed_lowered(ct: Seq<char>) -> bool {
    ||| contains_seq(ct, "text/html"@)
    ||| contains_seq(ct, "application/xhtml+xml"@)
    ||| contains_seq(ct, "application/xhtml"@)
    ||| contains_seq(ct, "text/plain"@)
}

/// A declared content type is accepted: its lower-case form holds an accepted media type.
pub open spec fn content_type_accepted(ct: Seq<char>) -> bool {
    allowed_lowered(lowercase_spec(ct))
}

/// The response is forbidden: status 403, or a body that carries "403 Forbidden".
pub open spec fn forbidden_spec(status: u16, body: Seq<char>) -> bool {
    status == 403 || contains_seq(body, "403 Forbidden"@)
}

/// Whether an already lower-cased content type holds one of the accepted media types.
pub fn is_allowed_content_type(lowered: &str) -> (r: bool)
    ensures
        r == allowed_lowered(lowered@),
{
    contains(lowered, "text/html") || contains(lowered, "application/xhtml+xml") || contains(
        lowered,
        "application/xhtml",
    ) || contains(lowered, "text/plain")
}

/// The content-type gate, applied before the body is downloaded. No header passes;
/// a header whose lower-case form holds no accepted media type is skipped, carrying
/// that lower-case form.
pub fn check_content_type(content_type: Option<&str>) -> (r: Result<(), FetchError>)
    ensures
        match content_type {
            None => r is Ok,
            Some(ct) => if content_type_accepted(ct@) {
                r is Ok
            } else {
                r matches Err(FetchError::Skipped(t)) && t@ == lowercase_spec(ct@)
            },
        },
{
    match content_type {
        None => Ok(()),
        Some(ct) => {
            let lowered = to_lower(ct);
            if is_allowed_content_type(lowered.as_str()) {
                Ok(())
            } else {
                Err(FetchError::Skipped(lowered))
            }
        },
    }
}

/// Whether a response is forbidden by its status or by the marker in its body.
pub fn is_forbidden(status: u16, body: &str) -> (r: bool)
    ensures
        r == forbidden_spec(status, body@),
{
    status == 403 || contains(body, "403 Forbidden")
}

/// The verdict on a downloaded body: forbidden first, then the error-page verdict of the
/// classifier, else the body itself.
pub fn validate_body(status: u16, body: String, is_error_page: bool) -> (r: Result<String, FetchError>)
    ensures
        forbidden_spec(status, body@) ==> r == Err::<String, FetchError>(FetchError::Forbidden),
        !forbidden_spec(status, body@) && is_error_page ==> r == Err::<String, FetchError>(
            FetchError::BlockedByErrorPage,
        ),
        !forbidden_spec(status, body@) && !is_error_page ==> (r matches Ok(b) && b@ == body@),
{
    if is_forbidden(status, body.as_str()) {
        Err(FetchError::Forbidden)
    } else if is_error_page {
        Err(FetchError::BlockedByErrorPage)
    } else {
        Ok(body)
    }
}

/// A status of 403 makes a response forbidden whatever its body, and so does a body that
/// carries "403 Forbidden" verbatim whatever the status.
pub proof fn lemma_forbidden_responses(status: u16, body: Seq<char>, pre: Seq<char>, post: Seq<char>)
    ensures
        forbidden_spec(403, body),
        forbidden_spec(status, pre + "403 Forbidden"@ + post),
{
    let m = "403 Forbidden"@;
    let s = pre + m + post;
    assert(s.subrange(pre.len() as int, (pre.len() + m.len()) as int) =~= m);
    assert(crate::text::occurs_at(s, m, pre.len() as int));
}

/// Content-type matching ignores case: two ASCII content types that agree up to the case
/// of their letters are both accepted or both rejected.
pub proof fn lemma_content_type_case_insensitive(a: Seq<char>, b: Seq<char>)
    requires
        is_ascii_chars(a),
        is_ascii_chars(b),
        ascii_lower(a) == ascii_lower(b),
    ensures
        content_type_accepted(a) == content_type_accepted(b),
{
}

/// Content-type matching is by substring: a content type whose lower-case form holds an
/// accepted media type anywhere is accepted, whatever surrounds it.
pub proof fn lemma_content_type_substring(ct: Seq<char>, pre: Seq<char>, post: Seq<char>)
    requires
        ct == "text/html"@ || ct == "application/xhtml+xml"@ || ct == "application/xhtml"@
            || ct == "text/plain"@,
    ensures
        allowed_lowered(pre + ct + post),
{
    let s = pre + ct + post;
    assert(s.subrange(pre.len() as int, (pre.len() + ct.len()) as int) =~= ct);
    assert(crate::text::occurs_at(s, ct, pre.len() as int));
}

} // verus!
