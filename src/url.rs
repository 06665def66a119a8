//! Normalization of a caller's URL into a scheme and a rest, and the tunnel form of it.
use crate::outcome::FetchError;
use crate::text::{
    contains,
    contains_seq,
    find,
    is_first_occurrence,
    lemma_first_occurrence_exists,
    lemma_first_occurrence_unique,
    occurs_at,
};
use vstd::prelude::*;

verus! {

/// The scheme separator `://`.
pub open spec fn separator() -> Seq<char> {
    seq![':', '/', '/']
}

/// The default scheme with its separator, `http://`.
pub open spec fn default_scheme_prefix() -> Seq<char> {
    seq!['h', 't', 't', 'p', ':', '/', '/']
}

/// The input with `http://` prepended when it holds no scheme separator, else the input itself.
pub open spec fn with_default_scheme(u: Seq<char>) -> Seq<char> {
    if contains_seq(u, separator()) {
        u
    } else {
        default_scheme_prefix() + u
    }
}

/// The parts before and after the first scheme separator, if there is one.
pub open spec fn split_at_separator(s: Seq<char>) -> Option<(Seq<char>, Seq<char>)> {
    if exists|i: int| is_first_occurrence(s, separator(), i) {
        let i = choose|i: int| is_first_occurrence(s, separator(), i);
        Some((s.subrange(0, i), s.subrange(i + 3, s.len() as int)))
    } else {
        None
    }
}

/// The scheme and rest of an input, or `None` when the scheme-bearing form of it does not
/// split into two non-empty parts.
pub open spec fn parse_url_spec(u: Seq<char>) -> Option<(Seq<char>, Seq<char>)> {
    match split_at_separator(with_default_scheme(u)) {
        Some(parts) => if parts.0.len() > 0 && parts.1.len() > 0 {
            Some(parts)
        } else {
            None
        },
        None => None,
    }
}

/// The tunnel URL: the base, the scheme, a single-slash separator `:/`, then the rest.
pub open spec fn tunnel_url_spec(base: Seq<char>, scheme: Seq<char>, rest: Seq<char>) -> Seq<char> {
    base + scheme + seq![':', '/'] + rest
}

/// A URL split on its first scheme separator.
#[derive(Debug, Clone, PartialEq, Eq)]
pub struct ParsedUrl {
    pub scheme: String,
    pub rest: String,
}

impl ParsedUrl {
    /// Both parts are non-empty and the scheme holds no separator.
    pub open spec fn wf(&self) -> bool {
        &&& self.scheme@.len() > 0
        &&& self.rest@.len() > 0
        &&& !contains_seq(self.scheme@, separator())
    }

    /// The tunnel-routed form of this URL under `tunnel_base`.
    pub fn tunnel_url(&self, tunnel_base: &str) -> (r: String)
        ensures
            r@ == tunnel_url_spec(tunnel_base@, self.scheme@, self.rest@),
    {
        let mut r = String::from_str(tunnel_base);
        r.append(self.scheme.as_str());
        proof {
            reveal_strlit(":/");
        }
        r.append(":/");
        r.append(self.rest.as_str());
        assert(r@ =~= tunnel_url_spec(tunnel_base@, self.scheme@, self.rest@));
        r
    }
}

/// Splits a URL into scheme and rest, prepending `http://` when it has no scheme separator.
pub fn parse_url(url: &str) -> (r: Result<ParsedUrl, FetchError>)
    ensures
        match parse_url_spec(url@) {
            Some(parts) => r matches Ok(p) && p.scheme@ == parts.0 && p.rest@ == parts.1
                && p.wf(),
            None => r == Err::<ParsedUrl, FetchError>(FetchError::InvalidUrlFormat),
        },
{
    proof {
        reveal_strlit("://");
        reveal_strlit("http://");
    }
    assert("://"@ =~= separator());
    assert("http://"@ =~= default_scheme_prefix());
    let normalized = if contains(url, "://") {
        String::from_str(url)
    } else {
        String::from_str("http://").concat(url)
    };
    assert(normalized@ =~= with_default_scheme(url@));
    let s = normalized.as_str();
    match find(s, "://") {
        None => {
            assert(!exists|i: int| is_first_occurrence(s@, separator(), i));
            Err(FetchError::InvalidUrlFormat)
        },
        Some(i) => {
            let len = s.unicode_len();
            let scheme = String::from_str(s.substring_char(0, i));
            let rest = String::from_str(s.substring_char(i + 3, len));
            proof {
                let j = choose|j: int| is_first_occurrence(s@, separator(), j);
                lemma_first_occurrence_unique(s@, separator(), i as int, j);
                if contains_seq(scheme@, separator()) {
                    let k = choose|k: int| occurs_at(scheme@, separator(), k);
                    assert(s@.subrange(k, k + 3) =~= scheme@.subrange(k, k + 3));
                    assert(occurs_at(s@, separator(), k));
                }
            }
            if scheme.unicode_len() == 0 || rest.unicode_len() == 0 {
                Err(FetchError::InvalidUrlFormat)
            } else {
                Ok(ParsedUrl { scheme, rest })
            }
        },
    }
}

/// Normalization prepends `http://` exactly when the input holds no scheme separator,
/// uses the input verbatim otherwise, and applying it twice changes nothing: normalizing
/// an already-normalized URL gives the same scheme/rest split.
pub proof fn lemma_default_scheme(u: Seq<char>)
    ensures
        contains_seq(u, separator()) ==> with_default_scheme(u) == u,
        !contains_seq(u, separator()) ==> with_default_scheme(u) == default_scheme_prefix() + u,
        contains_seq(with_default_scheme(u), separator()),
        with_default_scheme(with_default_scheme(u)) == with_default_scheme(u),
        parse_url_spec(with_default_scheme(u)) == parse_url_spec(u),
{
    if !contains_seq(u, separator()) {
        let s = default_scheme_prefix() + u;
        assert(s.subrange(4, 7) =~= separator());
        assert(occurs_at(s, separator(), 4));
    }
}

/// Once the default scheme is in place a split always exists, so an input is rejected
/// exactly when its scheme part or its rest part is empty.
pub proof fn lemma_rejected_inputs(u: Seq<char>)
    ensures
        split_at_separator(with_default_scheme(u)) is Some,
        parse_url_spec(u) is None <==> ({
            let parts = split_at_separator(with_default_scheme(u))->Some_0;
            parts.0.len() == 0 || parts.1.len() == 0
        }),
{
    lemma_default_scheme(u);
    let s = with_default_scheme(u);
    let i = choose|i: int| occurs_at(s, separator(), i);
    lemma_first_occurrence_exists(s, separator(), i);
}

/// A well-formed scheme and rest, joined with `://`, normalize back to themselves.
pub proof fn lemma_parse_rejoined(p: ParsedUrl)
    requires
        p.wf(),
    ensures
        parse_url_spec(p.scheme@ + separator() + p.rest@) == Some((p.scheme@, p.rest@)),
{
    let a = p.scheme@;
    let b = p.rest@;
    let s = a + separator() + b;
    let n = a.len() as int;
    assert(s.subrange(n, n + 3) =~= separator());
    assert forall|j: int| 0 <= j < n implies !occurs_at(s, separator(), j) by {
        if j + 3 <= n {
            assert(s.subrange(j, j + 3) =~= a.subrange(j, j + 3));
            if occurs_at(s, separator(), j) {
                assert(occurs_at(a, separator(), j));
            }
        } else if occurs_at(s, separator(), j) {
            assert(s.subrange(j, j + 3)[n - j] == s[n]);
            assert(s[n] == ':');
            assert(separator()[n - j] == '/');
        }
    }
    assert(is_first_occurrence(s, separator(), n));
    assert(contains_seq(s, separator()));
    let k = choose|k: int| is_first_occurrence(s, separator(), k);
    lemma_first_occurrence_unique(s, separator(), n, k);
    assert(s.subrange(0, n) =~= a);
    assert(s.subrange(n + 3, s.len() as int) =~= b);
}

/// One fetch attempt: the caller's URL as given, and the tunnel URL derived from it.
#[derive(Debug, Clone, PartialEq, Eq)]
pub struct RequestAttempt {
    pub original_url: String,
    pub tunnel_url: String,
}

/// Builds the attempt for `url` under `tunnel_base`, or fails with `InvalidUrlFormat`
/// (and then no request is to be sent).
pub fn prepare_request(url: &str, tunnel_base: &str) -> (r: Result<RequestAttempt, FetchError>)
    ensures
        match parse_url_spec(url@) {
            Some(parts) => r matches Ok(a) && a.original_url@ == url@ && a.tunnel_url@
                == tunnel_url_spec(tunnel_base@, parts.0, parts.1),
            None => r == Err::<RequestAttempt, FetchError>(FetchError::InvalidUrlFormat),
        },
{
    match parse_url(url) {
        Ok(p) => Ok(
            RequestAttempt { original_url: String::from_str(url), tunnel_url: p.tunnel_url(tunnel_base) },
        ),
        Err(e) => Err(e),
    }
}

} // verus!
