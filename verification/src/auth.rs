//! Bearer-token credential handling: validation of token text against the
//! header-value grammar and the per-call interceptor that attaches the token
//! to an outgoing request.

use vstd::prelude::*;
use vstd::string::StrSliceExecFns;
use vstd::string::StringExecFns;

verus! {

/// A character that the header-value grammar accepts: horizontal tab, or any
/// character that is neither a control character below space nor DEL. Every
/// character at 128 and above is accepted, as each of its encoded bytes lies
/// outside the control range.
pub open spec fn legal_header_char(c: char) -> bool {
    c == '\t' || (c as u32 >= 32 && c as u32 != 127)
}

/// Text that can stand as the value of a request header.
pub open spec fn legal_header_value(s: Seq<char>) -> bool {
    forall|i: int| 0 <= i < s.len() ==> legal_header_char(s[i])
}

/// Decides `legal_header_value` for the given text.
pub fn check_header_value(s: &str) -> (r: bool)
    ensures
        r == legal_header_value(s@),
{
    let n: usize = s.unicode_len();
    let mut i: usize = 0;
    while i < n
        invariant
            0 <= i <= n,
            n == s@.len(),
            forall|j: int| 0 <= j < i ==> legal_header_char(s@[j]),
        decreases n - i,
    {
        let c: char = s.get_char(i);
        let code: u32 = c as u32;
        if !(c == '\t' || (code >= 32 && code != 127)) {
            return false;
        }
        i = i + 1;
    }
    true
}

/// The header value stored for a token: the token text behind the bearer
/// scheme prefix.
pub open spec fn bearer_value(token: Seq<char>) -> Seq<char> {
    "Bearer "@ + token
}

/// Builds the stored header value for a token.
pub fn make_bearer(token: &str) -> (r: String)
    ensures
        r@ == bearer_value(token@),
{
    let mut s: String = "Bearer ".to_owned();
    s.append(token);
    s
}

/// The bearer value for a token is legal exactly when the token text itself
/// is: the scheme prefix contributes only legal characters.
pub proof fn lemma_bearer_legality(token: Seq<char>)
    ensures
        legal_header_value(bearer_value(token)) <==> legal_header_value(token),
{
    reveal_strlit("Bearer ");
    let b = bearer_value(token);
    let p: Seq<char> = "Bearer "@;
    if legal_header_value(b) {
        assert forall|i: int| 0 <= i < token.len() implies legal_header_char(token[i]) by {
            assert(b[p.len() + i] == token[i]);
            assert(legal_header_char(b[p.len() + i]));
        }
    }
    if legal_header_value(token) {
        assert forall|i: int| 0 <= i < b.len() implies legal_header_char(b[i]) by {
            if i < p.len() {
                assert(legal_header_char(p[i]));
            } else {
                assert(b[i] == token[i - p.len()]);
            }
        }
    }
}

#[verifier::external_type_specification]
#[verifier::external_body]
#[verifier::reject_recursive_types(T)]
pub struct ExRequest<T>(tonic::Request<T>);

/// The text under the "authorization" key of a request's metadata, if that
/// key is present.
pub uninterp spec fn auth_header(r: tonic::Request<()>) -> Option<Seq<char>>;

/// Relies on tonic::metadata::AsciiMetadataValue::try_from, which accepts
/// exactly the legal header values, and on MetadataMap::insert, which replaces
/// the entry under the given key; the key "authorization" is a valid metadata
/// key.
#[verifier::external_body]
fn with_authorization(req: tonic::Request<()>, value: &str) -> (r: tonic::Request<()>)
    requires
        legal_header_value(value@),
    ensures
        auth_header(r) == Some(value@),
{
    let mut req = req;
    let v = tonic::metadata::AsciiMetadataValue::try_from(value)
        .expect("a legal header value parses");
    req.metadata_mut().insert("authorization", v);
    req
}

/// What the "authorization" header of a request holds after the interceptor
/// runs on it, given the token it carries and the header held before.
pub open spec fn applied_header(
    token: Option<Seq<char>>,
    before: Option<Seq<char>>,
) -> Option<Seq<char>> {
    match token {
        Some(t) => Some(t),
        None => before,
    }
}

/// Per-call hook that attaches the configured bearer credential, if any, to
/// an outgoing request; with no credential the request passes unchanged.
pub struct AuthInterceptor {
    token: Option<String>,
}

impl AuthInterceptor {
    /// The stored header value, if a token is configured.
    pub closed spec fn token_view(&self) -> Option<Seq<char>> {
        match self.token {
            Some(t) => Some(t@),
            None => None,
        }
    }

    /// A configured token is always legal header-value text; legality was
    /// checked when the token was set.
    pub closed spec fn wf(&self) -> bool {
        match self.token {
            Some(t) => legal_header_value(t@),
            None => true,
        }
    }

    pub(crate) fn from_token(token: Option<String>) -> (r: AuthInterceptor)
        ensures
            r.token_view() == match token {
                Some(t) => Some(t@),
                None => None::<Seq<char>>,
            },
            (match token {
                Some(t) => legal_header_value(t@),
                None => true,
            }) ==> r.wf(),
    {
        AuthInterceptor { token }
    }

    /// Applies the hook to one outgoing request. Never fails: token legality
    /// was already checked when the token was set.
    pub fn apply(&self, req: tonic::Request<()>) -> (r: tonic::Request<()>)
        requires
            self.wf(),
        ensures
            auth_header(r) == applied_header(self.token_view(), auth_header(req)),
    {
        match &self.token {
            Some(t) => with_authorization(req, t.as_str()),
            None => req,
        }
    }
}

/// Law: once a token is stored, the interceptor yields an "authorization"
/// header equal to the token's bearer value on any request, whatever that
/// request carried; with no token stored the header is what it was before —
/// absent on a blank request.
pub proof fn lemma_interceptor_attaches_bearer(token: Seq<char>, before: Option<Seq<char>>)
    ensures
        applied_header(Some(bearer_value(token)), before) == Some(bearer_value(token)),
        applied_header(None, before) == before,
{
}

} // verus!
