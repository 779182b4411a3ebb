//! Target address of the broker: parsing of user-supplied text into a
//! normalized endpoint with a scheme and an authority and an empty path.

use vstd::prelude::*;
use vstd::string::StringExecFns;

verus! {

/// Normalized target address: a scheme (defaulted to "http" when the text
/// names none) and an authority, with no path or query.
#[derive(Debug, Clone)]
pub struct Endpoint {
    scheme: String,
    authority: String,
}

impl Endpoint {
    /// The scheme part of the address.
    pub closed spec fn scheme_view(&self) -> Seq<char> {
        self.scheme@
    }

    /// The authority part of the address: host, and port if any.
    pub closed spec fn authority_view(&self) -> Seq<char> {
        self.authority@
    }

    /// The address as text.
    pub open spec fn text_view(&self) -> Seq<char> {
        self.scheme_view() + "://"@ + self.authority_view()
    }

    pub fn new(scheme: String, authority: String) -> (r: Endpoint)
        ensures
            r.scheme_view() == scheme@,
            r.authority_view() == authority@,
    {
        Endpoint { scheme, authority }
    }

    pub fn scheme(&self) -> (r: &String)
        ensures
            r@ == self.scheme_view(),
    {
        &self.scheme
    }

    pub fn authority(&self) -> (r: &String)
        ensures
            r@ == self.authority_view(),
    {
        &self.authority
    }

    /// Renders the address as text.
    pub fn to_text(&self) -> (r: String)
        ensures
            r@ == self.text_view(),
    {
        let mut s = self.scheme.clone();
        s.append("://");
        s.append(self.authority.as_str());
        s
    }
}

/// What parsing the address text yields: nothing when the text is not a URI,
/// else its optional scheme and optional authority as text.
pub uninterp spec fn parsed_uri(s: Seq<char>) -> Option<(Option<Seq<char>>, Option<Seq<char>>)>;

/// The scheme and authority components as text.
pub open spec fn components_view(p: (Option<String>, Option<String>)) -> (
    Option<Seq<char>>,
    Option<Seq<char>>,
) {
    (
        match p.0 {
            Some(x) => Some(x@),
            None => None,
        },
        match p.1 {
            Some(x) => Some(x@),
            None => None,
        },
    )
}

/// Relies on http::Uri's FromStr implementation together with its scheme_str
/// and authority accessors: parsing is a function of the text alone, and on
/// success the optional scheme and authority components are handed out as
/// text. On failure the parse error's text is handed back.
#[verifier::external_body]
fn parse_uri_components(s: &str) -> (r: Result<(Option<String>, Option<String>), String>)
    ensures
        r is Ok <==> parsed_uri(s@) is Some,
        r matches Ok(parts) ==> parsed_uri(s@) == Some(components_view(parts)),
{
    match s.parse::<http::Uri>() {
        Ok(u) => Ok((
            u.scheme_str().map(|x| x.to_owned()),
            u.authority().map(|a| a.as_str().to_owned()),
        )),
        Err(e) => Err(format!("{e}")),
    }
}

/// Parses address text into an endpoint. The text must name an authority;
/// a missing scheme is defaulted to "http"; any path or query is dropped.
pub fn to_uri(uri: &str) -> (r: Result<Endpoint, String>)
    ensures
        parsed_uri(uri@) is None ==> r is Err,
        parsed_uri(uri@) matches Some(p) ==> match p.1 {
            None => r matches Err(m) && m@ == "No server uri specified"@,
            Some(a) => r matches Ok(e) && e.authority_view() == a && e.scheme_view() == (
            match p.0 {
                Some(sch) => sch,
                None => "http"@,
            }),
        },
{
    match parse_uri_components(uri) {
        Err(m) => Err(m),
        Ok((scheme_opt, authority_opt)) => match authority_opt {
            None => Err("No server uri specified".to_owned()),
            Some(a) => {
                let scheme: String = match scheme_opt {
                    Some(sch) => sch,
                    None => "http".to_owned(),
                };
                Ok(Endpoint { scheme, authority: a })
            },
        },
    }
}

} // verus!
