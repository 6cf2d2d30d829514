//! Parsed locations of downloads.

use vstd::prelude::*;

verus! {

/// A location, split into its parts.
#[derive(Clone, Debug)]
pub struct Url {
    /// Scheme specifier, in lower case.
    pub scheme: String,
    /// Network location part.
    pub netloc: String,
    /// Hierarchical path.
    pub path: String,
    /// Query component.
    pub query: Option<String>,
    /// Fragment identifier.
    pub fragment: Option<String>,
    /// User name.
    pub username: Option<String>,
    /// Password.
    pub password: Option<String>,
    /// Host name, in lower case.
    pub hostname: Option<String>,
    /// Port number.
    pub port: Option<u16>,
}

/// The parts of a location as plain values.
pub struct UrlView {
    pub scheme: Seq<char>,
    pub netloc: Seq<char>,
    pub path: Seq<char>,
    pub query: Option<Seq<char>>,
    pub fragment: Option<Seq<char>>,
    pub username: Option<Seq<char>>,
    pub password: Option<Seq<char>>,
    pub hostname: Option<Seq<char>>,
    pub port: Option<u16>,
}

impl View for Url {
    type V = UrlView;

    open spec fn view(&self) -> UrlView {
        UrlView {
            scheme: self.scheme@,
            netloc: self.netloc@,
            path: self.path@,
            query: self.query.deep_view(),
            fragment: self.fragment.deep_view(),
            username: self.username.deep_view(),
            password: self.password.deep_view(),
            hostname: self.hostname.deep_view(),
            port: self.port,
        }
    }
}

/// The parts that the `urlparse` crate finds in a text.
pub uninterp spec fn parsed_url(text: Seq<char>) -> UrlView;

/// `urlparse::urlparse`: splits a text into the parts of a location. The
/// function accepts every text; which parts it finds is not spelled out here
/// but named `parsed_url`.
#[verifier::external_body]
fn urlparse(text: &str) -> (url: Url)
    ensures
        url@ == parsed_url(text@),
{
    let parsed = urlparse::urlparse(text);
    Url {
        scheme: parsed.scheme,
        netloc: parsed.netloc,
        path: parsed.path,
        query: parsed.query,
        fragment: parsed.fragment,
        username: parsed.username,
        password: parsed.password,
        hostname: parsed.hostname,
        port: parsed.port,
    }
}

impl Url {
    /// Splits a text into the parts of a location.
    pub fn parse(text: &str) -> (url: Url)
        ensures
            url@ == parsed_url(text@),
    {
        urlparse(text)
    }
}

} // verus!
