//! Absolute URLs, as the `url` crate parses and serializes them.

use vstd::prelude::*;

verus! {

/// What a parsed URL is to this library: its serialization, its host where
/// that is a domain name, and its path.
pub struct UrlView {
    pub text: Seq<char>,
    pub domain: Option<Seq<char>>,
    pub path: Seq<char>,
}

/// What `url::Url::parse` makes of `input`: `None` where it reports an
/// error, else the parsed URL's serialization, domain and path.
pub uninterp spec fn url_parse(input: Seq<char>) -> Option<UrlView>;

pub open spec fn text_view(text: Option<String>) -> Option<Seq<char>> {
    match text {
        Some(t) => Some(t@),
        None => None,
    }
}

/// Calls `url::Url::parse` on `input`. An error becomes `None`; a parsed URL
/// is handed back as what its methods `as_str`, `domain` and `path` return.
/// The contract claims no more than that this is what `url_parse` names.
#[verifier::external_body]
fn parse_absolute(input: &str) -> (parts: Option<(String, Option<String>, String)>)
    ensures
        match parts {
            Some((text, domain, path)) => url_parse(input@) == Some(
                (UrlView { text: text@, domain: text_view(domain), path: path@ }),
            ),
            None => url_parse(input@) is None,
        },
{
    match url::Url::parse(input) {
        Ok(parsed) => Some(
            (
                parsed.as_str().to_string(),
                parsed.domain().map(|domain| domain.to_string()),
                parsed.path().to_string(),
            ),
        ),
        Err(_) => None,
    }
}

/// An absolute URL in its canonical form. Every value is the result of
/// parsing some text.
#[derive(Debug, PartialEq, Eq)]
pub struct Url {
    text: String,
    domain: Option<String>,
    path: String,
}

impl View for Url {
    type V = UrlView;

    closed spec fn view(&self) -> UrlView {
        UrlView { text: self.text@, domain: text_view(self.domain), path: self.path@ }
    }
}

pub open spec fn url_view(url: Option<Url>) -> Option<UrlView> {
    match url {
        Some(u) => Some(u@),
        None => None,
    }
}

/// Whether `url` is what some text parses to.
pub open spec fn is_parsed(url: UrlView) -> bool {
    exists|input: Seq<char>| #[trigger] url_parse(input) == Some(url)
}

impl Url {
    #[verifier::type_invariant]
    spec fn parsed(&self) -> bool {
        is_parsed(self@)
    }

    /// Parses an absolute URL; `None` where `input` is not one.
    pub fn parse(input: &str) -> (url: Option<Url>)
        ensures
            url_view(url) == url_parse(input@),
    {
        match parse_absolute(input) {
            Some((text, domain, path)) => {
                let url = Url { text, domain, path };
                Some(url)
            },
            None => None,
        }
    }

    /// The host of this URL, where it has one and that is a domain name.
    pub fn domain(&self) -> (domain: Option<&str>)
        ensures
            match domain {
                Some(d) => self@.domain == Some(d@),
                None => self@.domain is None,
            },
    {
        match &self.domain {
            Some(d) => Some(d.as_str()),
            None => None,
        }
    }

    /// The path of this URL.
    pub fn path(&self) -> (path: &str)
        ensures
            path@ == self@.path,
    {
        self.path.as_str()
    }

    /// The serialization of this URL, which some text parsed to.
    pub fn as_str(&self) -> (text: &str)
        ensures
            text@ == self@.text,
            is_parsed(self@),
    {
        proof {
            use_type_invariant(self);
        }
        self.text.as_str()
    }
}

impl Clone for Url {
    fn clone(&self) -> (copy: Url)
        ensures
            copy@ == self@,
    {
        proof {
            use_type_invariant(self);
        }
        let domain = match &self.domain {
            Some(d) => Some(d.clone()),
            None => None,
        };
        Url { text: self.text.clone(), domain, path: self.path.clone() }
    }
}

} // verus!
