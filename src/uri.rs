use vstd::prelude::*;

verus! {

/// The scheme of a request URI.
#[derive(Debug, Clone, PartialEq, Eq)]
pub enum UriScheme {
    Http,
    Https,
    Other(String),
}

/// The parts of a request URI that the engine reads.
#[derive(Debug, Clone)]
pub struct RequestUri {
    pub scheme: Option<UriScheme>,
    /// Host and optional port, as written in the URI.
    pub authority: Option<String>,
    pub path: String,
}

impl RequestUri {
    /// A URI is full (absolute) when it names both a scheme and an authority.
    pub open spec fn is_full_spec(&self) -> bool {
        self.scheme.is_some() && self.authority.is_some()
    }

    pub open spec fn is_https_spec(&self) -> bool {
        self.scheme == Some(UriScheme::Https)
    }

    /// The origin that cookies are stored under: the authority, or nothing.
    pub open spec fn origin_spec(&self) -> Seq<char> {
        match self.authority {
            Some(a) => a@,
            None => Seq::empty(),
        }
    }

    pub fn is_full(&self) -> (r: bool)
        ensures
            r == self.is_full_spec(),
    {
        self.scheme.is_some() && self.authority.is_some()
    }

    pub fn is_https(&self) -> (r: bool)
        ensures
            r == self.is_https_spec(),
    {
        match &self.scheme {
            Some(UriScheme::Https) => true,
            _ => false,
        }
    }
}

} // verus!
