//! Resource locators: what a fetch reads of a URL, and which URLs it takes.

use url::{ParseError, Url};
use vstd::prelude::*;

verus! {

/// The error that the url crate reports for a text that is no absolute URL.
/// Nothing is read from it.
#[verifier::external_type_specification]
#[verifier::external_body]
pub struct OutsideParseError(ParseError);

/// What a fetch reads of a parsed URL.
#[derive(Debug)]
pub struct Locator {
    /// The scheme, in lower case and without the colon.
    pub scheme: String,
    /// The host, where the URL has one.
    pub host: Option<String>,
    /// The path.
    pub path: String,
}

/// A locator as a plain value.
pub struct LocatorView {
    pub scheme: Seq<char>,
    pub host: Option<Seq<char>>,
    pub path: Seq<char>,
}

impl View for Locator {
    type V = LocatorView;

    open spec fn view(&self) -> LocatorView {
        LocatorView {
            scheme: self.scheme@,
            host: match self.host {
                Some(host) => Some(host@),
                None => None,
            },
            path: self.path@,
        }
    }
}

/// Why a text is not taken as the locator of a fetch.
#[derive(Clone, Copy, Debug, PartialEq, Eq, Structural)]
pub enum LocatorError {
    /// The text is no absolute URL.
    Unparsable,
    /// The URL's scheme is not `http`.
    UnsupportedScheme,
    /// The URL names no host.
    MissingHost,
}

/// What `Url::parse` of the url crate makes of `text`: the values that the
/// parsed URL's `scheme`, `host_str` and `path` return; `None` where it
/// reports an error instead.
pub uninterp spec fn url_parts(text: Seq<char>) -> Option<LocatorView>;

/// Parses `text` with `Url::parse` and copies out what `scheme`, `host_str`
/// and `path` return for the parsed URL.
#[verifier::external_body]
fn parse_url(text: &str) -> (r: Result<Locator, ParseError>)
    ensures
        match r {
            Ok(locator) => url_parts(text@) == Some(locator@),
            Err(_) => url_parts(text@) is None,
        },
{
    let url = Url::parse(text)?;
    Ok(
        Locator {
            scheme: url.scheme().to_owned(),
            host: url.host_str().map(str::to_owned),
            path: url.path().to_owned(),
        },
    )
}

/// Whether a fetch takes a locator with these parts, and why not: the
/// scheme is looked at before the host.
pub open spec fn checked(parts: LocatorView) -> Result<(), LocatorError> {
    if parts.scheme != "http"@ {
        Err(LocatorError::UnsupportedScheme)
    } else if parts.host is None {
        Err(LocatorError::MissingHost)
    } else {
        Ok(())
    }
}

/// What reading `text` as the locator of a fetch gives: its parts, where it
/// is an absolute URL that a fetch takes.
pub open spec fn http_locator(text: Seq<char>) -> Result<LocatorView, LocatorError> {
    match url_parts(text) {
        None => Err(LocatorError::Unparsable),
        Some(parts) => match checked(parts) {
            Ok(_) => Ok(parts),
            Err(e) => Err(e),
        },
    }
}

impl Locator {
    /// Reads `text` as an absolute URL.
    pub fn parse(text: &str) -> (r: Result<Locator, LocatorError>)
        ensures
            match r {
                Ok(locator) => url_parts(text@) == Some(locator@),
                Err(e) => e == LocatorError::Unparsable && url_parts(text@) is None,
            },
    {
        match parse_url(text) {
            Ok(locator) => Ok(locator),
            Err(_) => Err(LocatorError::Unparsable),
        }
    }

    /// Whether the scheme is `http`.
    pub fn is_http(&self) -> (r: bool)
        ensures
            r == (self@.scheme == "http"@),
    {
        self.scheme == "http".to_owned()
    }

    /// Whether a fetch takes this locator: its scheme must be `http`, and
    /// it must name a host.
    pub fn check(&self) -> (r: Result<(), LocatorError>)
        ensures
            r == checked(self@),
    {
        if !self.is_http() {
            Err(LocatorError::UnsupportedScheme)
        } else if self.host.is_none() {
            Err(LocatorError::MissingHost)
        } else {
            Ok(())
        }
    }

    /// Reads `text` as the locator of a fetch: an absolute URL with the
    /// scheme `http` and a host. Anything else is refused, before a name is
    /// resolved or a connection is opened.
    pub fn parse_http(text: &str) -> (r: Result<Locator, LocatorError>)
        ensures
            match r {
                Ok(locator) => http_locator(text@) == Ok::<LocatorView, LocatorError>(locator@),
                Err(e) => http_locator(text@) == Err::<LocatorView, LocatorError>(e),
            },
    {
        let locator = Locator::parse(text)?;
        match locator.check() {
            Ok(_) => Ok(locator),
            Err(e) => Err(e),
        }
    }
}

} // verus!
