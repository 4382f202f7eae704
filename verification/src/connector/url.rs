//! Addresses, as the connectors need them: parsed, in their normal form,
//! with the domain that they name.

use super::html::{target_of, target_of_spec, Element, ElementView};
use super::protocol::ParseError;
use vstd::prelude::*;

verus! {

/// A parsed address: its text in normal form, and its domain, where its
/// host is one.
#[derive(Debug)]
pub struct Url {
    text: String,
    domain: Option<String>,
}

/// What a [`Url`] holds, as plain mathematical values.
pub struct UrlView {
    pub text: Seq<char>,
    pub domain: Option<Seq<char>>,
}

impl View for Url {
    type V = UrlView;

    closed spec fn view(&self) -> UrlView {
        UrlView {
            text: self.text@,
            domain: match self.domain {
                Some(domain) => Some(domain@),
                None => None,
            },
        }
    }
}

/// What an optional address holds, as plain mathematical values.
pub open spec fn url_option_view(url: Option<Url>) -> Option<UrlView> {
    match url {
        Some(url) => Some(url@),
        None => None,
    }
}

/// The address that `input` writes, or `None` where it writes none.
pub uninterp spec fn url_parsed(input: Seq<char>) -> Option<UrlView>;

/// The address that `input` writes when read relative to the address
/// that `base` writes, or `None` where either is not an address.
pub uninterp spec fn url_joined(base: Seq<char>, input: Seq<char>) -> Option<UrlView>;

/// `Url::parse` of the `url` crate, as `reqwest` hands it on, with what
/// `Url::as_str` and `Url::domain` give of the result. The contract only
/// names the result: the same text always gives the same address.
#[verifier::external_body]
fn parse_url(input: &str) -> (r: Option<Url>)
    ensures
        url_option_view(r) == url_parsed(input@),
{
    match reqwest::Url::parse(input) {
        Ok(url) => Some(Url { text: url.as_str().to_owned(), domain: url.domain().map(str::to_owned) }),
        Err(_) => None,
    }
}

/// `Url::join` on the address that `Url::parse` makes of `base`, with
/// what `Url::as_str` and `Url::domain` give of the result. The contract
/// only names the result: the same two texts always give the same address.
#[verifier::external_body]
fn join_url(base: &str, input: &str) -> (r: Option<Url>)
    ensures
        url_option_view(r) == url_joined(base@, input@),
{
    match reqwest::Url::parse(base) {
        Ok(base) => match base.join(input) {
            Ok(url) => Some(
                Url { text: url.as_str().to_owned(), domain: url.domain().map(str::to_owned) },
            ),
            Err(_) => None,
        },
        Err(_) => None,
    }
}

impl Url {
    /// Reads the address that `input` writes.
    pub fn parse(input: &str) -> (r: Option<Url>)
        ensures
            url_option_view(r) == url_parsed(input@),
    {
        parse_url(input)
    }

    /// Reads `input` relative to the address that `base` writes.
    pub fn join(base: &str, input: &str) -> (r: Option<Url>)
        ensures
            url_option_view(r) == url_joined(base@, input@),
    {
        join_url(base, input)
    }

    /// The text of the address, in normal form.
    pub fn as_str(&self) -> (r: &str)
        ensures
            r@ == self@.text,
    {
        self.text.as_str()
    }

    /// The domain of the address, where its host is one.
    pub fn domain(&self) -> (r: Option<&str>)
        ensures
            match r {
                Some(domain) => self@.domain == Some(domain@),
                None => self@.domain is None,
            },
    {
        match &self.domain {
            Some(domain) => Some(domain.as_str()),
            None => None,
        }
    }
}

impl Clone for Url {
    fn clone(&self) -> (r: Self)
        ensures
            r@ == self@,
    {
        Url {
            text: self.text.clone(),
            domain: match &self.domain {
                Some(domain) => Some(domain.clone()),
                None => None,
            },
        }
    }
}

/// The address that was read, or the error that what was read is none.
pub open spec fn address_spec(parsed: Option<UrlView>) -> Result<UrlView, ParseError> {
    match parsed {
        Some(url) => Ok(url),
        None => Err(ParseError::Url),
    }
}

/// The address that the attribute read from `element` writes.
pub open spec fn linked(element: ElementView) -> Result<UrlView, ParseError> {
    match target_of_spec(element) {
        Err(e) => Err(e),
        Ok(target) => address_spec(url_parsed(target)),
    }
}

/// What reading an address gave, as a result.
pub fn address(parsed: Option<Url>) -> (r: Result<Url, ParseError>)
    ensures
        match r {
            Ok(url) => address_spec(url_option_view(parsed)) == Ok::<UrlView, ParseError>(url@),
            Err(e) => address_spec(url_option_view(parsed)) == Err::<UrlView, ParseError>(e),
        },
{
    match parsed {
        Some(url) => Ok(url),
        None => Err(ParseError::Url),
    }
}

/// Reads the address that the attribute of `element` writes.
pub fn link(element: &Element) -> (r: Result<Url, ParseError>)
    ensures
        match r {
            Ok(url) => linked(element@) == Ok::<UrlView, ParseError>(url@),
            Err(e) => linked(element@) == Err::<UrlView, ParseError>(e),
        },
{
    let target = target_of(element)?;
    address(Url::parse(target))
}

} // verus!
