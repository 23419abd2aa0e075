//! Absolute URLs as the library holds them: the text that is requested, and
//! the parts that its rules read.

use vstd::prelude::*;

verus! {

/// What is known of a parsed absolute URL.
pub struct UrlView {
    /// The canonical serialization.
    pub text: Seq<char>,
    /// User information, host and port, as serialized.
    pub authority: Seq<char>,
    /// The path, as serialized.
    pub path: Seq<char>,
}

/// The URL that `url::Url::parse` makes of `text`, if it accepts it.
pub uninterp spec fn url_parsed(text: Seq<char>) -> Option<UrlView>;

/// The URL that `url::Url::join` makes of `reference` against the URL that
/// `base` parses to, if `base` parses and the join succeeds.
pub uninterp spec fn url_joined(base: Seq<char>, reference: Seq<char>) -> Option<UrlView>;

/// `url::ParseError`, the reason for which the `url` crate refuses a text.
/// Nothing is read from it: a refusal is reported as the library's own error.
#[verifier::external_type_specification]
#[verifier::external_body]
pub struct ExParseError(url::ParseError);

/// An absolute URL naming the store or an object in it.
#[derive(Debug)]
pub struct ResourceAddress {
    text: String,
    authority: String,
    path: String,
}

impl View for ResourceAddress {
    type V = UrlView;

    closed spec fn view(&self) -> UrlView {
        UrlView { text: self.text@, authority: self.authority@, path: self.path@ }
    }
}

impl ResourceAddress {
    /// The URL as text, ready to be requested.
    pub fn as_str(&self) -> (text: &str)
        ensures
            text@ == self@.text,
    {
        self.text.as_str()
    }

    /// User information, host and port.
    pub fn authority(&self) -> (authority: &str)
        ensures
            authority@ == self@.authority,
    {
        self.authority.as_str()
    }

    /// Whether both URLs name the same user information, host and port.
    pub fn same_authority(&self, other: &ResourceAddress) -> (same: bool)
        ensures
            same == (self@.authority == other@.authority),
    {
        self.authority == other.authority
    }

    /// The path component.
    pub fn path(&self) -> (path: &str)
        ensures
            path@ == self@.path,
    {
        self.path.as_str()
    }
}

/// Parses `text` with `url::Url::parse` and reads the result's serialization,
/// authority and path. The contract names the outcome: it claims only that
/// the outcome depends on `text` alone.
#[verifier::external_body]
pub(crate) fn parse_url(text: &str) -> (parsed: Result<ResourceAddress, url::ParseError>)
    ensures
        match parsed {
            Ok(address) => url_parsed(text@) == Some(address@),
            Err(_) => url_parsed(text@) is None,
        },
{
    let url = url::Url::parse(text)?;
    Ok(ResourceAddress {
        text: url.as_str().to_string(),
        authority: url.authority().to_string(),
        path: url.path().to_string(),
    })
}

/// Parses `base` with `url::Url::parse`, resolves `reference` against it with
/// `url::Url::join`, and reads the result's serialization, authority and
/// path. The contract names the outcome: it claims only that the outcome
/// depends on the two texts alone.
#[verifier::external_body]
pub(crate) fn join_url(base: &str, reference: &str) -> (joined: Result<
    ResourceAddress,
    url::ParseError,
>)
    ensures
        match joined {
            Ok(address) => url_joined(base@, reference@) == Some(address@),
            Err(_) => url_joined(base@, reference@) is None,
        },
{
    let url = url::Url::parse(base)?.join(reference)?;
    Ok(ResourceAddress {
        text: url.as_str().to_string(),
        authority: url.authority().to_string(),
        path: url.path().to_string(),
    })
}

} // verus!
