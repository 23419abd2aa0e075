//! Where the store lives and how it is reached.

use vstd::prelude::*;
use crate::address::{parse_url, url_parsed, ResourceAddress, UrlView};
use crate::config::Config;
use crate::error::ConfigError;

verus! {

/// Whether `reqwest::Proxy::all` accepts the text as a proxy URL.
pub uninterp spec fn proxy_accepted(proxy: Seq<char>) -> bool;

/// `reqwest::Error`, the reason for which `reqwest` refuses a proxy URL.
/// Nothing is read from it: a refusal is reported as the library's own error.
#[verifier::external_type_specification]
#[verifier::external_body]
pub struct ExTransportError(reqwest::Error);

/// Hands the text to `reqwest::Proxy::all` and drops the proxy it makes.
/// The contract names the answer: it claims only that acceptance depends on
/// the text alone.
#[verifier::external_body]
fn check_proxy(proxy: &str) -> (checked: Result<(), reqwest::Error>)
    ensures
        checked is Ok <==> proxy_accepted(proxy@),
{
    match reqwest::Proxy::all(proxy) {
        Ok(_) => Ok(()),
        Err(error) => Err(error),
    }
}

/// What an endpoint is, to contracts.
pub struct EndpointView {
    /// The base URL, parsed.
    pub base: UrlView,
    /// The proxy URL, as configured.
    pub proxy: Option<Seq<char>>,
}

/// The store's base URL and the proxy, if any, through which every request
/// goes. Built once from the configuration and not changed afterwards.
#[derive(Debug)]
pub struct Endpoint {
    base: ResourceAddress,
    proxy: Option<String>,
}

impl View for Endpoint {
    type V = EndpointView;

    closed spec fn view(&self) -> EndpointView {
        EndpointView {
            base: self.base@,
            proxy: match self.proxy {
                Some(proxy) => Some(proxy@),
                None => None,
            },
        }
    }
}

/// The endpoint that the checks allow: the base has to have parsed, and the
/// proxy, where there is one, has to have been accepted. A base that did not
/// parse is reported before the proxy.
pub open spec fn assembled(base: Option<UrlView>, proxy: Option<(Seq<char>, bool)>) -> Result<
    EndpointView,
    ConfigError,
> {
    match base {
        None => Err(ConfigError::InvalidBaseUrl),
        Some(base) => match proxy {
            Some((text, accepted)) => if accepted {
                Ok(EndpointView { base, proxy: Some(text) })
            } else {
                Err(ConfigError::InvalidProxy)
            },
            None => Ok(EndpointView { base, proxy: None }),
        },
    }
}

/// The endpoint that a base URL and a proxy give: the base has to parse as
/// an absolute URL, and the proxy, where there is one, has to be accepted.
pub open spec fn endpoint_of(base_url: Seq<char>, proxy: Option<Seq<char>>) -> Result<
    EndpointView,
    ConfigError,
> {
    assembled(
        url_parsed(base_url),
        match proxy {
            Some(text) => Some((text, proxy_accepted(text))),
            None => None,
        },
    )
}

/// The texts of a configuration.
pub open spec fn proxy_text(proxy: Option<String>) -> Option<Seq<char>> {
    match proxy {
        Some(text) => Some(text@),
        None => None,
    }
}

impl Endpoint {
    /// Puts an endpoint together from what the checks found: the base as it
    /// parsed, if it did, and the proxy with the answer to whether it is
    /// accepted.
    pub fn assemble(base: Option<ResourceAddress>, proxy: Option<(String, bool)>) -> (outcome:
        Result<Endpoint, ConfigError>)
        ensures
            match outcome {
                Ok(endpoint) => assembled(
                    match base {
                        Some(address) => Some(address@),
                        None => None,
                    },
                    match proxy {
                        Some((text, accepted)) => Some((text@, accepted)),
                        None => None,
                    },
                ) == Ok::<EndpointView, ConfigError>(endpoint@),
                Err(error) => assembled(
                    match base {
                        Some(address) => Some(address@),
                        None => None,
                    },
                    match proxy {
                        Some((text, accepted)) => Some((text@, accepted)),
                        None => None,
                    },
                ) == Err::<EndpointView, ConfigError>(error),
            },
    {
        match base {
            None => Err(ConfigError::InvalidBaseUrl),
            Some(base) => match proxy {
                Some((text, accepted)) => if accepted {
                    Ok(Endpoint { base, proxy: Some(text) })
                } else {
                    Err(ConfigError::InvalidProxy)
                },
                None => Ok(Endpoint { base, proxy: None }),
            },
        }
    }

    /// Builds the endpoint from a base URL and an optional proxy URL.
    pub fn new(base_url: &str, proxy: Option<&str>) -> (outcome: Result<Endpoint, ConfigError>)
        ensures
            match outcome {
                Ok(endpoint) => endpoint_of(
                    base_url@,
                    match proxy {
                        Some(text) => Some(text@),
                        None => None,
                    },
                ) == Ok::<EndpointView, ConfigError>(endpoint@),
                Err(error) => endpoint_of(
                    base_url@,
                    match proxy {
                        Some(text) => Some(text@),
                        None => None,
                    },
                ) == Err::<EndpointView, ConfigError>(error),
            },
    {
        let base = match parse_url(base_url) {
            Ok(base) => Some(base),
            Err(_) => None,
        };
        let proxy = match proxy {
            Some(text) => Some((String::from_str(text), check_proxy(text).is_ok())),
            None => None,
        };
        Endpoint::assemble(base, proxy)
    }

    /// Builds the endpoint that a configuration describes.
    pub fn from_config(config: &Config) -> (outcome: Result<Endpoint, ConfigError>)
        ensures
            match outcome {
                Ok(endpoint) => endpoint_of(config.base_url@, proxy_text(config.proxy)) == Ok::<
                    EndpointView,
                    ConfigError,
                >(endpoint@),
                Err(error) => endpoint_of(config.base_url@, proxy_text(config.proxy)) == Err::<
                    EndpointView,
                    ConfigError,
                >(error),
            },
    {
        match &config.proxy {
            Some(text) => Endpoint::new(config.base_url.as_str(), Some(text.as_str())),
            None => Endpoint::new(config.base_url.as_str(), None),
        }
    }

    /// The base URL: the address that submissions are posted to.
    pub fn base(&self) -> (base: &ResourceAddress)
        ensures
            base@ == self@.base,
    {
        &self.base
    }

    /// The proxy URL, if one is configured.
    pub fn proxy(&self) -> (proxy: Option<&str>)
        ensures
            match proxy {
                Some(text) => self@.proxy == Some(text@),
                None => self@.proxy is None,
            },
    {
        match &self.proxy {
            Some(text) => Some(text.as_str()),
            None => None,
        }
    }
}

} // verus!
