//! Resolving a proxy specification into what the HTTP client is given: the
//! proxy URL and, where asked for and complete, the credentials.

use crate::error::{ErrorModel, RelayError};
use crate::foreign::AUTH_FIELD_LIMIT;
use crate::text::{
    decimal_digits, lemma_decimal_digits_len, push_decimal, same_text, strip_prefix,
    without_prefix,
};
use vstd::prelude::*;

verus! {

/// A proxy as the caller specifies it.
#[derive(Clone, Debug, PartialEq, Eq)]
pub struct ProxyConfig {
    /// Whether the proxy is to be used at all.
    pub enabled: bool,
    /// `"http"`, `"https"` or `"socks5"`; anything else is rejected once
    /// the proxy is enabled.
    pub proxy_type: String,
    /// The proxy host, possibly written with a scheme in front.
    pub host: String,
    pub port: u16,
    /// Whether credentials are to be sent to the proxy.
    pub requires_auth: bool,
    pub username: Option<String>,
    pub password: Option<String>,
}

/// The kinds of proxy the relay can talk to.
#[derive(Clone, Copy, Debug, PartialEq, Eq, Structural)]
pub enum ProxyScheme {
    Http,
    Https,
    Socks5,
}

/// User name and password for basic authentication at the proxy.
#[derive(Clone, Debug, PartialEq, Eq)]
pub struct Credentials {
    pub username: String,
    pub password: String,
}

/// A resolved proxy: where it is and how to authenticate there.
#[derive(Clone, Debug, PartialEq, Eq)]
pub struct ProxyTarget {
    /// `{scheme}://{host}:{port}`, the host without any scheme prefix.
    pub url: String,
    pub credentials: Option<Credentials>,
}

/// The mathematical value of a [`ProxyTarget`].
pub struct TargetModel {
    pub url: Seq<char>,
    /// User name and password.
    pub credentials: Option<(Seq<char>, Seq<char>)>,
}

impl View for Credentials {
    type V = (Seq<char>, Seq<char>);

    open spec fn view(&self) -> (Seq<char>, Seq<char>) {
        (self.username@, self.password@)
    }
}

impl View for ProxyTarget {
    type V = TargetModel;

    open spec fn view(&self) -> TargetModel {
        TargetModel {
            url: self.url@,
            credentials: match self.credentials {
                Some(c) => Some(c@),
                None => None,
            },
        }
    }
}

/// The name a scheme goes by, in a proxy type and in a URL.
pub open spec fn scheme_name(scheme: ProxyScheme) -> Seq<char> {
    match scheme {
        ProxyScheme::Http => "http"@,
        ProxyScheme::Https => "https"@,
        ProxyScheme::Socks5 => "socks5"@,
    }
}

/// The scheme that a proxy type names. The match is exact: no other
/// spelling or letter case is accepted.
pub open spec fn parse_scheme(proxy_type: Seq<char>) -> Option<ProxyScheme> {
    if proxy_type == "http"@ {
        Some(ProxyScheme::Http)
    } else if proxy_type == "https"@ {
        Some(ProxyScheme::Https)
    } else if proxy_type == "socks5"@ {
        Some(ProxyScheme::Socks5)
    } else {
        None
    }
}

/// The host with a leading `http://`, `https://` or `socks5://` removed.
/// At most one prefix is removed, the first of the three that matches.
pub open spec fn strip_scheme(host: Seq<char>) -> Seq<char> {
    match without_prefix(host, "http://"@) {
        Some(rest) => rest,
        None => match without_prefix(host, "https://"@) {
            Some(rest) => rest,
            None => match without_prefix(host, "socks5://"@) {
                Some(rest) => rest,
                None => host,
            },
        },
    }
}

/// The proxy URL: `{scheme}://{host}:{port}`, with the host cleaned of any
/// scheme prefix and the port in decimal.
pub open spec fn proxy_url(scheme: ProxyScheme, host: Seq<char>, port: u16) -> Seq<char> {
    scheme_name(scheme) + "://"@ + strip_scheme(host) + ":"@ + decimal_digits(port as nat)
}

/// Whether `url` starts with one of the three schemes and `://`.
pub open spec fn has_proxy_scheme(url: Seq<char>) -> bool {
    ||| "http://"@.is_prefix_of(url)
    ||| "https://"@.is_prefix_of(url)
    ||| "socks5://"@.is_prefix_of(url)
}

impl ProxyScheme {
    /// Reads a proxy type.
    pub fn parse(proxy_type: &str) -> (r: Option<ProxyScheme>)
        ensures
            r == parse_scheme(proxy_type@),
    {
        if same_text(proxy_type, "http") {
            Some(ProxyScheme::Http)
        } else if same_text(proxy_type, "https") {
            Some(ProxyScheme::Https)
        } else if same_text(proxy_type, "socks5") {
            Some(ProxyScheme::Socks5)
        } else {
            None
        }
    }

    /// The scheme's name.
    pub fn name(&self) -> (r: &'static str)
        ensures
            r@ == scheme_name(*self),
    {
        match self {
            ProxyScheme::Http => "http",
            ProxyScheme::Https => "https",
            ProxyScheme::Socks5 => "socks5",
        }
    }
}

/// Removes a leading `http://`, `https://` or `socks5://` from `host`.
pub fn clean_host(host: &str) -> (r: &str)
    ensures
        r@ == strip_scheme(host@),
{
    if let Some(rest) = strip_prefix(host, "http://") {
        rest
    } else if let Some(rest) = strip_prefix(host, "https://") {
        rest
    } else if let Some(rest) = strip_prefix(host, "socks5://") {
        rest
    } else {
        host
    }
}

/// Composes the proxy URL for `scheme`, `host` and `port`.
pub fn compose_proxy_url(scheme: ProxyScheme, host: &str, port: u16) -> (r: String)
    ensures
        r@ == proxy_url(scheme, host@, port),
{
    let mut url = String::from_str(scheme.name());
    url.append("://");
    url.append(clean_host(host));
    url.append(":");
    push_decimal(&mut url, port as u64);
    url
}

/// A scheme written in front of the host is taken off again, whichever of
/// the three it is: the host with the prefix resolves as the host
/// without it.
pub proof fn lemma_scheme_prefix_is_stripped(written: ProxyScheme, host: Seq<char>)
    ensures
        strip_scheme(scheme_name(written) + "://"@ + host) == host,
{
    reveal_strlit("http");
    reveal_strlit("https");
    reveal_strlit("socks5");
    reveal_strlit("://");
    reveal_strlit("http://");
    reveal_strlit("https://");
    reveal_strlit("socks5://");
    let full = scheme_name(written) + "://"@ + host;
    // Neither of the two longer prefixes starts with `http://`.
    if written == ProxyScheme::Https {
        assert(full.subrange(0, 7)[4] == 's');
    }
    assert("https://"@[0] == 'h');
}

/// The proxy URL does not depend on whether the host was written with a
/// scheme in front, nor on which.
pub proof fn lemma_proxy_url_ignores_host_scheme(
    scheme: ProxyScheme,
    written: ProxyScheme,
    host: Seq<char>,
    port: u16,
)
    ensures
        proxy_url(scheme, scheme_name(written) + "://"@ + host, port) == scheme_name(scheme)
            + "://"@ + host + ":"@ + decimal_digits(port as nat),
{
    lemma_scheme_prefix_is_stripped(written, host);
}

/// A composed proxy URL starts with its scheme, and is at most 16
/// characters longer than the host it was composed from.
pub proof fn lemma_proxy_url_shape(scheme: ProxyScheme, host: Seq<char>, port: u16)
    ensures
        has_proxy_scheme(proxy_url(scheme, host, port)),
        proxy_url(scheme, host, port).len() <= host.len() + 16,
{
    reveal_strlit("http");
    reveal_strlit("https");
    reveal_strlit("socks5");
    reveal_strlit("://");
    reveal_strlit(":");
    reveal_strlit("http://");
    reveal_strlit("https://");
    reveal_strlit("socks5://");
    lemma_decimal_digits_len(port);
}

impl ProxyConfig {
    /// The credentials this configuration sends: those given, if
    /// authentication is asked for and both user name and password are
    /// present. With either missing, authentication is skipped.
    pub open spec fn credentials_model(&self) -> Option<(Seq<char>, Seq<char>)> {
        if self.requires_auth && self.username is Some && self.password is Some {
            Some((self.username->0@, self.password->0@))
        } else {
            None
        }
    }

    /// Whether the settings are short enough to be handed to the HTTP
    /// stack: where the proxy is enabled and credentials are sent, host,
    /// user name and password have at most 16,777,216 characters each.
    /// The URL type behind the HTTP stack indexes its text with 32-bit
    /// offsets and gives way beyond them; within these limits a URL with
    /// credentials stays far below.
    pub open spec fn within_limits(&self) -> bool {
        self.enabled ==> (self.credentials_model() matches Some(c) ==> {
            &&& self.host@.len() <= AUTH_FIELD_LIMIT
            &&& c.0.len() <= AUTH_FIELD_LIMIT
            &&& c.1.len() <= AUTH_FIELD_LIMIT
        })
    }

    /// Tests [`Self::within_limits`].
    pub fn is_within_limits(&self) -> (r: bool)
        ensures
            r == self.within_limits(),
    {
        if !self.enabled || !self.requires_auth {
            return true;
        }
        match (&self.username, &self.password) {
            (Some(username), Some(password)) => {
                self.host.as_str().unicode_len() <= AUTH_FIELD_LIMIT
                    && username.as_str().unicode_len() <= AUTH_FIELD_LIMIT
                    && password.as_str().unicode_len() <= AUTH_FIELD_LIMIT
            },
            _ => true,
        }
    }

    /// What this configuration resolves to: no proxy when it is disabled,
    /// a failure when it is enabled with an unknown proxy type, else the
    /// target.
    pub open spec fn resolution(&self) -> Result<Option<TargetModel>, ErrorModel> {
        if !self.enabled {
            Ok(None)
        } else {
            match parse_scheme(self.proxy_type@) {
                None => Err(ErrorModel::UnsupportedProxyType),
                Some(scheme) => Ok(
                    Some(
                        TargetModel {
                            url: proxy_url(scheme, self.host@, self.port),
                            credentials: self.credentials_model(),
                        },
                    ),
                ),
            }
        }
    }

    /// The credentials to send to the proxy, if any.
    pub fn credentials(&self) -> (r: Option<Credentials>)
        ensures
            match r {
                Some(c) => Some(c@) == self.credentials_model(),
                None => self.credentials_model() is None,
            },
    {
        if !self.requires_auth {
            return None;
        }
        match (&self.username, &self.password) {
            (Some(username), Some(password)) => Some(
                Credentials { username: username.clone(), password: password.clone() },
            ),
            _ => None,
        }
    }

    /// Resolves this configuration.
    pub fn resolve(&self) -> (r: Result<Option<ProxyTarget>, RelayError>)
        ensures
            resolved_as(r, self.resolution()),
    {
        if !self.enabled {
            return Ok(None);
        }
        match ProxyScheme::parse(self.proxy_type.as_str()) {
            None => Err(RelayError::UnsupportedProxyType),
            Some(scheme) => {
                let url = compose_proxy_url(scheme, self.host.as_str(), self.port);
                Ok(Some(ProxyTarget { url, credentials: self.credentials() }))
            },
        }
    }
}

/// Whether a computed resolution `r` has the value `model`.
pub open spec fn resolved_as(
    r: Result<Option<ProxyTarget>, RelayError>,
    model: Result<Option<TargetModel>, ErrorModel>,
) -> bool {
    match (r, model) {
        (Ok(None), Ok(None)) => true,
        (Ok(Some(target)), Ok(Some(m))) => target@ == m,
        (Err(e), Err(m)) => e@ == m,
        _ => false,
    }
}

/// What an optional configuration resolves to: no proxy when there is
/// none.
pub open spec fn resolution_of(config: Option<ProxyConfig>) -> Result<Option<TargetModel>, ErrorModel> {
    match config {
        None => Ok(None),
        Some(c) => c.resolution(),
    }
}

/// Resolves an optional proxy configuration.
pub fn resolve_proxy(config: Option<&ProxyConfig>) -> (r: Result<Option<ProxyTarget>, RelayError>)
    ensures
        resolved_as(
            r,
            resolution_of(
                match config {
                    Some(c) => Some(*c),
                    None => None,
                },
            ),
        ),
{
    match config {
        None => Ok(None),
        Some(c) => c.resolve(),
    }
}

} // verus!
