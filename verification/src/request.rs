//! Validating a relay request and fixing what is sent: the method, the
//! URL, the headers and the body.

use crate::client::{create_client, planned, TimeoutPolicy};
use crate::error::{ErrorModel, RelayError};
use crate::foreign::{proxy_url_accepted, to_uppercase, uppercase_text};
use crate::headers::{distinct_names, pairs_text, HeaderPairs, Headers};
use crate::proxy::ProxyConfig;
use crate::text::same_text;
use vstd::prelude::*;

verus! {

/// The request methods that the relay forwards.
#[derive(Clone, Copy, Debug, PartialEq, Eq, Structural)]
pub enum HttpMethod {
    Get,
    Post,
    Put,
    Delete,
}

/// The method that the upper-case name `upper` stands for.
pub open spec fn method_named(upper: Seq<char>) -> Option<HttpMethod> {
    if upper == "GET"@ {
        Some(HttpMethod::Get)
    } else if upper == "POST"@ {
        Some(HttpMethod::Post)
    } else if upper == "PUT"@ {
        Some(HttpMethod::Put)
    } else if upper == "DELETE"@ {
        Some(HttpMethod::Delete)
    } else {
        None
    }
}

/// The upper-case name of a method.
pub open spec fn method_name(method: HttpMethod) -> Seq<char> {
    match method {
        HttpMethod::Get => "GET"@,
        HttpMethod::Post => "POST"@,
        HttpMethod::Put => "PUT"@,
        HttpMethod::Delete => "DELETE"@,
    }
}

/// A method is the one that its own name stands for.
pub proof fn lemma_method_name_round_trip(method: HttpMethod)
    ensures
        method_named(method_name(method)) == Some(method),
{
    reveal_strlit("GET");
    reveal_strlit("POST");
    reveal_strlit("PUT");
    reveal_strlit("DELETE");
    assert("PUT"@[0] == 'P' && "PUT"@.len() == 3);
    assert("POST"@.len() == 4);
    assert("DELETE"@.len() == 6);
}

/// The method that `method` asks for: its name is read without regard to
/// letter case.
pub open spec fn parse_method(method: Seq<char>) -> Option<HttpMethod> {
    method_named(uppercase_text(method))
}

impl HttpMethod {
    /// The method with the upper-case name `upper`; `None` for any other
    /// text.
    pub fn from_upper(upper: &str) -> (r: Option<HttpMethod>)
        ensures
            r == method_named(upper@),
    {
        if same_text(upper, "GET") {
            Some(HttpMethod::Get)
        } else if same_text(upper, "POST") {
            Some(HttpMethod::Post)
        } else if same_text(upper, "PUT") {
            Some(HttpMethod::Put)
        } else if same_text(upper, "DELETE") {
            Some(HttpMethod::Delete)
        } else {
            None
        }
    }

    /// Reads a method name in any letter case.
    pub fn parse(method: &str) -> (r: Option<HttpMethod>)
        ensures
            r == parse_method(method@),
    {
        let upper = to_uppercase(method);
        HttpMethod::from_upper(upper.as_str())
    }

    /// The method's upper-case name.
    pub fn name(&self) -> (r: &'static str)
        ensures
            r@ == method_name(*self),
    {
        match self {
            HttpMethod::Get => "GET",
            HttpMethod::Post => "POST",
            HttpMethod::Put => "PUT",
            HttpMethod::Delete => "DELETE",
        }
    }
}

/// A one-shot request as the caller specifies it.
#[derive(Clone, Debug)]
pub struct HttpRequestParams {
    pub url: String,
    /// GET, POST, PUT or DELETE, in any letter case.
    pub method: String,
    pub headers: Option<Headers>,
    pub body: Option<String>,
    pub proxy_config: Option<ProxyConfig>,
}

/// A streamed request as the caller specifies it.
#[derive(Clone, Debug)]
pub struct StreamRequestParams {
    pub url: String,
    /// GET, POST, PUT or DELETE, in any letter case.
    pub method: String,
    pub headers: Option<Headers>,
    pub body: Option<String>,
    pub proxy_config: Option<ProxyConfig>,
    /// Chosen by the caller; tags every event of the stream.
    pub stream_id: String,
}

/// What is sent: the request with its method validated.
#[derive(Clone, Debug, PartialEq, Eq)]
pub struct OutboundRequest {
    pub method: HttpMethod,
    pub url: String,
    /// Each header once, in the order of the caller's map.
    pub headers: Vec<(String, String)>,
    pub body: Option<String>,
}

/// The mathematical value of an [`OutboundRequest`].
pub struct OutboundModel {
    pub method: HttpMethod,
    pub url: Seq<char>,
    pub headers: HeaderPairs,
    pub body: Option<Seq<char>>,
}

impl View for OutboundRequest {
    type V = OutboundModel;

    open spec fn view(&self) -> OutboundModel {
        OutboundModel {
            method: self.method,
            url: self.url@,
            headers: pairs_text(self.headers@),
            body: match self.body {
                Some(b) => Some(b@),
                None => None,
            },
        }
    }
}

/// The headers to send: those of the map, none where there is no map.
pub open spec fn headers_to_send(headers: Option<Headers>) -> HeaderPairs {
    match headers {
        Some(h) => h.pairs(),
        None => HeaderPairs::empty(),
    }
}

/// The text of an optional string.
pub open spec fn text_of(s: Option<String>) -> Option<Seq<char>> {
    match s {
        Some(t) => Some(t@),
        None => None,
    }
}

/// The request that is sent for the given parts: URL, headers and body as
/// they are, under the method that `method` names. An unknown method is
/// refused.
pub open spec fn outbound(
    url: Seq<char>,
    method: Seq<char>,
    headers: Option<Headers>,
    body: Option<String>,
) -> Result<OutboundModel, ErrorModel> {
    match parse_method(method) {
        None => Err(ErrorModel::UnsupportedMethod),
        Some(m) => Ok(
            OutboundModel { method: m, url, headers: headers_to_send(headers), body: text_of(body) },
        ),
    }
}

/// Whether a computed request `r` has the value `model`.
pub open spec fn outbound_as(
    r: Result<OutboundRequest, RelayError>,
    model: Result<OutboundModel, ErrorModel>,
) -> bool {
    match (r, model) {
        (Ok(request), Ok(m)) => request@ == m,
        (Err(e), Err(m)) => e@ == m,
        _ => false,
    }
}

/// Validates the method and fixes what is sent.
pub fn outbound_request(
    url: &String,
    method: &String,
    headers: &Option<Headers>,
    body: &Option<String>,
) -> (r: Result<OutboundRequest, RelayError>)
    ensures
        outbound_as(r, outbound(url@, method@, *headers, *body)),
        r matches Ok(request) ==> distinct_names(request@.headers),
{
    let method = match HttpMethod::parse(method.as_str()) {
        Some(m) => m,
        None => {
            return Err(RelayError::UnsupportedMethod);
        },
    };
    let headers = match headers {
        Some(h) => h.to_vec(),
        None => Vec::new(),
    };
    let body = match body {
        Some(b) => Some(b.clone()),
        None => None,
    };
    assert(pairs_text(Seq::<(String, String)>::empty()) =~= HeaderPairs::empty());
    Ok(OutboundRequest { method, url: url.clone(), headers, body })
}

/// A client together with the request to send with it.
pub struct PreparedRequest {
    pub client: reqwest::Client,
    pub request: OutboundRequest,
}

/// Joins the outcome of building the client with the validated request.
/// A failure to build the client comes first; the method is looked at
/// only once there is a client.
pub fn with_client(
    client: Result<reqwest::Client, RelayError>,
    url: &String,
    method: &String,
    headers: &Option<Headers>,
    body: &Option<String>,
) -> (r: Result<PreparedRequest, RelayError>)
    ensures
        match client {
            Err(e) => r matches Err(f) && f@ == e@,
            Ok(c) => match r {
                Ok(p) => p.client == c && outbound(url@, method@, *headers, *body) == Ok::<
                    OutboundModel,
                    ErrorModel,
                >(p.request@),
                Err(f) => outbound(url@, method@, *headers, *body) == Err::<
                    OutboundModel,
                    ErrorModel,
                >(f@),
            },
        },
{
    match client {
        Err(e) => Err(e),
        Ok(client) => match outbound_request(url, method, headers, body) {
            Ok(request) => Ok(PreparedRequest { client, request }),
            Err(e) => Err(e),
        },
    }
}

/// What preparing a request gives, for the client settings planned from
/// `config` under `policy` and the request `request`:
/// - the resolution's failure, where the proxy does not resolve;
/// - a construction failure, where the HTTP stack refuses the proxy URL or
///   cannot be set up;
/// - otherwise the method's failure, where the method is unknown;
/// - otherwise the client and the request.
pub open spec fn preparation_outcome(
    r: Result<PreparedRequest, RelayError>,
    config: Option<ProxyConfig>,
    policy: TimeoutPolicy,
    request: Result<OutboundModel, ErrorModel>,
) -> bool {
    match planned(config, policy) {
        Err(e) => r matches Err(f) && f@ == e,
        Ok(plan) => {
            let accepted = plan.proxy matches Some(target) ==> proxy_url_accepted(target.url);
            match r {
                Ok(p) => accepted && request == Ok::<OutboundModel, ErrorModel>(p.request@),
                Err(f) => f@ is ClientConstruction || (accepted && request == Err::<
                    OutboundModel,
                    ErrorModel,
                >(f@)),
            }
        },
    }
}

/// Prepares a relay request: builds the client for the proxy
/// configuration under `policy`, then validates the method.
pub fn prepare(
    policy: TimeoutPolicy,
    url: &String,
    method: &String,
    headers: &Option<Headers>,
    body: &Option<String>,
    proxy_config: &Option<ProxyConfig>,
) -> (r: Result<PreparedRequest, RelayError>)
    requires
        proxy_config matches Some(c) ==> c.within_limits(),
    ensures
        preparation_outcome(r, *proxy_config, policy, outbound(url@, method@, *headers, *body)),
{
    let client = create_client(proxy_config.as_ref(), policy);
    with_client(client, url, method, headers, body)
}

impl HttpRequestParams {
    /// Prepares the one-shot request: a client with the bounded timeout
    /// and the request to send.
    pub fn prepare(&self) -> (r: Result<PreparedRequest, RelayError>)
        requires
            self.proxy_config matches Some(c) ==> c.within_limits(),
        ensures
            preparation_outcome(
                r,
                self.proxy_config,
                TimeoutPolicy::Bounded,
                outbound(self.url@, self.method@, self.headers, self.body),
            ),
    {
        prepare(
            TimeoutPolicy::Bounded,
            &self.url,
            &self.method,
            &self.headers,
            &self.body,
            &self.proxy_config,
        )
    }
}

impl StreamRequestParams {
    /// Prepares the streamed request: a client without a total timeout
    /// and the request to send.
    pub fn prepare(&self) -> (r: Result<PreparedRequest, RelayError>)
        requires
            self.proxy_config matches Some(c) ==> c.within_limits(),
        ensures
            preparation_outcome(
                r,
                self.proxy_config,
                TimeoutPolicy::Unbounded,
                outbound(self.url@, self.method@, self.headers, self.body),
            ),
    {
        prepare(
            TimeoutPolicy::Unbounded,
            &self.url,
            &self.method,
            &self.headers,
            &self.body,
            &self.proxy_config,
        )
    }
}

} // verus!
