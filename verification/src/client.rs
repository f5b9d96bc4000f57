//! The HTTP client factory: from an optional proxy configuration and a
//! timeout policy to the settings of a client, and from those settings to
//! the client itself.

use crate::error::{ErrorModel, RelayError};
use crate::foreign::{
    builder_build, builder_no_proxy, builder_proxy, builder_timeout, builder_user_agent,
    client_builder, proxy_for_all, proxy_url_accepted, proxy_with_basic_auth,
    transport_error_text, AUTH_FIELD_LIMIT, AUTH_URL_LIMIT,
};
use crate::proxy::{
    has_proxy_scheme, lemma_proxy_url_shape, parse_scheme, resolution_of, resolve_proxy,
    ProxyConfig, ProxyTarget, TargetModel,
};
use vstd::prelude::*;

verus! {

/// How long a request made with a client may take in all.
#[derive(Clone, Copy, Debug, PartialEq, Eq, Structural)]
pub enum TimeoutPolicy {
    /// A fixed total timeout, for calls that buffer the whole response.
    Bounded,
    /// No total timeout, for streamed responses of any duration.
    Unbounded,
}

/// The total timeout of a bounded client, in seconds.
pub const BOUNDED_TIMEOUT_SECS: u64 = 30;

/// The `User-Agent` that every client identifies itself with.
pub open spec fn user_agent() -> Seq<char> {
    "AiChat/1.0"@
}

/// The total timeout that `policy` asks for, in seconds.
pub open spec fn timeout_of(policy: TimeoutPolicy) -> Option<u64> {
    match policy {
        TimeoutPolicy::Bounded => Some(BOUNDED_TIMEOUT_SECS),
        TimeoutPolicy::Unbounded => None,
    }
}

/// The settings a client is built with.
#[derive(Clone, Debug, PartialEq, Eq)]
pub struct ClientPlan {
    /// The total timeout in seconds; `None` for no timeout.
    pub timeout_secs: Option<u64>,
    pub user_agent: String,
    /// The proxy to go through; `None` to connect directly.
    pub proxy: Option<ProxyTarget>,
}

/// The mathematical value of a [`ClientPlan`].
pub struct PlanModel {
    pub timeout_secs: Option<u64>,
    pub user_agent: Seq<char>,
    pub proxy: Option<TargetModel>,
}

impl View for ClientPlan {
    type V = PlanModel;

    open spec fn view(&self) -> PlanModel {
        PlanModel {
            timeout_secs: self.timeout_secs,
            user_agent: self.user_agent@,
            proxy: match self.proxy {
                Some(target) => Some(target@),
                None => None,
            },
        }
    }
}

/// The settings for `config` under `policy`: the policy's timeout, the
/// fixed user agent and the proxy that the configuration resolves to. It
/// fails exactly when the resolution does.
pub open spec fn planned(config: Option<ProxyConfig>, policy: TimeoutPolicy) -> Result<
    PlanModel,
    ErrorModel,
> {
    match resolution_of(config) {
        Ok(proxy) => Ok(
            PlanModel { timeout_secs: timeout_of(policy), user_agent: user_agent(), proxy },
        ),
        Err(e) => Err(e),
    }
}

/// Without a configuration, or with a disabled one, the client is planned
/// without a proxy, whatever else the configuration says: it connects to
/// the target directly. Planning cannot fail then.
pub proof fn lemma_direct_without_proxy(config: Option<ProxyConfig>, policy: TimeoutPolicy)
    requires
        config matches Some(c) ==> !c.enabled,
    ensures
        planned(config, policy) matches Ok(plan) && plan.proxy is None,
{
}

/// Bounded and unbounded clients differ in the timeout alone: proxy and
/// user agent are planned alike, and planning fails for both or neither.
pub proof fn lemma_policy_sets_timeout_only(config: Option<ProxyConfig>)
    ensures
        match (planned(config, TimeoutPolicy::Bounded), planned(config, TimeoutPolicy::Unbounded)) {
            (Ok(bounded), Ok(unbounded)) => {
                &&& bounded.timeout_secs == Some(BOUNDED_TIMEOUT_SECS)
                &&& unbounded.timeout_secs is None
                &&& bounded.proxy == unbounded.proxy
                &&& bounded.user_agent == unbounded.user_agent
            },
            (Err(e), Err(f)) => e == f,
            _ => false,
        },
{
}

/// Whether a computed plan `r` has the value `model`.
pub open spec fn planned_as(r: Result<ClientPlan, RelayError>, model: Result<PlanModel, ErrorModel>) -> bool {
    match (r, model) {
        (Ok(plan), Ok(m)) => plan@ == m,
        (Err(e), Err(m)) => e@ == m,
        _ => false,
    }
}

/// The optional configuration behind an optional reference.
pub open spec fn deref_config(config: Option<&ProxyConfig>) -> Option<ProxyConfig> {
    match config {
        Some(c) => Some(*c),
        None => None,
    }
}

/// Plans the client for `config` under `policy`.
pub fn plan_client(config: Option<&ProxyConfig>, policy: TimeoutPolicy) -> (r: Result<
    ClientPlan,
    RelayError,
>)
    ensures
        planned_as(r, planned(deref_config(config), policy)),
{
    let timeout_secs = match policy {
        TimeoutPolicy::Bounded => Some(BOUNDED_TIMEOUT_SECS),
        TimeoutPolicy::Unbounded => None,
    };
    match resolve_proxy(config) {
        Ok(proxy) => Ok(
            ClientPlan { timeout_secs, user_agent: String::from_str("AiChat/1.0"), proxy },
        ),
        Err(e) => Err(e),
    }
}

impl ClientPlan {
    /// Whether the HTTP stack can be handed these settings: a proxy with
    /// credentials has a URL that starts with a proxy scheme, and URL, user
    /// name and password are of bounded length.
    pub open spec fn buildable(&self) -> bool {
        self.proxy matches Some(target) ==> (target.credentials matches Some(c) ==> {
            &&& has_proxy_scheme(target.url@)
            &&& target.url@.len() <= AUTH_URL_LIMIT
            &&& c.username@.len() <= AUTH_FIELD_LIMIT
            &&& c.password@.len() <= AUTH_FIELD_LIMIT
        })
    }
}

/// The settings planned for a configuration within its limits can be
/// handed to the HTTP stack.
pub proof fn lemma_planned_is_buildable(config: Option<ProxyConfig>, policy: TimeoutPolicy, plan: ClientPlan)
    requires
        config matches Some(c) ==> c.within_limits(),
        planned(config, policy) == Ok::<PlanModel, ErrorModel>(plan@),
    ensures
        plan.buildable(),
{
    if let Some(c) = config {
        if c.enabled {
            let scheme = parse_scheme(c.proxy_type@)->0;
            lemma_proxy_url_shape(scheme, c.host@, c.port);
        }
    }
}

/// What the factory returns for `config` under `policy`:
/// - the resolution's failure, where the configuration does not resolve;
/// - a construction failure, where the HTTP stack does not accept the
///   proxy URL;
/// - otherwise a client, unless the HTTP stack cannot be set up on this
///   machine, which again is a construction failure.
pub open spec fn creation_outcome(
    r: Result<reqwest::Client, RelayError>,
    config: Option<ProxyConfig>,
    policy: TimeoutPolicy,
) -> bool {
    match planned(config, policy) {
        Err(e) => r is Err && r->Err_0@ == e,
        Ok(plan) => match r {
            Ok(_) => plan.proxy matches Some(target) ==> proxy_url_accepted(target.url),
            Err(e) => e@ is ClientConstruction,
        },
    }
}

/// Builds the client that `plan` describes.
fn build_client(plan: &ClientPlan) -> (r: Result<reqwest::Client, RelayError>)
    requires
        plan.buildable(),
    ensures
        match r {
            Ok(_) => plan.proxy matches Some(target) ==> proxy_url_accepted(target.url@),
            Err(e) => e@ is ClientConstruction,
        },
{
    let mut builder = builder_user_agent(client_builder(), plan.user_agent.as_str());
    if let Some(secs) = plan.timeout_secs {
        builder = builder_timeout(builder, secs);
    }
    match &plan.proxy {
        None => {
            builder = builder_no_proxy(builder);
        },
        Some(target) => {
            let made = match &target.credentials {
                Some(c) => proxy_with_basic_auth(
                    target.url.as_str(),
                    c.username.as_str(),
                    c.password.as_str(),
                ),
                None => proxy_for_all(target.url.as_str()),
            };
            match made {
                Ok(proxy) => {
                    builder = builder_proxy(builder, proxy);
                },
                Err(e) => {
                    return Err(RelayError::ClientConstruction(transport_error_text(&e)));
                },
            }
        },
    }
    match builder_build(builder) {
        Ok(client) => Ok(client),
        Err(e) => Err(RelayError::ClientConstruction(transport_error_text(&e))),
    }
}

/// Builds a client for `proxy_config` under `policy`. The steps are those
/// of [`plan_client`]; the client is then built from the plan.
pub fn create_client(proxy_config: Option<&ProxyConfig>, policy: TimeoutPolicy) -> (r: Result<
    reqwest::Client,
    RelayError,
>)
    requires
        proxy_config matches Some(c) ==> c.within_limits(),
    ensures
        creation_outcome(r, deref_config(proxy_config), policy),
{
    match plan_client(proxy_config, policy) {
        Err(e) => Err(e),
        Ok(plan) => {
            proof {
                lemma_planned_is_buildable(deref_config(proxy_config), policy, plan);
            }
            build_client(&plan)
        },
    }
}

/// Builds the client for one-shot calls: bounded total timeout.
pub fn create_http_client(proxy_config: Option<&ProxyConfig>) -> (r: Result<
    reqwest::Client,
    RelayError,
>)
    requires
        proxy_config matches Some(c) ==> c.within_limits(),
    ensures
        creation_outcome(r, deref_config(proxy_config), TimeoutPolicy::Bounded),
{
    create_client(proxy_config, TimeoutPolicy::Bounded)
}

/// Builds the client for streamed responses: no total timeout.
pub fn create_stream_http_client(proxy_config: Option<&ProxyConfig>) -> (r: Result<
    reqwest::Client,
    RelayError,
>)
    requires
        proxy_config matches Some(c) ==> c.within_limits(),
    ensures
        creation_outcome(r, deref_config(proxy_config), TimeoutPolicy::Unbounded),
{
    create_client(proxy_config, TimeoutPolicy::Unbounded)
}

} // verus!
