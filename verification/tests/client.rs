use aichat_relay::client::{
    create_client, create_http_client, create_stream_http_client, plan_client, TimeoutPolicy,
    BOUNDED_TIMEOUT_SECS,
};
use aichat_relay::error::RelayError;
use aichat_relay::proxy::{Credentials, ProxyConfig};

fn config(proxy_type: &str, host: &str) -> ProxyConfig {
    ProxyConfig {
        enabled: true,
        proxy_type: proxy_type.to_string(),
        host: host.to_string(),
        port: 8080,
        requires_auth: false,
        username: None,
        password: None,
    }
}

#[test]
fn bounded_plan_has_the_fixed_timeout_and_user_agent() {
    let plan = plan_client(None, TimeoutPolicy::Bounded).unwrap();
    assert_eq!(BOUNDED_TIMEOUT_SECS, 30);
    assert_eq!(plan.timeout_secs, Some(30));
    assert_eq!(plan.user_agent, "AiChat/1.0");
    assert_eq!(plan.proxy, None);
}

#[test]
fn unbounded_plan_has_no_timeout() {
    let plan = plan_client(None, TimeoutPolicy::Unbounded).unwrap();
    assert_eq!(plan.timeout_secs, None);
    assert_eq!(plan.user_agent, "AiChat/1.0");
    assert_eq!(plan.proxy, None);
}

#[test]
fn absent_or_disabled_proxy_plans_a_direct_client() {
    let mut c = config("socks5", "proxy.local");
    c.enabled = false;
    c.requires_auth = true;
    c.username = Some("u".to_string());
    c.password = Some("p".to_string());
    for policy in [TimeoutPolicy::Bounded, TimeoutPolicy::Unbounded] {
        assert_eq!(plan_client(Some(&c), policy).unwrap().proxy, None);
        assert_eq!(plan_client(None, policy).unwrap().proxy, None);
    }
    c.proxy_type = "nonsense".to_string();
    assert_eq!(plan_client(Some(&c), TimeoutPolicy::Bounded).unwrap().proxy, None);
}

#[test]
fn enabled_proxy_is_planned_with_url_and_credentials() {
    let mut c = config("https", "https://gate.example");
    c.requires_auth = true;
    c.username = Some("u".to_string());
    c.password = Some("p".to_string());
    let bounded = plan_client(Some(&c), TimeoutPolicy::Bounded).unwrap();
    let unbounded = plan_client(Some(&c), TimeoutPolicy::Unbounded).unwrap();
    let target = bounded.proxy.clone().unwrap();
    assert_eq!(target.url, "https://gate.example:8080");
    assert_eq!(
        target.credentials,
        Some(Credentials { username: "u".to_string(), password: "p".to_string() })
    );
    assert_eq!(bounded.proxy, unbounded.proxy);
    assert_eq!(bounded.user_agent, unbounded.user_agent);
    assert_eq!(bounded.timeout_secs, Some(30));
    assert_eq!(unbounded.timeout_secs, None);
}

#[test]
fn planning_fails_on_an_unknown_proxy_type() {
    let c = config("socks4", "h");
    assert_eq!(plan_client(Some(&c), TimeoutPolicy::Bounded), Err(RelayError::UnsupportedProxyType));
    assert_eq!(
        plan_client(Some(&c), TimeoutPolicy::Unbounded),
        Err(RelayError::UnsupportedProxyType)
    );
}

#[test]
fn client_is_built_without_proxy() {
    assert!(create_http_client(None).is_ok());
    assert!(create_stream_http_client(None).is_ok());
    let mut c = config("http", "h");
    c.enabled = false;
    assert!(create_http_client(Some(&c)).is_ok());
}

#[test]
fn client_is_built_for_each_proxy_scheme() {
    for proxy_type in ["http", "https", "socks5"] {
        let c = config(proxy_type, "proxy.local");
        assert!(c.is_within_limits());
        assert!(create_http_client(Some(&c)).is_ok());
        assert!(create_stream_http_client(Some(&c)).is_ok());
    }
}

#[test]
fn client_is_built_with_proxy_credentials() {
    let mut c = config("socks5", "socks5://proxy.local");
    c.requires_auth = true;
    c.username = Some("user name".to_string());
    c.password = Some("p@ss:word/é".to_string());
    assert!(c.is_within_limits());
    assert!(create_client(Some(&c), TimeoutPolicy::Bounded).is_ok());
    assert!(create_client(Some(&c), TimeoutPolicy::Unbounded).is_ok());
}

#[test]
fn malformed_proxy_url_fails_client_construction() {
    let mut c = config("http", "bad host");
    match create_http_client(Some(&c)) {
        Err(RelayError::ClientConstruction(cause)) => assert!(!cause.is_empty()),
        other => panic!("unexpected outcome: {:?}", other.map(|_| ())),
    }
    c.requires_auth = true;
    c.username = Some("u".to_string());
    c.password = Some("p".to_string());
    match create_stream_http_client(Some(&c)) {
        Err(RelayError::ClientConstruction(cause)) => assert!(!cause.is_empty()),
        other => panic!("unexpected outcome: {:?}", other.map(|_| ())),
    }
}

#[test]
fn unknown_proxy_type_fails_before_the_client_is_built() {
    let c = config("ftp", "bad host");
    match create_http_client(Some(&c)) {
        Err(e) => assert_eq!(e, RelayError::UnsupportedProxyType),
        Ok(_) => panic!("a client was built"),
    }
}
