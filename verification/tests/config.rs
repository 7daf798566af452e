use image_fetcher::config::{
    ClientConfig, POOL_IDLE_TIMEOUT_SECS, POOL_MAX_IDLE_PER_HOST, REQUEST_TIMEOUT_SECS, USER_AGENT,
};

#[test]
fn fixed_settings() {
    assert_eq!(
        USER_AGENT,
        "Mozilla/5.0 (Macintosh; Intel Mac OS X 10_15_7) AppleWebKit/537.36"
    );
    assert_eq!(POOL_MAX_IDLE_PER_HOST, 5);
    assert_eq!(POOL_IDLE_TIMEOUT_SECS, 30);
    assert_eq!(REQUEST_TIMEOUT_SECS, 30);
}

#[test]
fn config_without_proxy() {
    let config = ClientConfig::new(None);
    assert_eq!(
        config,
        ClientConfig {
            user_agent: "Mozilla/5.0 (Macintosh; Intel Mac OS X 10_15_7) AppleWebKit/537.36"
                .to_string(),
            accept_invalid_certs: true,
            pool_max_idle_per_host: 5,
            pool_idle_timeout_secs: 30,
            timeout_secs: 30,
            proxy: None,
        }
    );
}

#[test]
fn config_with_proxy() {
    let config = ClientConfig::new(Some("http://127.0.0.1:8080".to_string()));
    assert_eq!(config.proxy, Some("http://127.0.0.1:8080".to_string()));
    assert!(config.accept_invalid_certs);
    assert_eq!(config.user_agent, USER_AGENT);
    assert_eq!(config.pool_max_idle_per_host, 5);
    assert_eq!(config.pool_idle_timeout_secs, 30);
    assert_eq!(config.timeout_secs, 30);
}

#[test]
fn config_builds_a_client() {
    let config = ClientConfig::new(Some("http://127.0.0.1:8080".to_string()));
    let proxy = reqwest::Proxy::all(config.proxy.as_deref().unwrap()).unwrap();
    let client = reqwest::Client::builder()
        .user_agent(config.user_agent.as_str())
        .danger_accept_invalid_certs(config.accept_invalid_certs)
        .pool_max_idle_per_host(config.pool_max_idle_per_host)
        .pool_idle_timeout(std::time::Duration::from_secs(config.pool_idle_timeout_secs))
        .timeout(std::time::Duration::from_secs(config.timeout_secs))
        .proxy(proxy)
        .build();
    assert!(client.is_ok());
}
