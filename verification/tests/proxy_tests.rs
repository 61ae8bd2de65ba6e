use web_crawler::crawl_core::types_refactored::Region;
use web_crawler::network::proxy::geo_selector::{
    detect_region_from_subdomain, detect_region_from_tld, extract_parent_domain, first_label_of,
    GeoProxySelector, ProxyConfig,
};
use web_crawler::network::proxy::provider::ProxyProviderConfig;
use web_crawler::network::proxy::rotation::{ProxyIgnore, ProxyRotationManager, RequestProxy};
use web_crawler::network::proxy::source_manager::{
    country_to_region, ip_port_url, parse_proxy_list, smartproxy_country_to_region, smartproxy_url,
};

#[test]
fn test_proxy_provider_config() {
    let config = ProxyProviderConfig::default();
    assert_eq!(config.timeout_seconds, 30);
    assert_eq!(config.max_retries, 3);
    assert!(!config.free_sources.is_empty());
}

#[test]
fn test_proxy_ignore_patterns() {
    let http_proxy = RequestProxy::new("http://proxy1.com:8080".to_string());
    assert!(http_proxy.should_use_for_http());
    assert!(http_proxy.should_use_for_chrome());

    let chrome_only =
        RequestProxy::new("http://proxy2.com:8080".to_string()).with_ignore(ProxyIgnore::Http);
    assert!(!chrome_only.should_use_for_http());
    assert!(chrome_only.should_use_for_chrome());

    let http_only = RequestProxy::new("http://proxy3.com:8080".to_string())
        .with_ignore(ProxyIgnore::Chrome);
    assert!(http_only.should_use_for_http());
    assert!(!http_only.should_use_for_chrome());
}

#[test]
fn test_socks_url_conversion() {
    let socks_proxy = RequestProxy::new("socks://127.0.0.1:1080".to_string());
    assert_eq!(socks_proxy.get_reqwest_url(), "http://127.0.0.1:1080");
}

#[test]
fn test_rotation_manager() {
    let proxies = vec![
        RequestProxy::new("http://proxy1.com:8080".to_string()),
        RequestProxy::new("http://proxy2.com:8080".to_string()),
        RequestProxy::new("http://proxy3.com:8080".to_string()),
    ];
    let mut manager = ProxyRotationManager::new(proxies);
    let http_proxies = manager.get_http_proxies();
    assert_eq!(http_proxies.len(), 3);
    let proxy1 = manager.get_next_proxy().unwrap();
    let proxy2 = manager.get_next_proxy().unwrap();
    assert_ne!(proxy1.addr, proxy2.addr);
}

#[test]
fn non_socks_address_is_kept() {
    let p = RequestProxy::new("http://10.0.0.1:3128".to_string());
    assert_eq!(p.get_reqwest_url(), "http://10.0.0.1:3128");
}

#[test]
fn third_failure_marks_proxy_unhealthy() {
    let mut p = RequestProxy::new("http://proxy.example:8080".to_string());
    p.mark_failure();
    p.mark_failure();
    assert!(p.healthy);
    p.mark_failure();
    assert!(!p.healthy);
    assert_eq!(p.failure_count, 3);
    assert!(!p.should_use_for_http());
    p.mark_success();
    assert!(p.healthy);
    assert_eq!(p.failure_count, 0);
}

#[test]
fn failed_proxies_are_skipped_and_cleaned_up() {
    let mut manager = ProxyRotationManager::new(vec![
        RequestProxy::new("http://a:1".to_string()),
        RequestProxy::new("http://b:2".to_string()),
    ]);
    for _ in 0..3 {
        manager.mark_proxy_failed("http://a:1");
    }
    assert_eq!(manager.get_http_proxies(), vec!["http://b:2".to_string()]);
    for _ in 0..4 {
        assert_eq!(manager.get_next_proxy().unwrap().addr, "http://b:2");
    }
    manager.cleanup_unhealthy();
    assert_eq!(manager.get_health_status().len(), 2);
    manager.mark_proxy_failed("http://a:1");
    manager.mark_proxy_failed("http://a:1");
    manager.cleanup_unhealthy();
    assert_eq!(manager.get_health_status().len(), 1);
}

#[test]
fn proxy_list_lines_become_http_addresses() {
    let list = "1.2.3.4:8080\n\n  5.6.7.8:3128 \r\nbad line\n9.9.9.9:1:2\n";
    assert_eq!(
        parse_proxy_list(list),
        vec!["http://1.2.3.4:8080".to_string(), "http://5.6.7.8:3128".to_string()]
    );
    assert!(parse_proxy_list("").is_empty());
}

#[test]
fn proxy_endpoint_texts() {
    assert_eq!(smartproxy_url("user", "pw", "gate.example:7000"), "user:pw@gate.example:7000");
    assert_eq!(ip_port_url("1.2.3.4", 8080), "http://1.2.3.4:8080");
    assert_eq!(smartproxy_country_to_region("de"), Region::Europe);
    assert_eq!(smartproxy_country_to_region("zz"), Region::Global);
    assert_eq!(country_to_region("us"), Region::NorthAmerica);
}

#[test]
fn domain_helpers() {
    assert_eq!(extract_parent_domain("news.yahoo.com"), Some("yahoo.com".to_string()));
    assert_eq!(extract_parent_domain("yahoo.com"), None);
    assert_eq!(first_label_of("uk.example.com"), "uk".to_string());
    assert_eq!(detect_region_from_tld("example.de"), Some(Region::Europe));
    assert_eq!(detect_region_from_tld("example.cn"), Some(Region::China));
    assert_eq!(detect_region_from_tld("example.xyz"), None);
    assert_eq!(detect_region_from_subdomain("us.example.xyz"), Some(Region::NorthAmerica));
}

#[test]
fn geo_selector_prefers_region_pool() {
    let mut selector = GeoProxySelector::new();
    selector.add_proxy_to_region(Region::Europe, "http://eu-proxy:8080".to_string());
    let chosen = selector.select_proxy_for_url("https://www.example.de/page");
    assert_eq!(chosen, Some("http://eu-proxy:8080".to_string()));
}

#[test]
fn a_failure_counts_for_the_first_proxy_with_the_address_only() {
    let mut manager = ProxyRotationManager::new(vec![
        RequestProxy::new("http://b:2".to_string()),
        RequestProxy::new("http://a:1".to_string()),
        RequestProxy::new("http://a:1".to_string()),
    ]);
    manager.mark_proxy_failed("http://a:1");
    manager.mark_proxy_failed("http://nowhere:9");
    let status = manager.get_health_status();
    assert_eq!(status[0], ("http://b:2".to_string(), true, 0));
    assert_eq!(status[1], ("http://a:1".to_string(), true, 1));
    assert_eq!(status[2], ("http://a:1".to_string(), true, 0));
}

#[test]
fn loaded_configuration_sets_named_regions_only() {
    let mut selector = GeoProxySelector::new();
    selector.add_proxy_to_region(Region::Europe, "http://old-eu:1".to_string());
    selector.add_proxy_to_region(Region::AsiaPacific, "http://old-ap:1".to_string());
    let config = ProxyConfig {
        regional_proxies: vec![
            ("US".to_string(), vec!["http://us:1".to_string()]),
            ("mars".to_string(), vec!["http://mars:1".to_string()]),
            ("asia".to_string(), vec!["http://ap-a:1".to_string()]),
            ("Asia_Pacific".to_string(), vec!["http://ap-b:1".to_string()]),
        ],
        auto_detect_region: false,
        fallback_to_global: true,
    };
    selector.load_proxy_configuration(&config);
    assert_eq!(
        selector.get_random_proxy_for_region(Region::NorthAmerica),
        Some("http://us:1".to_string())
    );
    assert_eq!(
        selector.get_random_proxy_for_region(Region::Europe),
        Some("http://old-eu:1".to_string())
    );
    assert_eq!(
        selector.get_random_proxy_for_region(Region::AsiaPacific),
        Some("http://ap-b:1".to_string())
    );
    assert_eq!(selector.get_random_proxy_for_region(Region::China), None);
}

#[test]
fn socks_is_rewritten_only_for_linux_builds() {
    let p = RequestProxy::new("socks://127.0.0.1:1080".to_string());
    assert_eq!(p.get_reqwest_url_on(true), "http://127.0.0.1:1080");
    assert_eq!(p.get_reqwest_url_on(false), "socks://127.0.0.1:1080");
}

#[test]
fn http_proxy_addresses_follow_the_target() {
    let manager = ProxyRotationManager::new(vec![
        RequestProxy::new("socks://10.0.0.1:1080".to_string()),
        RequestProxy::new("http://10.0.0.2:3128".to_string()),
    ]);
    assert_eq!(
        manager.get_http_proxies_on(true),
        vec!["http://10.0.0.1:1080".to_string(), "http://10.0.0.2:3128".to_string()]
    );
    assert_eq!(
        manager.get_http_proxies_on(false),
        vec!["socks://10.0.0.1:1080".to_string(), "http://10.0.0.2:3128".to_string()]
    );
}
