//! The resolver on the classic scenarios: `no_proxy` exclusion, variable
//! precedence, and fallback chains.

use env_proxy::for_url;
use env_proxy::vars::ProxyEnv;

#[test]
fn no_proxy_simple_name() {
    let mut env = ProxyEnv::empty();
    env.no_proxy = Some("example.org".to_string());
    env.http_proxy = Some("http://proxy.example.com:8080".to_string());
    assert!(for_url("http://example.org", &env).is_none());
}

#[test]
fn no_proxy_global() {
    let mut env = ProxyEnv::empty();
    env.no_proxy = Some("*".to_string());
    env.http_proxy = Some("http://proxy.example.com:8080".to_string());
    assert!(for_url("http://example.org", &env).is_none());
}

#[test]
fn no_proxy_subdomain() {
    let mut env = ProxyEnv::empty();
    env.no_proxy = Some("example.org".to_string());
    env.http_proxy = Some("http://proxy.example.com:8080".to_string());
    assert!(for_url("http://www.example.org", &env).is_none());
}

#[test]
fn no_proxy_subdomain_dot() {
    let mut env = ProxyEnv::empty();
    env.no_proxy = Some("example.org".to_string());
    env.http_proxy = Some("http://proxy.example.com:8080".to_string());
    assert!(for_url("http://www.example.org", &env).is_none());
}

#[test]
fn no_proxy_multiple_list() {
    let mut env = ProxyEnv::empty();
    env.no_proxy = Some("www.example.org,www.example1.org,www.example.org".to_string());
    env.http_proxy = Some("http://proxy.example.com:8080".to_string());
    assert!(for_url("http://www.example.org", &env).is_none());
}

#[test]
fn http_proxy_specific() {
    let mut env = ProxyEnv::empty();
    env.http_proxy = Some("http://proxy.example.com:8080".to_string());
    env.all_proxy = Some("http://proxy.example.org:8081".to_string());
    assert_eq!(
        for_url("http://www.example.org", &env),
        Some("http://proxy.example.com:8080".to_string())
    );
}

#[test]
fn http_proxy_fallback() {
    let mut env = ProxyEnv::empty();
    env.all_proxy_uppercase = Some("http://proxy.example.com:8080".to_string());
    assert_eq!(
        for_url("http://www.example.org", &env),
        Some("http://proxy.example.com:8080".to_string())
    );
    env.all_proxy = Some("http://proxy.example.org:8081".to_string());
    assert_eq!(
        for_url("http://www.example.org", &env),
        Some("http://proxy.example.org:8081".to_string())
    );
}

#[test]
fn https_proxy_specific() {
    let mut env = ProxyEnv::empty();
    env.https_proxy_uppercase = Some("http://proxy.example.com:8080".to_string());
    env.http_proxy = Some("http://proxy.example.org:8081".to_string());
    env.all_proxy = Some("http://proxy.example.org:8081".to_string());
    assert_eq!(
        Some("http://proxy.example.com:8080".to_string()),
        for_url("https://www.example.org", &env)
    );
    env.https_proxy = Some("http://proxy.example.com:8081".to_string());
    assert_eq!(
        for_url("https://www.example.org", &env),
        Some("http://proxy.example.com:8081".to_string())
    );
}

#[test]
fn https_proxy_fallback() {
    let mut env = ProxyEnv::empty();
    env.http_proxy = Some("http://proxy.example.com:8080".to_string());
    env.all_proxy_uppercase = Some("http://proxy.example.org:8081".to_string());
    assert_eq!(
        for_url("https://www.example.org", &env),
        Some("http://proxy.example.com:8080".to_string())
    );
    env.http_proxy = None;
    assert_eq!(
        for_url("https://www.example.org", &env),
        Some("http://proxy.example.org:8081".to_string())
    );
    env.all_proxy = Some("http://proxy.example.org:8082".to_string());
    assert_eq!(
        for_url("https://www.example.org", &env),
        Some("http://proxy.example.org:8082".to_string())
    );
}

#[test]
fn ftp_proxy_specific() {
    let mut env = ProxyEnv::empty();
    env.ftp_proxy_uppercase = Some("http://proxy.example.com:8080".to_string());
    env.http_proxy = Some("http://proxy.example.org:8081".to_string());
    env.all_proxy = Some("http://proxy.example.org:8081".to_string());
    assert_eq!(
        for_url("ftp://www.example.org", &env),
        Some("http://proxy.example.com:8080".to_string())
    );
    env.ftp_proxy = Some("http://proxy.example.com:8081".to_string());
    assert_eq!(
        for_url("ftp://www.example.org", &env),
        Some("http://proxy.example.com:8081".to_string())
    );
}

#[test]
fn ftp_proxy_fallback() {
    let mut env = ProxyEnv::empty();
    env.http_proxy = Some("http://proxy.example.com:8080".to_string());
    env.all_proxy_uppercase = Some("http://proxy.example.org:8081".to_string());
    assert_eq!(
        for_url("ftp://www.example.org", &env),
        Some("http://proxy.example.com:8080".to_string())
    );
    env.http_proxy = None;
    assert_eq!(
        for_url("ftp://www.example.org", &env),
        Some("http://proxy.example.org:8081".to_string())
    );
    env.all_proxy = Some("http://proxy.example.org:8082".to_string());
    assert_eq!(
        for_url("ftp://www.example.org", &env),
        Some("http://proxy.example.org:8082".to_string())
    );
}
