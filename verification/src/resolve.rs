//! The resolution function: which proxy, if any, to use for a target URL,
//! given the proxy-related environment variables.

use vstd::prelude::*;

use crate::text::{host_blocked, host_matches_no_proxy};
use crate::urls::{parse_url, serialize_with_port, url_parse, url_with_port, ParsedUrl, UrlModel};
use crate::vars::{
    all_proxy_var, first_set, first_set_ref, ftp_proxy_var, http_proxy_var, https_proxy_var,
    no_proxy_var, opt_str_view, EnvModel, ProxyEnv,
};

verus! {

/// The port attached to a proxy URL that names none of its own.
pub const DEFAULT_PROXY_PORT: u16 = 8080;

/// The `no_proxy` setting disables proxying for this host: its value is
/// exactly `"*"`, or the host is present and some nonempty token of the
/// value is a suffix of it.
pub open spec fn excluded_by_no_proxy(host: Option<Seq<char>>, e: EnvModel) -> bool {
    match no_proxy_var(e) {
        Some(np) => np == "*"@ || (host matches Some(h) && host_blocked(h, np)),
        None => false,
    }
}

/// The proxy variable value chosen for a scheme: the scheme's own variable
/// first, then its fallbacks, each variable read lowercase before uppercase.
pub open spec fn candidate_for_scheme(scheme: Seq<char>, e: EnvModel) -> Option<Seq<char>> {
    if scheme == "https"@ {
        first_set(https_proxy_var(e), first_set(http_proxy_var(e), all_proxy_var(e)))
    } else if scheme == "http"@ {
        first_set(http_proxy_var(e), all_proxy_var(e))
    } else if scheme == "ftp"@ {
        first_set(ftp_proxy_var(e), first_set(http_proxy_var(e), all_proxy_var(e)))
    } else {
        all_proxy_var(e)
    }
}

/// Validation and port normalization of a chosen proxy value `v`, given the
/// outcome `parsed` of parsing it: `None` where `v` is not a URL or has no
/// host; `v` unchanged where it names an explicit port; otherwise the
/// re-serialization of `v` with the default port attached.
pub open spec fn normalized(v: Seq<char>, parsed: Option<UrlModel>) -> Option<Seq<char>> {
    match parsed {
        Some(p) => {
            if p.host is None {
                None
            } else if p.port is Some {
                Some(v)
            } else {
                url_with_port(v, DEFAULT_PROXY_PORT)
            }
        },
        None => None,
    }
}

/// The resolution decision, given the outcome `parsed` of parsing the
/// target URL.
pub open spec fn resolve_from(parsed: Option<UrlModel>, e: EnvModel) -> Option<Seq<char>> {
    match parsed {
        Some(u) => {
            if excluded_by_no_proxy(u.host, e) {
                None
            } else {
                match candidate_for_scheme(u.scheme, e) {
                    Some(v) => normalized(v, url_parse(v)),
                    None => None,
                }
            }
        },
        None => None,
    }
}

/// What `for_url` returns for a target string and an environment.
pub open spec fn resolve_spec(target: Seq<char>, e: EnvModel) -> Option<Seq<char>> {
    resolve_from(url_parse(target), e)
}

/// Whether the `no_proxy` setting of `env` disables proxying for `host`.
fn is_excluded(host: &Option<String>, env: &ProxyEnv) -> (r: bool)
    ensures
        r == excluded_by_no_proxy(opt_str_view(*host), env@),
{
    match first_set_ref(&env.no_proxy, &env.no_proxy_uppercase) {
        None => false,
        Some(np) => {
            let star: String = "*".to_owned();
            if *np == star {
                true
            } else {
                match host {
                    Some(h) => host_matches_no_proxy(h.as_str(), np.as_str()),
                    None => false,
                }
            }
        },
    }
}

/// The proxy variable value of `env` that applies to `scheme`.
fn candidate_ref<'a>(scheme: &String, env: &'a ProxyEnv) -> (r: Option<&'a String>)
    ensures
        crate::vars::opt_ref_view(r) == candidate_for_scheme(scheme@, env@),
{
    let https_lit: String = "https".to_owned();
    let http_lit: String = "http".to_owned();
    let ftp_lit: String = "ftp".to_owned();
    if *scheme == https_lit {
        match first_set_ref(&env.https_proxy, &env.https_proxy_uppercase) {
            Some(v) => Some(v),
            None => match first_set_ref(&env.http_proxy, &env.http_proxy_uppercase) {
                Some(v) => Some(v),
                None => first_set_ref(&env.all_proxy, &env.all_proxy_uppercase),
            },
        }
    } else if *scheme == http_lit {
        match first_set_ref(&env.http_proxy, &env.http_proxy_uppercase) {
            Some(v) => Some(v),
            None => first_set_ref(&env.all_proxy, &env.all_proxy_uppercase),
        }
    } else if *scheme == ftp_lit {
        match first_set_ref(&env.ftp_proxy, &env.ftp_proxy_uppercase) {
            Some(v) => Some(v),
            None => match first_set_ref(&env.http_proxy, &env.http_proxy_uppercase) {
                Some(v) => Some(v),
                None => first_set_ref(&env.all_proxy, &env.all_proxy_uppercase),
            },
        }
    } else {
        first_set_ref(&env.all_proxy, &env.all_proxy_uppercase)
    }
}

/// Validate a chosen proxy value and give it an explicit port: `None` where
/// it is not a URL or has no host; the value unchanged where it names a
/// port; otherwise its re-serialization with the default port attached.
fn normalize_proxy(v: &String) -> (r: Option<String>)
    ensures
        opt_str_view(r) == normalized(v@, url_parse(v@)),
{
    match parse_url(v.as_str()) {
        None => None,
        Some(p) => {
            if p.host.is_none() {
                None
            } else if p.port.is_some() {
                Some(v.clone())
            } else {
                serialize_with_port(v.as_str(), DEFAULT_PROXY_PORT)
            }
        },
    }
}

/// Extract proxy parameters for a URL from the given environment variable
/// values.
///
/// Each variable is read in its all-lowercase form first; the all-uppercase
/// form counts only where the lowercase one is unset.
///
/// If `no_proxy` is set, the host part of the URL is checked against its
/// comma- or space-separated tokens, and `None` is returned on any suffix
/// match; the single value `*` disables proxying for all hosts.
///
/// If the chosen proxy URL names no explicit port, the port 8080 is
/// attached. Every failure — a target or proxy value that does not parse,
/// a proxy URL without a host — yields `None`, never an error.
pub fn for_url(s: &str, env: &ProxyEnv) -> (r: Option<String>)
    ensures
        opt_str_view(r) == resolve_spec(s@, env@),
{
    let u = match parse_url(s) {
        Some(u) => u,
        None => {
            return None;
        },
    };
    if is_excluded(&u.host, env) {
        return None;
    }
    match candidate_ref(&u.scheme, env) {
        Some(v) => normalize_proxy(v),
        None => None,
    }
}

} // verus!
