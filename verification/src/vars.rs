//! The proxy-related environment variables as an explicit value.
//!
//! The resolver never reads the process environment itself: the caller hands
//! it the values of the ten variables it cares about, so the resolution is a
//! pure function of its arguments.

use vstd::prelude::*;

verus! {

/// The values of the proxy-related environment variables. Each variable has
/// a lowercase and an uppercase form; a field is `None` when that form is
/// unset. A present-but-empty value is `Some` of the empty string.
pub struct ProxyEnv {
    pub http_proxy: Option<String>,
    pub http_proxy_uppercase: Option<String>,
    pub https_proxy: Option<String>,
    pub https_proxy_uppercase: Option<String>,
    pub ftp_proxy: Option<String>,
    pub ftp_proxy_uppercase: Option<String>,
    pub all_proxy: Option<String>,
    pub all_proxy_uppercase: Option<String>,
    pub no_proxy: Option<String>,
    pub no_proxy_uppercase: Option<String>,
}

/// The mathematical view of a `ProxyEnv`: each variable as an optional
/// sequence of characters.
pub ghost struct EnvModel {
    pub http_proxy: Option<Seq<char>>,
    pub http_proxy_uppercase: Option<Seq<char>>,
    pub https_proxy: Option<Seq<char>>,
    pub https_proxy_uppercase: Option<Seq<char>>,
    pub ftp_proxy: Option<Seq<char>>,
    pub ftp_proxy_uppercase: Option<Seq<char>>,
    pub all_proxy: Option<Seq<char>>,
    pub all_proxy_uppercase: Option<Seq<char>>,
    pub no_proxy: Option<Seq<char>>,
    pub no_proxy_uppercase: Option<Seq<char>>,
}

/// The view of an optional string.
pub open spec fn opt_str_view(o: Option<String>) -> Option<Seq<char>> {
    match o {
        Some(s) => Some(s@),
        None => None,
    }
}

impl View for ProxyEnv {
    type V = EnvModel;

    open spec fn view(&self) -> EnvModel {
        EnvModel {
            http_proxy: opt_str_view(self.http_proxy),
            http_proxy_uppercase: opt_str_view(self.http_proxy_uppercase),
            https_proxy: opt_str_view(self.https_proxy),
            https_proxy_uppercase: opt_str_view(self.https_proxy_uppercase),
            ftp_proxy: opt_str_view(self.ftp_proxy),
            ftp_proxy_uppercase: opt_str_view(self.ftp_proxy_uppercase),
            all_proxy: opt_str_view(self.all_proxy),
            all_proxy_uppercase: opt_str_view(self.all_proxy_uppercase),
            no_proxy: opt_str_view(self.no_proxy),
            no_proxy_uppercase: opt_str_view(self.no_proxy_uppercase),
        }
    }
}

impl ProxyEnv {
    /// An environment with every proxy variable unset.
    pub fn empty() -> (r: ProxyEnv)
        ensures
            r.http_proxy is None,
            r.http_proxy_uppercase is None,
            r.https_proxy is None,
            r.https_proxy_uppercase is None,
            r.ftp_proxy is None,
            r.ftp_proxy_uppercase is None,
            r.all_proxy is None,
            r.all_proxy_uppercase is None,
            r.no_proxy is None,
            r.no_proxy_uppercase is None,
    {
        ProxyEnv {
            http_proxy: None,
            http_proxy_uppercase: None,
            https_proxy: None,
            https_proxy_uppercase: None,
            ftp_proxy: None,
            ftp_proxy_uppercase: None,
            all_proxy: None,
            all_proxy_uppercase: None,
            no_proxy: None,
            no_proxy_uppercase: None,
        }
    }
}

/// The first value of the two that is set, if any: used both for the
/// lowercase-before-uppercase variable lookup and for the fallback chain
/// among the proxy variables.
pub open spec fn first_set(a: Option<Seq<char>>, b: Option<Seq<char>>) -> Option<Seq<char>> {
    if a is Some {
        a
    } else {
        b
    }
}

/// The effective `no_proxy` setting: the lowercase variable, or failing
/// that the uppercase one.
pub open spec fn no_proxy_var(e: EnvModel) -> Option<Seq<char>> {
    first_set(e.no_proxy, e.no_proxy_uppercase)
}

/// The effective `http_proxy` setting.
pub open spec fn http_proxy_var(e: EnvModel) -> Option<Seq<char>> {
    first_set(e.http_proxy, e.http_proxy_uppercase)
}

/// The effective `https_proxy` setting.
pub open spec fn https_proxy_var(e: EnvModel) -> Option<Seq<char>> {
    first_set(e.https_proxy, e.https_proxy_uppercase)
}

/// The effective `ftp_proxy` setting.
pub open spec fn ftp_proxy_var(e: EnvModel) -> Option<Seq<char>> {
    first_set(e.ftp_proxy, e.ftp_proxy_uppercase)
}

/// The effective `all_proxy` setting.
pub open spec fn all_proxy_var(e: EnvModel) -> Option<Seq<char>> {
    first_set(e.all_proxy, e.all_proxy_uppercase)
}

/// The view of an optional borrowed string.
pub open spec fn opt_ref_view(o: Option<&String>) -> Option<Seq<char>> {
    match o {
        Some(s) => Some(s@),
        None => None,
    }
}

/// The first of the two values that is set, if any.
pub fn first_set_ref<'a>(a: &'a Option<String>, b: &'a Option<String>) -> (r: Option<&'a String>)
    ensures
        opt_ref_view(r) == first_set(opt_str_view(*a), opt_str_view(*b)),
{
    match a {
        Some(s) => Some(s),
        None => match b {
            Some(s) => Some(s),
            None => None,
        },
    }
}

} // verus!
