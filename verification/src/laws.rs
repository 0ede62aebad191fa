//! Laws of the resolver, stated over the same spec functions that
//! `for_url`'s contract uses and proved once for all inputs.

use vstd::prelude::*;

use crate::resolve::{
    candidate_for_scheme, excluded_by_no_proxy, normalized, resolve_from, resolve_spec,
    DEFAULT_PROXY_PORT,
};
use crate::text::{host_blocked, is_suffix, is_token};
use crate::urls::{url_parse, url_with_port, UrlModel};
use crate::vars::{
    all_proxy_var, first_set, ftp_proxy_var, http_proxy_var, https_proxy_var, no_proxy_var,
    EnvModel,
};

verus! {

/// Law: when the effective `no_proxy` setting is exactly `"*"`, resolution
/// yields no proxy, whatever the target and the other variables hold.
pub proof fn lemma_no_proxy_wildcard_disables_all(target: Seq<char>, e: EnvModel)
    requires
        no_proxy_var(e) == Some("*"@),
    ensures
        resolve_spec(target, e) is None,
{
    match url_parse(target) {
        Some(u) => {
            assert(excluded_by_no_proxy(u.host, e));
        },
        None => {},
    }
}

/// Law: a nonempty `no_proxy` token that is a suffix of the target's host
/// disables the proxy, whatever the other variables hold. The token is the
/// run `np[i..j]` of the effective `no_proxy` value `np`.
pub proof fn lemma_no_proxy_suffix_excludes(u: UrlModel, e: EnvModel, i: int, j: int)
    requires
        u.host matches Some(h) && no_proxy_var(e) matches Some(np) && is_token(np, i, j) && i < j
            && is_suffix(h, np.subrange(i, j)),
    ensures
        resolve_from(Some(u), e) is None,
{
    let h = u.host->Some_0;
    let np = no_proxy_var(e)->Some_0;
    assert(host_blocked(h, np));
    assert(excluded_by_no_proxy(u.host, e));
}

/// Law: a set lowercase variable wins over the uppercase form, whatever the
/// uppercase form holds.
pub proof fn lemma_lowercase_wins(lo: Option<Seq<char>>, hi: Option<Seq<char>>)
    requires
        lo is Some,
    ensures
        first_set(lo, hi) == lo,
{
}

/// Law: the lowercase variables take precedence over the uppercase ones for
/// every proxy-variable pair — when every lowercase variable is set, two
/// environments that agree on the lowercase variables resolve alike,
/// whatever their uppercase variables hold.
pub proof fn lemma_lowercase_precedence(target: Seq<char>, e1: EnvModel, e2: EnvModel)
    requires
        e1.http_proxy is Some,
        e1.https_proxy is Some,
        e1.ftp_proxy is Some,
        e1.all_proxy is Some,
        e1.no_proxy is Some,
        e2.http_proxy == e1.http_proxy,
        e2.https_proxy == e1.https_proxy,
        e2.ftp_proxy == e1.ftp_proxy,
        e2.all_proxy == e1.all_proxy,
        e2.no_proxy == e1.no_proxy,
    ensures
        resolve_spec(target, e1) == resolve_spec(target, e2),
{
    assert(no_proxy_var(e1) == no_proxy_var(e2));
    assert(http_proxy_var(e1) == http_proxy_var(e2));
    assert(https_proxy_var(e1) == https_proxy_var(e2));
    assert(ftp_proxy_var(e1) == ftp_proxy_var(e2));
    assert(all_proxy_var(e1) == all_proxy_var(e2));
    match url_parse(target) {
        Some(u) => {
            assert(excluded_by_no_proxy(u.host, e1) == excluded_by_no_proxy(u.host, e2));
            assert(candidate_for_scheme(u.scheme, e1) == candidate_for_scheme(u.scheme, e2));
        },
        None => {},
    }
}

/// Law: a chosen proxy URL that carries an explicit port is returned
/// unchanged.
pub proof fn lemma_explicit_port_unchanged(v: Seq<char>, p: UrlModel)
    requires
        p.host is Some,
        p.port is Some,
    ensures
        normalized(v, Some(p)) == Some(v),
{
}

/// Law: a chosen proxy URL with a host but no explicit port is replaced by
/// its re-serialization with the default port attached.
pub proof fn lemma_missing_port_defaulted(v: Seq<char>, p: UrlModel)
    requires
        p.host is Some,
        p.port is None,
    ensures
        normalized(v, Some(p)) == url_with_port(v, DEFAULT_PROXY_PORT),
{
}

/// Law: a target that does not parse as a URL resolves to no proxy.
pub proof fn lemma_malformed_target(e: EnvModel)
    ensures
        resolve_from(None, e) is None,
{
}

} // verus!
