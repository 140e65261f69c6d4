//! The canonical-domain redirect policy: a pure decision from host, path and
//! protocol to an optional redirect target, evaluated before any routing.
//!
//! The rules are ordered and the first match wins: hosts off the canonical
//! domain go to it, hosts without the `www.` prefix gain it, and plain
//! connections are upgraded to the secure scheme.

use vstd::prelude::*;
use crate::bytes::{append_bytes, contains_bytes, contains_seq};
use crate::lit::{http_seq, https_seq, scheme_sep_seq, www_prefix_seq};
use crate::lit::{http_bytes, https_bytes, scheme_sep_bytes, www_prefix_bytes};

verus! {

/// The protocol a connection arrived over: plain TCP or TLS.
#[derive(Clone, Copy, Debug, PartialEq, Eq, Structural)]
pub enum Protocol {
    Plain,
    Secure,
}

/// The URL scheme of a protocol: `"http"` for plain, `"https"` for secure.
pub open spec fn scheme_seq(p: Protocol) -> Seq<u8> {
    match p {
        Protocol::Plain => http_seq(),
        Protocol::Secure => https_seq(),
    }
}

impl Protocol {
    /// The URL scheme this protocol is written as.
    pub fn scheme(&self) -> (r: Vec<u8>)
        ensures
            r@ == scheme_seq(*self),
    {
        match self {
            Protocol::Plain => http_bytes(),
            Protocol::Secure => https_bytes(),
        }
    }
}

/// The runtime configuration of the redirect policy: the canonical domain all
/// traffic is steered to, and whether the policy is enforced at all.
pub struct Config {
    pub canonical_domain: Vec<u8>,
    pub enforce_canonical_redirect: bool,
}

impl Config {
    /// A configuration for `domain` with enforcement on, its default.
    pub fn new(domain: Vec<u8>) -> (r: Config)
        ensures
            r.canonical_domain@ == domain@,
            r.enforce_canonical_redirect,
    {
        Config { canonical_domain: domain, enforce_canonical_redirect: true }
    }
}

/// The redirect target the ordered rules assign to a request, or `None` when
/// the request may proceed to the dispatcher:
/// a host without the canonical domain goes to `{scheme}://{domain}{pq}`;
/// a host without `"www."` goes to `{scheme}://www.{domain}{pq}`;
/// a plain-protocol request goes to `https://{host}{pq}`.
pub open spec fn spec_redirect_target(
    host: Seq<u8>,
    pq: Seq<u8>,
    proto: Protocol,
    domain: Seq<u8>,
) -> Option<Seq<u8>> {
    if !contains_seq(host, domain) {
        Option::Some(scheme_seq(proto) + scheme_sep_seq() + domain + pq)
    } else if !contains_seq(host, www_prefix_seq()) {
        Option::Some(scheme_seq(proto) + scheme_sep_seq() + www_prefix_seq() + domain + pq)
    } else if proto == Protocol::Plain {
        Option::Some(https_seq() + scheme_sep_seq() + host + pq)
    } else {
        Option::None
    }
}

/// The decision of the policy under a configuration: the rules' target when
/// enforcement is on, `None` when it is off.
pub open spec fn spec_decide(
    host: Seq<u8>,
    pq: Seq<u8>,
    proto: Protocol,
    domain: Seq<u8>,
    enforce: bool,
) -> Option<Seq<u8>> {
    if enforce {
        spec_redirect_target(host, pq, proto, domain)
    } else {
        Option::None
    }
}

/// Decide whether a request for `path_and_query` on `host` over `proto` is
/// redirected, and where to.
pub fn decide(host: &[u8], path_and_query: &[u8], proto: Protocol, config: &Config) -> (r: Option<
    Vec<u8>,
>)
    ensures
        match r {
            Some(t) => spec_decide(
                host@,
                path_and_query@,
                proto,
                config.canonical_domain@,
                config.enforce_canonical_redirect,
            ) == Option::Some(t@),
            None => spec_decide(
                host@,
                path_and_query@,
                proto,
                config.canonical_domain@,
                config.enforce_canonical_redirect,
            ) is None,
        },
{
    if !config.enforce_canonical_redirect {
        return None;
    }
    let domain = config.canonical_domain.as_slice();
    if !contains_bytes(host, domain) {
        let mut t = proto.scheme();
        append_bytes(&mut t, scheme_sep_bytes().as_slice());
        append_bytes(&mut t, domain);
        append_bytes(&mut t, path_and_query);
        return Some(t);
    }
    if !contains_bytes(host, www_prefix_bytes().as_slice()) {
        let mut t = proto.scheme();
        append_bytes(&mut t, scheme_sep_bytes().as_slice());
        append_bytes(&mut t, www_prefix_bytes().as_slice());
        append_bytes(&mut t, domain);
        append_bytes(&mut t, path_and_query);
        return Some(t);
    }
    if matches!(proto, Protocol::Plain) {
        let mut t = https_bytes();
        append_bytes(&mut t, scheme_sep_bytes().as_slice());
        append_bytes(&mut t, host);
        append_bytes(&mut t, path_and_query);
        return Some(t);
    }
    None
}

/// Every host that does not contain the canonical domain is redirected to the
/// canonical domain itself, under the request's own scheme and path.
pub proof fn lemma_redirect_off_domain(host: Seq<u8>, pq: Seq<u8>, proto: Protocol, domain: Seq<u8>)
    requires
        !contains_seq(host, domain),
    ensures
        spec_redirect_target(host, pq, proto, domain) == Option::Some(
            scheme_seq(proto) + scheme_sep_seq() + domain + pq,
        ),
{
}

/// Every host that contains the canonical domain but not `"www."` is
/// redirected to the host with the `www.` prefix inserted.
pub proof fn lemma_redirect_bare_domain(
    host: Seq<u8>,
    pq: Seq<u8>,
    proto: Protocol,
    domain: Seq<u8>,
)
    requires
        contains_seq(host, domain),
        !contains_seq(host, www_prefix_seq()),
    ensures
        spec_redirect_target(host, pq, proto, domain) == Option::Some(
            scheme_seq(proto) + scheme_sep_seq() + www_prefix_seq() + domain + pq,
        ),
{
}

/// Every plain-protocol request on a fully canonical host is redirected to
/// the secure scheme on the same host and path, whatever the path is.
pub proof fn lemma_redirect_plain_upgrade(host: Seq<u8>, pq: Seq<u8>, domain: Seq<u8>)
    requires
        contains_seq(host, domain),
        contains_seq(host, www_prefix_seq()),
    ensures
        spec_redirect_target(host, pq, Protocol::Plain, domain) == Option::Some(
            https_seq() + scheme_sep_seq() + host + pq,
        ),
{
}

/// Every secure request on a fully canonical host passes through with no
/// redirect, so the dispatcher runs.
pub proof fn lemma_no_redirect_canonical_secure(host: Seq<u8>, pq: Seq<u8>, domain: Seq<u8>)
    requires
        contains_seq(host, domain),
        contains_seq(host, www_prefix_seq()),
    ensures
        spec_redirect_target(host, pq, Protocol::Secure, domain) is None,
{
}

} // verus!
