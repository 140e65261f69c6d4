//! The per-request pipeline: the redirect policy is evaluated first, and only
//! when it yields no target does the route dispatcher run.

use vstd::prelude::*;
use crate::bytes::append_bytes;
use crate::dispatch::{dispatch, spec_dispatch, spec_redirect_response, HttpResponse,
    ResourceStore, StoreModel, RespModel};
use crate::lit::{qmark_bytes, qmark_seq};
use crate::redirect::{decide, spec_decide, Config, Protocol};

verus! {

/// A parsed request as the library sees it: method, path without the query,
/// the raw query string if any, and the `host` header value.
pub struct HttpRequest {
    pub method: Vec<u8>,
    pub path: Vec<u8>,
    pub query: Option<Vec<u8>>,
    pub host: Vec<u8>,
}

/// The mathematical model of a request.
pub struct ReqModel {
    pub method: Seq<u8>,
    pub path: Seq<u8>,
    pub query: Option<Seq<u8>>,
    pub host: Seq<u8>,
}

impl HttpRequest {
    /// The model of this request.
    pub open spec fn view(&self) -> ReqModel {
        ReqModel {
            method: self.method@,
            path: self.path@,
            query: match self.query {
                Option::Some(q) => Option::Some(q@),
                Option::None => Option::None,
            },
            host: self.host@,
        }
    }
}

/// The path with its query string reattached, as redirect targets carry it:
/// `path` alone when there is no query, else `path?query`.
pub open spec fn spec_path_and_query(path: Seq<u8>, query: Option<Seq<u8>>) -> Seq<u8> {
    match query {
        Option::Some(q) => path + qmark_seq() + q,
        Option::None => path,
    }
}

/// The response of the whole pipeline: the redirect policy's target as a 301
/// when it yields one, the dispatcher's response otherwise.
pub open spec fn spec_handle(
    req: ReqModel,
    proto: Protocol,
    domain: Seq<u8>,
    enforce: bool,
    store: StoreModel,
) -> RespModel {
    let pq = spec_path_and_query(req.path, req.query);
    match spec_decide(req.host, pq, proto, domain, enforce) {
        Option::Some(target) => spec_redirect_response(target),
        Option::None => spec_dispatch(req.method, req.path, req.query, store),
    }
}

/// Rebuild the path-and-query of a request.
fn path_and_query(req: &HttpRequest) -> (r: Vec<u8>)
    ensures
        r@ == spec_path_and_query(req.path@, req@.query),
{
    let mut pq: Vec<u8> = Vec::new();
    append_bytes(&mut pq, req.path.as_slice());
    match &req.query {
        Option::Some(q) => {
            append_bytes(&mut pq, qmark_bytes().as_slice());
            append_bytes(&mut pq, q.as_slice());
            assert(pq@ =~= req.path@ + qmark_seq() + q@);
        },
        Option::None => {
            assert(pq@ =~= req.path@);
        },
    }
    pq
}

/// Handle one request arriving over `proto`: apply the redirect policy, and
/// dispatch the fixed routes when it passes the request through.
pub fn handle(req: &HttpRequest, proto: Protocol, config: &Config, store: &ResourceStore) -> (r:
    HttpResponse)
    ensures
        r@ == spec_handle(
            req@,
            proto,
            config.canonical_domain@,
            config.enforce_canonical_redirect,
            store@,
        ),
{
    let pq = path_and_query(req);
    match decide(req.host.as_slice(), pq.as_slice(), proto, config) {
        Option::Some(target) => HttpResponse {
            status: 301,
            location: Some(target),
            body: Vec::new(),
        },
        Option::None => {
            let query: Option<&[u8]> = match &req.query {
                Option::Some(q) => Some(q.as_slice()),
                Option::None => None,
            };
            dispatch(req.method.as_slice(), req.path.as_slice(), query, store)
        },
    }
}

} // verus!
