//! The route dispatcher: a small fixed table from method and path to a
//! response over the immutable resource store.
//!
//! There is deliberately no error route: the landing page is the universal
//! fallback, so no request ever receives a 4xx or 5xx status.

use vstd::prelude::*;
use crate::bytes::{eq_bytes, sub_vec, trim_bytes, trim_spec};
use crate::favicon::{query_view, select, spec_select, FaviconVariant};
use crate::lit::{
    dc_path_seq, discord_path_seq, favicon_path_seq, get_seq, invite_path_seq, invite_url_seq,
    invites_path_seq,
};
use crate::lit::{
    dc_path_bytes, discord_path_bytes, favicon_path_bytes, get_bytes, invite_path_bytes,
    invite_url_bytes, invites_path_bytes,
};

verus! {

/// The immutable byte payloads the server hands out: the landing page and the
/// three favicon images. Loaded once at startup and never mutated.
pub struct ResourceStore {
    pub page: Vec<u8>,
    pub apple_touch: Vec<u8>,
    pub icon16: Vec<u8>,
    pub icon32: Vec<u8>,
}

/// The mathematical model of a resource store: its four payloads.
pub struct StoreModel {
    pub page: Seq<u8>,
    pub apple_touch: Seq<u8>,
    pub icon16: Seq<u8>,
    pub icon32: Seq<u8>,
}

impl ResourceStore {
    /// The model of this store.
    pub open spec fn view(&self) -> StoreModel {
        StoreModel {
            page: self.page@,
            apple_touch: self.apple_touch@,
            icon16: self.icon16@,
            icon32: self.icon32@,
        }
    }
}

/// A response as the library computes it: a status, an optional `location`
/// header value, and a body.
pub struct HttpResponse {
    pub status: u16,
    pub location: Option<Vec<u8>>,
    pub body: Vec<u8>,
}

/// The mathematical model of a response.
pub struct RespModel {
    pub status: u16,
    pub location: Option<Seq<u8>>,
    pub body: Seq<u8>,
}

impl HttpResponse {
    /// The model of this response.
    pub open spec fn view(&self) -> RespModel {
        RespModel {
            status: self.status,
            location: match self.location {
                Option::Some(l) => Option::Some(l@),
                Option::None => Option::None,
            },
            body: self.body@,
        }
    }
}

/// A permanent redirect to `target`, as the model sees it: status 301, the
/// `location` header set, and an empty body.
pub open spec fn spec_redirect_response(target: Seq<u8>) -> RespModel {
    RespModel { status: 301, location: Option::Some(target), body: Seq::empty() }
}

/// The payload a favicon variant selects; the dispatcher asks only for
/// recognized variants, and an unrecognized one falls back to the page.
pub open spec fn spec_icon_of(store: StoreModel, v: FaviconVariant) -> Seq<u8> {
    match v {
        FaviconVariant::AppleTouch => store.apple_touch,
        FaviconVariant::Size16 => store.icon16,
        FaviconVariant::Size32 => store.icon32,
        FaviconVariant::Unrecognized => store.page,
    }
}

/// Is `path` one of the fixed invite routes?
pub open spec fn spec_is_invite_path(path: Seq<u8>) -> bool {
    path == discord_path_seq() || path == dc_path_seq() || path == invite_path_seq() || path
        == invites_path_seq()
}

/// The response of the fixed route table, in order: `GET /favicon` with a
/// recognized variant serves that icon; `GET` on an invite route redirects to
/// the fixed invite URL; everything else, the favicon route with an
/// unrecognized variant included, serves the whitespace-trimmed landing page.
pub open spec fn spec_dispatch(
    method: Seq<u8>,
    path: Seq<u8>,
    query: Option<Seq<u8>>,
    store: StoreModel,
) -> RespModel {
    if method == get_seq() && path == favicon_path_seq() && spec_select(query)
        != FaviconVariant::Unrecognized {
        RespModel {
            status: 200,
            location: Option::None,
            body: spec_icon_of(store, spec_select(query)),
        }
    } else if method == get_seq() && spec_is_invite_path(path) {
        spec_redirect_response(invite_url_seq())
    } else {
        RespModel { status: 200, location: Option::None, body: trim_spec(store.page) }
    }
}

/// Copy a whole byte payload.
fn copy_bytes(s: &[u8]) -> (r: Vec<u8>)
    ensures
        r@ == s@,
{
    let r = sub_vec(s, 0, s.len());
    assert(s@.subrange(0, s@.len() as int) =~= s@);
    r
}

/// Match `method` and `path` against the fixed route table and produce the
/// response, reading payloads from `store`.
pub fn dispatch(method: &[u8], path: &[u8], query: Option<&[u8]>, store: &ResourceStore) -> (r:
    HttpResponse)
    ensures
        r@ == spec_dispatch(method@, path@, query_view(query), store@),
{
    let is_get = eq_bytes(method, get_bytes().as_slice());
    if is_get && eq_bytes(path, favicon_path_bytes().as_slice()) {
        let variant = select(query);
        match variant {
            FaviconVariant::AppleTouch => {
                return HttpResponse {
                    status: 200,
                    location: None,
                    body: copy_bytes(store.apple_touch.as_slice()),
                };
            },
            FaviconVariant::Size16 => {
                return HttpResponse {
                    status: 200,
                    location: None,
                    body: copy_bytes(store.icon16.as_slice()),
                };
            },
            FaviconVariant::Size32 => {
                return HttpResponse {
                    status: 200,
                    location: None,
                    body: copy_bytes(store.icon32.as_slice()),
                };
            },
            FaviconVariant::Unrecognized => {},
        }
    }
    if is_get && (eq_bytes(path, discord_path_bytes().as_slice()) || eq_bytes(
        path,
        dc_path_bytes().as_slice(),
    ) || eq_bytes(path, invite_path_bytes().as_slice()) || eq_bytes(
        path,
        invites_path_bytes().as_slice(),
    )) {
        return HttpResponse { status: 301, location: Some(invite_url_bytes()), body: Vec::new() };
    }
    HttpResponse { status: 200, location: None, body: trim_bytes(store.page.as_slice()) }
}

} // verus!
