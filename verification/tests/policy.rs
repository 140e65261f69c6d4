use kingland_edge::dispatch::{dispatch, HttpResponse, ResourceStore};
use kingland_edge::favicon::{select, FaviconVariant};
use kingland_edge::handler::{handle, HttpRequest};
use kingland_edge::redirect::{decide, Config, Protocol};

fn b(s: &str) -> Vec<u8> {
    s.as_bytes().to_vec()
}

fn config() -> Config {
    Config::new(b("kingland.id"))
}

fn store() -> ResourceStore {
    ResourceStore {
        page: b("\n  <html>landing</html>  \n"),
        apple_touch: vec![1, 2, 3, 4],
        icon16: vec![16, 16],
        icon32: vec![32, 32, 32],
    }
}

fn assert_redirect(r: &HttpResponse, target: &str) {
    assert_eq!(r.status, 301);
    assert_eq!(r.location.as_deref(), Some(target.as_bytes()));
    assert!(r.body.is_empty());
}

#[test]
fn decide_foreign_host_goes_canonical() {
    let c = config();
    let r = decide(b"example.org", b"/x", Protocol::Secure, &c);
    assert_eq!(r, Some(b("https://kingland.id/x")));
    let r = decide(b"example.org", b"/x", Protocol::Plain, &c);
    assert_eq!(r, Some(b("http://kingland.id/x")));
}

#[test]
fn decide_bare_domain_gains_www() {
    let c = config();
    let r = decide(b"kingland.id", b"/", Protocol::Secure, &c);
    assert_eq!(r, Some(b("https://www.kingland.id/")));
    let r = decide(b"kingland.id", b"/", Protocol::Plain, &c);
    assert_eq!(r, Some(b("http://www.kingland.id/")));
}

#[test]
fn decide_plain_upgrades_to_secure() {
    let c = config();
    for path in ["/", "/abc", "/abc?q=1&t=2"] {
        let r = decide(b"www.kingland.id", path.as_bytes(), Protocol::Plain, &c);
        let expected = format!("https://www.kingland.id{path}");
        assert_eq!(r, Some(expected.into_bytes()));
    }
}

#[test]
fn decide_canonical_secure_passes_through() {
    let c = config();
    let r = decide(b"www.kingland.id", b"/any", Protocol::Secure, &c);
    assert_eq!(r, None);
}

#[test]
fn decide_disabled_never_redirects() {
    let mut c = config();
    c.enforce_canonical_redirect = false;
    let r = decide(b"example.org", b"/x", Protocol::Plain, &c);
    assert_eq!(r, None);
}

#[test]
fn canonical_secure_request_reaches_dispatcher() {
    let req = HttpRequest {
        method: b("GET"),
        path: b("/dc"),
        query: None,
        host: b("www.kingland.id"),
    };
    let r = handle(&req, Protocol::Secure, &config(), &store());
    assert_redirect(&r, "https://discord.gg/PEsARGFup7");
}

#[test]
fn redirect_keeps_query_string() {
    let req = HttpRequest {
        method: b("GET"),
        path: b("/p"),
        query: Some(b("a=1")),
        host: b("kingland.id"),
    };
    let r = handle(&req, Protocol::Secure, &config(), &store());
    assert_redirect(&r, "https://www.kingland.id/p?a=1");
}

#[test]
fn select_recognizes_variants() {
    assert_eq!(select(Some(b"t=favicon16&x=1")), FaviconVariant::Size16);
    assert_eq!(select(Some(b"t=FAVICON32")), FaviconVariant::Size32);
    assert_eq!(select(Some(b"nope")), FaviconVariant::Unrecognized);
    assert_eq!(select(None), FaviconVariant::Unrecognized);
}

#[test]
fn select_matches_by_containment() {
    assert_eq!(select(Some(b"t=xfavicon16x")), FaviconVariant::Size16);
    assert_eq!(select(Some(b"t=my-Apple-icon")), FaviconVariant::AppleTouch);
    assert_eq!(select(Some(b"u=1&t=apple")), FaviconVariant::AppleTouch);
    assert_eq!(select(Some(b"t=favicon&x=32")), FaviconVariant::Unrecognized);
}

#[test]
fn favicon_route_serves_icon_bytes() {
    let st = store();
    let mut c = config();
    c.enforce_canonical_redirect = false;
    let req = HttpRequest {
        method: b("GET"),
        path: b("/favicon"),
        query: Some(b("t=apple")),
        host: b("localhost"),
    };
    let r = handle(&req, Protocol::Plain, &c, &st);
    assert_eq!(r.status, 200);
    assert_eq!(r.location, None);
    assert_eq!(r.body, st.apple_touch);
}

#[test]
fn favicon_route_serves_each_variant() {
    let st = store();
    let r = dispatch(b"GET", b"/favicon", Some(b"t=favicon16"), &st);
    assert_eq!((r.status, r.body), (200, st.icon16.clone()));
    let r = dispatch(b"GET", b"/favicon", Some(b"t=favicon32"), &st);
    assert_eq!((r.status, r.body), (200, st.icon32.clone()));
}

#[test]
fn favicon_route_falls_back_to_page() {
    let st = store();
    let r = dispatch(b"GET", b"/favicon", Some(b"t=bogus"), &st);
    assert_eq!(r.status, 200);
    assert_eq!(r.body, b("<html>landing</html>"));
}

#[test]
fn invite_routes_redirect() {
    let st = store();
    for path in ["/discord", "/dc", "/invite", "/invites"] {
        let r = dispatch(b"GET", path.as_bytes(), None, &st);
        assert_redirect(&r, "https://discord.gg/PEsARGFup7");
    }
}

#[test]
fn invite_route_needs_get() {
    let st = store();
    let r = dispatch(b"POST", b"/dc", None, &st);
    assert_eq!(r.status, 200);
    assert_eq!(r.body, b("<html>landing</html>"));
}

#[test]
fn unmatched_route_serves_trimmed_page() {
    let st = store();
    let r = dispatch(b"GET", b"/anything-unmatched", None, &st);
    assert_eq!(r.status, 200);
    assert_eq!(r.location, None);
    assert_eq!(r.body, b("<html>landing</html>"));
}
