use http_redirect::ConfigError;
use http_redirect::Header;
use http_redirect::HttpsAndHostRedirect;
use http_redirect::PollSignal;
use http_redirect::Readiness;
use http_redirect::Redirect;
use http_redirect::RedirectLayer;
use http_redirect::RequestParts;
use http_redirect::ResponseFuture;

fn header(name: &str, value: &str) -> Header {
    Header { name: name.to_string(), value: value.to_string() }
}

fn request(
    scheme: Option<&str>,
    path: &str,
    query: Option<&str>,
    headers: Vec<Header>,
) -> RequestParts {
    RequestParts {
        method: "GET".to_string(),
        scheme: scheme.map(|s| s.to_string()),
        authority: Some("localhost".to_string()),
        path: path.to_string(),
        query: query.map(|q| q.to_string()),
        headers,
    }
}

fn service(host: &str) -> Redirect<(), HttpsAndHostRedirect> {
    let policy = HttpsAndHostRedirect::new(host).unwrap();
    RedirectLayer::new(policy).layer(())
}

#[test]
fn https_request() {
    let mut svc = service("localhost");
    let mut req = request(
        Some("https"),
        "/",
        None,
        vec![header("host", "localhost"), header("x-forwarded-proto", "https")],
    );
    let res = svc.call(&mut req);
    assert!(res.is_ok());
}

#[test]
fn http_request() {
    let mut svc = service("localhost");
    let mut req = request(
        Some("http"),
        "/",
        None,
        vec![header("host", "localhost"), header("x-forwarded-proto", "http")],
    );
    let res = svc.call(&mut req).unwrap_err();
    assert_eq!(res.status, 301);
    assert_eq!(res.location, "https://localhost/");
}

#[test]
fn plain_http_with_query_redirects() {
    let mut svc = service("localhost");
    let mut req = request(Some("http"), "/foo", Some("x=1"), vec![]);
    let res = svc.call(&mut req).unwrap_err();
    assert_eq!(res.status, 301);
    assert_eq!(res.location, "https://localhost/foo?x=1");
}

#[test]
fn forwarded_https_is_passed_through_unchanged() {
    let mut svc = service("localhost");
    let mut req = request(
        Some("https"),
        "/foo",
        None,
        vec![header("x-forwarded-proto", "https")],
    );
    let before = req.clone();
    let res = svc.call(&mut req);
    assert!(res.is_ok());
    assert_eq!(req, before);
}

#[test]
fn forwarded_header_alone_is_enough() {
    let mut svc = service("localhost");
    let mut req = request(None, "/", None, vec![header("x-forwarded-proto", "https")]);
    assert!(svc.call(&mut req).is_ok());
}

#[test]
fn forwarded_header_name_is_case_insensitive() {
    let mut svc = service("localhost");
    let mut req = request(None, "/", None, vec![header("X-Forwarded-Proto", "https")]);
    assert!(svc.call(&mut req).is_ok());
}

#[test]
fn scheme_match_ignores_ascii_case() {
    let mut svc = service("localhost");
    let mut req = request(Some("HTTPS"), "/", None, vec![]);
    assert!(svc.call(&mut req).is_ok());
}

#[test]
fn forwarded_value_is_case_sensitive() {
    let mut svc = service("localhost");
    let mut req = request(None, "/", None, vec![header("x-forwarded-proto", "HTTPS")]);
    let res = svc.call(&mut req).unwrap_err();
    assert_eq!(res.status, 301);
}

#[test]
fn first_matching_header_decides() {
    let mut svc = service("localhost");
    let mut req = request(
        None,
        "/",
        None,
        vec![header("x-forwarded-proto", "http"), header("x-forwarded-proto", "https")],
    );
    let res = svc.call(&mut req).unwrap_err();
    assert_eq!(res.status, 301);
}

#[test]
fn no_scheme_and_no_header_redirects() {
    let mut svc = service("localhost");
    let mut req = request(None, "/", None, vec![]);
    let res = svc.call(&mut req).unwrap_err();
    assert_eq!(res.status, 301);
    assert_eq!(res.location, "https://localhost/");
}

#[test]
fn empty_query_is_preserved() {
    let mut svc = service("localhost");
    let mut req = request(Some("http"), "/p", Some(""), vec![]);
    let res = svc.call(&mut req).unwrap_err();
    assert_eq!(res.location, "https://localhost/p?");
}

#[test]
fn configured_port_is_kept_in_the_target() {
    let mut svc = service("example.com:8443");
    let mut req = request(Some("http"), "/p", None, vec![]);
    let res = svc.call(&mut req).unwrap_err();
    assert_eq!(res.location, "https://example.com:8443/p");
}

#[test]
fn redirect_target_is_not_redirected_again() {
    let mut svc = service("localhost");
    let mut req = request(Some("http"), "/foo", Some("x=1"), vec![]);
    let res = svc.call(&mut req).unwrap_err();
    assert_eq!(res.location, "https://localhost/foo?x=1");
    let mut resolved = request(Some("https"), "/foo", Some("x=1"), vec![]);
    assert!(svc.call(&mut resolved).is_ok());
}

#[test]
fn invalid_authority_is_rejected_at_construction() {
    let built = HttpsAndHostRedirect::new("::::");
    assert_eq!(built.unwrap_err(), ConfigError::InvalidAuthority);
}

#[test]
fn valid_authorities_are_accepted() {
    assert!(HttpsAndHostRedirect::new("localhost").is_ok());
    assert!(HttpsAndHostRedirect::new("example.com:8443").is_ok());
}

#[test]
fn immediate_result_resolves_exactly_once() {
    let mut fut = ResponseFuture::<(), u16>::redirect(301);
    assert!(!fut.is_resolved());
    let got = fut.resolve();
    assert_eq!(got, 301);
    assert!(fut.is_resolved());
}

#[test]
fn forwarding_result_holds_no_response() {
    let fut = ResponseFuture::<u8, u16>::future(7);
    assert!(!fut.is_resolved());
}

#[test]
fn forwarding_delegates_verbatim() {
    let mut fut = ResponseFuture::<u8, u16>::future(7);
    assert!(matches!(
        fut.poll_forwarding(PollSignal::<u16, u8>::Pending),
        PollSignal::Pending
    ));
    assert!(matches!(
        fut.poll_forwarding(PollSignal::<u16, u8>::Ready(Ok(200))),
        PollSignal::Ready(Ok(200))
    ));
    assert!(matches!(
        fut.poll_forwarding(PollSignal::<u16, u8>::Ready(Err(3))),
        PollSignal::Ready(Err(3))
    ));
}

#[test]
fn readiness_passes_through_unchanged() {
    let policy = HttpsAndHostRedirect::new("localhost").unwrap();
    let mut svc = Redirect::new((), policy);
    assert!(matches!(svc.poll_ready(Readiness::<u8>::Ready), Readiness::Ready));
    assert!(matches!(svc.poll_ready(Readiness::<u8>::Pending), Readiness::Pending));
    assert!(matches!(svc.poll_ready(Readiness::<u8>::Failed(3)), Readiness::Failed(3)));
}
