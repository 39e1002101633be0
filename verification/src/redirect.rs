use vstd::prelude::*;
use vstd::string::*;

use crate::request::Header;
use crate::request::RedirectResponse;
use crate::request::RequestParts;
use crate::request::header_lookup;
use crate::request::lower_seq;
use crate::request::str_eq;
use crate::request::str_eq_ignore_ascii_case;
use crate::Redirector;

verus! {

/// Whether `s` is a syntactically valid URI authority (`host[:port]`).
pub uninterp spec fn is_valid_authority(s: Seq<char>) -> bool;

/// Relies on `http::uri::Authority::from_str`: it validates the string
/// against the URI authority grammar, and whether it returns `Ok` depends on
/// the string alone.
#[verifier::external_body]
fn authority_parses(host: &str) -> (r: bool)
    ensures
        r == is_valid_authority(host@),
{
    <http::uri::Authority as core::str::FromStr>::from_str(host).is_ok()
}

/// The policy failed to construct: its configuration is unusable.
#[derive(Debug, PartialEq, Eq, Structural)]
pub enum ConfigError {
    /// The configured host is not a syntactically valid URI authority.
    InvalidAuthority,
}

/// Whether the request's URI carries the `https` scheme; scheme names are
/// compared without regard to ASCII case. A request without a scheme (the
/// common case for direct, origin-form requests) counts as not secure.
pub open spec fn scheme_is_https(scheme: Option<String>) -> bool {
    match scheme {
        Some(s) => lower_seq(s@) == "https"@,
        None => false,
    }
}

/// Whether the headers carry `x-forwarded-proto: https`: the name is matched
/// case-insensitively, the value must equal `https` exactly.
pub open spec fn forwarded_proto_https(headers: Seq<Header>) -> bool {
    match header_lookup(headers, "x-forwarded-proto"@) {
        Some(v) => v == "https"@,
        None => false,
    }
}

/// The redirect target for a request: `https://<host><path>[?<query>]`, with
/// path and query preserved verbatim from the request.
pub open spec fn location_view(host: Seq<char>, path: Seq<char>, query: Option<Seq<char>>) -> Seq<
    char,
> {
    match query {
        Some(q) => "https://"@ + host + path + "?"@ + q,
        None => "https://"@ + host + path,
    }
}

/// The view of an optional query string.
pub open spec fn query_view(query: Option<String>) -> Option<Seq<char>> {
    match query {
        Some(q) => Some(q@),
        None => None,
    }
}

/// No redirect loop: a request that already carries the `https` scheme — as
/// the target of every produced redirect does — is passed through by the
/// same policy that produced the redirect, never redirected again.
pub proof fn lemma_no_redirect_loop(
    policy: HttpsAndHostRedirect,
    req: RequestParts,
    resp: RedirectResponse,
    resolved: RequestParts,
)
    requires
        policy.intercepts_with(req, resp),
        resolved.scheme matches Some(s) && s@ == "https"@,
    ensures
        policy.continues(resolved),
{
    reveal_strlit("https");
    assert(lower_seq("https"@) =~= "https"@);
}

/// The shipped policy: enforce `https`, redirecting violating requests to a
/// configured host.
#[derive(Clone, Debug)]
pub struct HttpsAndHostRedirect {
    host: String,
}

impl HttpsAndHostRedirect {
    /// The configured authority used verbatim in every redirect target.
    pub closed spec fn host_view(&self) -> Seq<char> {
        self.host@
    }

    /// Well-formed: the configured host is a syntactically valid authority.
    pub open spec fn wf(&self) -> bool {
        is_valid_authority(self.host_view())
    }

    /// Construct the policy for a target host (`host` or `host:port`).
    /// Construction fails, and no policy is produced, unless `host` is a
    /// syntactically valid authority.
    pub fn new(host: &str) -> (r: Result<Self, ConfigError>)
        ensures
            r is Ok <==> is_valid_authority(host@),
            (r matches Ok(p) ==> p.wf() && p.host_view() == host@),
            (r matches Err(e) ==> e == ConfigError::InvalidAuthority),
    {
        if authority_parses(host) {
            Ok(HttpsAndHostRedirect { host: String::from_str(host) })
        } else {
            Err(ConfigError::InvalidAuthority)
        }
    }
}

/// Whether the request's headers carry `x-forwarded-proto: https`.
fn headers_forward_https(headers: &Vec<Header>) -> (r: bool)
    ensures
        r == forwarded_proto_https(headers@),
{
    let n = headers.len();
    let mut i: usize = 0;
    proof {
        assert(headers@.skip(0) =~= headers@);
    }
    while i < n
        invariant
            n == headers@.len(),
            i <= n,
            header_lookup(headers@, "x-forwarded-proto"@) == header_lookup(
                headers@.skip(i as int),
                "x-forwarded-proto"@,
            ),
        decreases n - i,
    {
        let h = &headers[i];
        proof {
            assert(headers@.skip(i as int)[0] == headers@[i as int]);
            assert(headers@.skip(i as int).drop_first() =~= headers@.skip(i as int + 1));
        }
        if str_eq_ignore_ascii_case(h.name.as_str(), "x-forwarded-proto") {
            return str_eq(h.value.as_str(), "https");
        }
        i += 1;
    }
    proof {
        assert(headers@.skip(n as int) =~= Seq::<Header>::empty());
    }
    false
}

/// Build the redirect target `https://<host><path>[?<query>]`.
fn build_location(host: &str, path: &str, query: &Option<String>) -> (r: String)
    ensures
        r@ == location_view(host@, path@, query_view(*query)),
{
    let mut target = String::from_str("https://");
    target.append(host);
    target.append(path);
    match query {
        Some(q) => {
            target.append("?");
            target.append(q.as_str());
        },
        None => {},
    }
    target
}

impl Redirector for HttpsAndHostRedirect {
    /// A request continues downstream exactly when its scheme is `https` or
    /// it carries `x-forwarded-proto: https`.
    open spec fn continues(&self, req: RequestParts) -> bool {
        scheme_is_https(req.scheme) || forwarded_proto_https(req.headers@)
    }

    /// An intercepted request draws a `301 Moved Permanently` whose
    /// `Location` is its own path and query on the configured host, under
    /// `https`.
    open spec fn intercepts_with(&self, req: RequestParts, resp: RedirectResponse) -> bool {
        &&& resp.status == 301
        &&& resp.location@ == location_view(self.host_view(), req.path@, query_view(req.query))
    }

    /// This policy never rewrites the request.
    open spec fn request_after(&self, req: RequestParts) -> RequestParts {
        req
    }

    /// This policy holds no mutable state.
    open spec fn state_after(&self, req: RequestParts) -> Self {
        *self
    }

    fn redirect(&mut self, request: &mut RequestParts) -> (r: Result<(), RedirectResponse>) {
        let is_https_uri = match &request.scheme {
            Some(s) => {
                let same = str_eq_ignore_ascii_case(s.as_str(), "https");
                proof {
                    reveal_strlit("https");
                    assert(lower_seq("https"@) =~= "https"@);
                }
                same
            },
            None => false,
        };
        let is_https_forwarded = headers_forward_https(&request.headers);
        if is_https_uri || is_https_forwarded {
            return Ok(());
        }
        let location = build_location(self.host.as_str(), request.path.as_str(), &request.query);
        Err(RedirectResponse { status: 301, location })
    }
}

} // verus!
