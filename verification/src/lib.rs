//! Middleware that redirects insecure requests to their `https` equivalent.
//!
//! A pluggable per-request policy ([`Redirector`]) inspects a request's
//! parsed metadata and decides whether to pass it through to the downstream
//! handler or to intercept it with an immediate response. The shipped policy
//! ([`HttpsAndHostRedirect`]) passes a request through when its URI scheme is
//! `https` or it carries an `x-forwarded-proto: https` header, and otherwise
//! intercepts it with a `301 Moved Permanently` response whose `Location`
//! points at the `https` equivalent on a configured host.

use vstd::prelude::*;

mod layer;
mod redirect;
mod request;
mod service;

pub use layer::RedirectLayer;
pub use redirect::ConfigError;
pub use redirect::HttpsAndHostRedirect;
pub use request::Header;
pub use request::RedirectResponse;
pub use request::RequestParts;
pub use service::PollSignal;
pub use service::Readiness;
pub use service::Redirect;
pub use service::ResponseFuture;

verus! {

/// A per-request policy: decide whether a request continues to the
/// downstream handler or is intercepted with an immediate response.
pub trait Redirector: Sized {
    /// Whether the policy lets `req` continue downstream.
    spec fn continues(&self, req: RequestParts) -> bool;

    /// What the policy promises of a response it intercepts `req` with.
    spec fn intercepts_with(&self, req: RequestParts, resp: RedirectResponse) -> bool;

    /// The request as the policy leaves it; a policy may rewrite a request
    /// it passes through.
    spec fn request_after(&self, req: RequestParts) -> RequestParts;

    /// The policy's own state after deciding on `req`.
    spec fn state_after(&self, req: RequestParts) -> Self;

    /// Decide on one request. `Ok(())` means: continue downstream with the
    /// request as it now stands. `Err(resp)` means: short-circuit with `resp`;
    /// the downstream handler is not to be invoked.
    fn redirect(&mut self, request: &mut RequestParts) -> (r: Result<(), RedirectResponse>)
        ensures
            r is Ok <==> old(self).continues(*old(request)),
            (r matches Err(resp) ==> old(self).intercepts_with(*old(request), resp)),
            *final(request) == old(self).request_after(*old(request)),
            *final(self) == old(self).state_after(*old(request)),
    ;
}

} // verus!
