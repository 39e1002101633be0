use vstd::prelude::*;

use crate::request::RedirectResponse;
use crate::request::RequestParts;
use crate::Redirector;

verus! {

/// Middleware that wraps a downstream handler `S` with a redirect policy `R`:
/// each dispatch consults the policy once and either forwards the request to
/// the downstream handler or short-circuits with the policy's response.
/// Duplicating it (for concurrent dispatch) copies the handler and the
/// policy; duplicates share no state.
#[derive(Clone, Debug)]
pub struct Redirect<S, R> {
    /// The downstream handler. The middleware never touches it on the
    /// intercept path; the caller drives it on the forward path.
    pub inner: S,
    /// The redirect policy consulted once per dispatch.
    pub redirect: R,
}

/// A readiness signal, as the downstream handler reports it to the host
/// pipeline: ready to accept a dispatch, failed, or not ready yet.
pub enum Readiness<E> {
    Ready,
    Failed(E),
    Pending,
}

impl<S, R> Redirect<S, R> {
    /// Wrap `inner` so that `redirect` decides each request's fate first.
    pub fn new(inner: S, redirect: R) -> (r: Self)
        ensures
            r.inner == inner,
            r.redirect == redirect,
    {
        Redirect { inner, redirect }
    }

    /// The middleware's readiness is the downstream handler's readiness,
    /// passed through unchanged: the middleware adds no capacity limit of
    /// its own, and reports ready exactly when the downstream handler does.
    pub fn poll_ready<E>(&mut self, inner_readiness: Readiness<E>) -> (r: Readiness<E>)
        ensures
            r == inner_readiness,
            *final(self) == *old(self),
    {
        inner_readiness
    }
}

impl<S, R: Redirector> Redirect<S, R> {
    /// Dispatch one request: consult the policy exactly once. `Ok(())` means
    /// the caller must invoke the downstream handler exactly once with the
    /// request as this call leaves it, and return that handler's result
    /// unchanged. `Err(resp)` means the caller must resolve immediately with
    /// `resp` and leave the downstream handler untouched.
    pub fn call(&mut self, request: &mut RequestParts) -> (r: Result<(), RedirectResponse>)
        ensures
            r is Ok <==> old(self).redirect.continues(*old(request)),
            (r matches Err(resp) ==> old(self).redirect.intercepts_with(*old(request), resp)),
            *final(request) == old(self).redirect.request_after(*old(request)),
            final(self).redirect == old(self).redirect.state_after(*old(request)),
            final(self).inner == old(self).inner,
    {
        self.redirect.redirect(request)
    }
}

/// What one resolution attempt of a downstream pending result yields: still
/// pending, or ready with the downstream handler's own result — a response,
/// or the handler's error.
pub enum PollSignal<T, E> {
    Pending,
    Ready(Result<T, E>),
}

enum Kind<F, T> {
    Future { future: F },
    Redirect { response: Option<T> },
}

/// The asynchronous result of one dispatch: either `Forwarding` — delegate
/// to the downstream handler's still-pending result `F` — or `Immediate` —
/// already resolved to a response `T`. The state is fixed at construction;
/// an immediate result resolves exactly once.
pub struct ResponseFuture<F, T> {
    kind: Kind<F, T>,
}

impl<F, T> ResponseFuture<F, T> {
    /// In the forwarding state: resolution delegates to the downstream
    /// handler's pending result.
    pub closed spec fn is_forwarding(&self) -> bool {
        self.kind matches Kind::Future { .. }
    }

    /// In the immediate state: constructed already holding its response.
    pub closed spec fn is_immediate(&self) -> bool {
        self.kind matches Kind::Redirect { .. }
    }

    /// The response an immediate result still holds, if any; `None` once it
    /// has resolved, and always `None` in the forwarding state.
    pub closed spec fn pending_response(&self) -> Option<T> {
        match self.kind {
            Kind::Redirect { response } => response,
            Kind::Future { .. } => None,
        }
    }

    /// Whether this forwarding result delegates to `f`.
    pub closed spec fn forwards_to(&self, f: F) -> bool {
        match self.kind {
            Kind::Future { future } => future == f,
            Kind::Redirect { .. } => false,
        }
    }

    /// A result that delegates to the downstream pending result `future`.
    pub fn future(future: F) -> (r: Self)
        ensures
            r.is_forwarding(),
            r.forwards_to(future),
    {
        ResponseFuture { kind: Kind::Future { future } }
    }

    /// A result already resolved to `response`: the downstream handler was
    /// never involved, and the response is held until `resolve` takes it.
    pub fn redirect(response: T) -> (r: Self)
        ensures
            r.is_immediate(),
            r.pending_response() == Some(response),
    {
        ResponseFuture { kind: Kind::Redirect { response: Some(response) } }
    }

    /// Resolve an immediate result: take the held response out, exactly
    /// once. Afterwards nothing is held, so a second resolution is ruled out
    /// by this call's own precondition.
    pub fn resolve(&mut self) -> (r: T)
        requires
            old(self).is_immediate(),
            old(self).pending_response() is Some,
        ensures
            Some(r) == old(self).pending_response(),
            final(self).is_immediate(),
            final(self).pending_response() is None,
    {
        let mut spent: Kind<F, T> = Kind::Redirect { response: None };
        core::mem::swap(&mut self.kind, &mut spent);
        match spent {
            Kind::Redirect { response } => match response {
                Some(resp) => resp,
                None => vstd::pervasive::unreached(),
            },
            Kind::Future { future: _ } => vstd::pervasive::unreached(),
        }
    }

    /// A forwarding result delegates each resolution attempt verbatim: the
    /// signal the downstream pending result yields — pending, a response,
    /// or an error — passes through with no translation. An immediate
    /// result, by contrast, never reports an error; it resolves through
    /// `resolve`.
    pub fn poll_forwarding<E>(&mut self, inner_signal: PollSignal<T, E>) -> (r: PollSignal<T, E>)
        requires
            old(self).is_forwarding(),
        ensures
            r == inner_signal,
            *final(self) == *old(self),
    {
        inner_signal
    }

    /// Whether this is an immediate result that has already given up its
    /// response.
    pub fn is_resolved(&self) -> (b: bool)
        ensures
            b == (self.is_immediate() && self.pending_response() is None),
    {
        match &self.kind {
            Kind::Redirect { response } => response.is_none(),
            Kind::Future { .. } => false,
        }
    }
}

} // verus!
