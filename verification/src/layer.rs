use vstd::prelude::*;

use crate::service::Redirect;

verus! {

/// A factory that wraps downstream handlers with the redirect middleware,
/// installing one policy value into each.
#[derive(Clone, Debug)]
pub struct RedirectLayer<R> {
    redirect: R,
}

impl<R> RedirectLayer<R> {
    /// The policy this layer installs.
    pub closed spec fn policy(&self) -> R {
        self.redirect
    }

    /// A layer that installs `redirect` as the policy.
    pub fn new(redirect: R) -> (r: Self)
        ensures
            r.policy() == redirect,
    {
        RedirectLayer { redirect }
    }

    /// Wrap `inner` with the redirect middleware carrying this layer's
    /// policy.
    pub fn layer<S>(self, inner: S) -> (r: Redirect<S, R>)
        ensures
            r.inner == inner,
            r.redirect == self.policy(),
    {
        Redirect::new(inner, self.redirect)
    }
}

} // verus!
