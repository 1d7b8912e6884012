//! Redirecting: rewrite the request target, then forward.

use vstd::prelude::*;

verus! {

use crate::addr::SockAddr;
use crate::message::{Request, Response, UpstreamError};
use crate::uri::{Authority, Uri};
use crate::{RequestHandler, Step};

/// The exchangeable part of a [`Redirect`]: a pure rewrite of the request
/// target.
pub trait RedirectLogic {
    /// The rewrite as a function of the target alone.
    spec fn change_uri_spec(&self, uri: Uri) -> Uri;

    /// Rewrite the target in place.
    fn change_uri(&self, uri: &mut Uri)
        ensures
            *final(uri) == self.change_uri_spec(*old(uri)),
    ;
}

/// A request handler that rewrites the request target and forwards the
/// result through the shared outbound client. Whatever the outbound call
/// returns is this handler's outcome unchanged: a redirect introduces no
/// failure kind of its own.
pub struct Redirect<L: RedirectLogic> {
    /// The [`RedirectLogic`] providing the redirect functionality.
    pub logic: L,
}

impl<L: RedirectLogic> RequestHandler for Redirect<L> {
    type Error = UpstreamError;

    open spec fn handle_spec(&self, from_addr: SockAddr, request: Request) -> Step<UpstreamError> {
        Step::Forward(
            Request { method: request.method, uri: self.logic.change_uri_spec(request.uri) },
        )
    }

    open spec fn finish_spec(&self, upstream: Result<Response, UpstreamError>) -> Result<
        Response,
        UpstreamError,
    > {
        upstream
    }

    fn handle(&self, from_addr: SockAddr, request: Request) -> (step: Step<UpstreamError>) {
        let Request { method, mut uri } = request;
        self.logic.change_uri(&mut uri);
        Step::Forward(Request { method, uri })
    }

    fn finish(&self, upstream: Result<Response, UpstreamError>) -> (result: Result<
        Response,
        UpstreamError,
    >) {
        upstream
    }
}

/// A [`RedirectLogic`] which just sets the authority to a specified value.
///
/// For example, configured with the destination `example.com`, it rewrites
/// a target `<own addr>/a/b/c` to `example.com/a/b/c`.
pub struct ChangeAuthority {
    /// The destination authority every request is sent to.
    pub to: Authority,
}

impl RedirectLogic for ChangeAuthority {
    open spec fn change_uri_spec(&self, uri: Uri) -> Uri {
        Uri { authority: Some(self.to.spec_str()), ..uri }
    }

    fn change_uri(&self, uri: &mut Uri) {
        uri.authority = Some(self.to.as_string().clone());
    }
}

impl Redirect<ChangeAuthority> {
    /// A convenience method to get a [`Redirect`]`<`[`ChangeAuthority`]`>`.
    pub fn change_authority(to: Authority) -> (redirect: Redirect<ChangeAuthority>)
        ensures
            redirect == (Redirect { logic: ChangeAuthority { to: to } }),
    {
        Redirect { logic: ChangeAuthority { to: to } }
    }
}

/// A [`RedirectLogic`] obtained from a function value together with the
/// specification the function obeys.
pub struct RedirectFn<F: Fn(Uri) -> Uri> {
    f: F,
    rewrite: Ghost<spec_fn(Uri) -> Uri>,
}

impl<F: Fn(Uri) -> Uri> RedirectFn<F> {
    #[verifier::type_invariant]
    spec fn callable_and_exact(self) -> bool {
        &&& forall|uri: Uri| #[trigger] call_requires(self.f, (uri,))
        &&& forall|uri: Uri, rewritten: Uri|
            #[trigger] call_ensures(self.f, (uri,), rewritten) ==> rewritten == (self.rewrite@)(
                uri,
            )
    }
}

/// Get a [`RedirectLogic`] from a function/closure.
///
/// The function must accept every target, and `rewrite` must say exactly
/// what it returns; the resulting logic then rewrites targets as `rewrite`
/// does.
pub fn redirect_fn<F: Fn(Uri) -> Uri>(f: F, Ghost(rewrite): Ghost<spec_fn(Uri) -> Uri>) -> (logic:
    RedirectFn<F>)
    requires
        forall|uri: Uri| #[trigger] call_requires(f, (uri,)),
        forall|uri: Uri, rewritten: Uri|
            #[trigger] call_ensures(f, (uri,), rewritten) ==> rewritten == rewrite(uri),
    ensures
        forall|uri: Uri| #[trigger] logic.change_uri_spec(uri) == rewrite(uri),
{
    RedirectFn { f, rewrite: Ghost(rewrite) }
}

impl<F: Fn(Uri) -> Uri> RedirectLogic for RedirectFn<F> {
    closed spec fn change_uri_spec(&self, uri: Uri) -> Uri {
        (self.rewrite@)(uri)
    }

    fn change_uri(&self, uri: &mut Uri) {
        proof {
            use_type_invariant(self);
        }
        let mut owned = Uri { scheme: None, authority: None, path: String::new(), query: None };
        core::mem::swap(&mut owned, uri);
        *uri = (self.f)(owned);
    }
}

/// Replacing the authority preserves scheme, path, and query of the target,
/// and puts the configured destination in place of the authority — whatever
/// the target held there before.
pub proof fn lemma_change_authority_rewrites_only_authority(logic: ChangeAuthority, uri: Uri)
    ensures
        logic.change_uri_spec(uri).scheme == uri.scheme,
        logic.change_uri_spec(uri).path == uri.path,
        logic.change_uri_spec(uri).query == uri.query,
        logic.change_uri_spec(uri).authority == Some(logic.to.spec_str()),
{
}

/// Rewriting a target twice with the same destination yields the same
/// target as rewriting it once.
pub proof fn lemma_change_authority_idempotent(logic: ChangeAuthority, uri: Uri)
    ensures
        logic.change_uri_spec(logic.change_uri_spec(uri)) == logic.change_uri_spec(uri),
{
}

} // verus!
