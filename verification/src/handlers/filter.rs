//! Filtering: decide admission before delegating to an inner handler.

use vstd::prelude::*;

verus! {

use crate::addr::SockAddr;
use crate::message::{Request, Response, UpstreamError};
use crate::uri::Uri;
use crate::{RequestHandler, Step};

/// The exchangeable part of a [`Filter`]: the admission decision.
pub trait FilterLogic {
    /// The admission decision as a predicate over the caller address and
    /// the request. Being a function, the decision is deterministic for a
    /// fixed pair, and evaluating it has no effect.
    spec fn filter_spec(&self, from_addr: SockAddr, request: Request) -> bool;

    /// Return whether the request should be let through.
    fn filter(&self, from_addr: SockAddr, request: &Request) -> (pass: bool)
        ensures
            pass == self.filter_spec(from_addr, *request),
    ;
}

/// The error type for a [`Filter`] used as a
/// [`RequestHandler`](crate::RequestHandler).
#[derive(Debug)]
pub enum FilterError<E> {
    /// The inner request handler returned an error; it is carried
    /// unchanged.
    Inner(E),
    /// The request was rejected. The caller address and the original
    /// request are carried inside the failure, so that whoever maps
    /// failures to responses can still inspect what was turned away.
    FilteredOut(SockAddr, Request),
}

/// How an inner handler's outcome looks after one filter layer: a success
/// is untouched, a failure is wrapped as [`FilterError::Inner`].
pub open spec fn spec_wrap_inner<R, E>(result: Result<R, E>) -> Result<R, FilterError<E>> {
    match result {
        Ok(value) => Ok(value),
        Err(error) => Err(FilterError::Inner(error)),
    }
}

/// Wrap an inner handler's failure as [`FilterError::Inner`], leaving a
/// success untouched.
pub fn wrap_inner<R, E>(result: Result<R, E>) -> (wrapped: Result<R, FilterError<E>>)
    ensures
        wrapped == spec_wrap_inner(result),
{
    match result {
        Ok(value) => Ok(value),
        Err(error) => Err(FilterError::Inner(error)),
    }
}

/// A request handler combinator that filters requests before giving those
/// that passed to another request handler.
///
/// On admission the request is delegated to the inner handler unchanged;
/// on rejection the outcome resolves at once to
/// [`FilterError::FilteredOut`] carrying the caller address and the
/// request, and the inner handler is never consulted.
pub struct Filter<H: RequestHandler, F: FilterLogic> {
    /// The inner request handler to give admitted requests to.
    pub inner: H,
    /// The [`FilterLogic`] providing the filtering functionality.
    pub logic: F,
}

impl<H: RequestHandler, F: FilterLogic> RequestHandler for Filter<H, F> {
    type Error = FilterError<H::Error>;

    open spec fn handle_spec(&self, from_addr: SockAddr, request: Request) -> Step<
        FilterError<H::Error>,
    > {
        if self.logic.filter_spec(from_addr, request) {
            match self.inner.handle_spec(from_addr, request) {
                Step::Forward(forwarded) => Step::Forward(forwarded),
                Step::Resolved(resolved) => Step::Resolved(spec_wrap_inner(resolved)),
            }
        } else {
            Step::Resolved(Err(FilterError::FilteredOut(from_addr, request)))
        }
    }

    open spec fn finish_spec(&self, upstream: Result<Response, UpstreamError>) -> Result<
        Response,
        FilterError<H::Error>,
    > {
        spec_wrap_inner(self.inner.finish_spec(upstream))
    }

    fn handle(&self, from_addr: SockAddr, request: Request) -> (step: Step<
        FilterError<H::Error>,
    >) {
        if self.logic.filter(from_addr, &request) {
            match self.inner.handle(from_addr, request) {
                Step::Forward(forwarded) => Step::Forward(forwarded),
                Step::Resolved(resolved) => Step::Resolved(wrap_inner(resolved)),
            }
        } else {
            Step::Resolved(Err(FilterError::FilteredOut(from_addr, request)))
        }
    }

    fn finish(&self, upstream: Result<Response, UpstreamError>) -> (result: Result<
        Response,
        FilterError<H::Error>,
    >) {
        wrap_inner(self.inner.finish(upstream))
    }
}

/// A [`FilterLogic`] obtained from a function value together with the
/// specification the function obeys.
pub struct FilterFn<F: Fn(SockAddr, Request) -> bool> {
    f: F,
    pred: Ghost<spec_fn(SockAddr, Request) -> bool>,
}

impl<F: Fn(SockAddr, Request) -> bool> FilterFn<F> {
    #[verifier::type_invariant]
    spec fn callable_and_exact(self) -> bool {
        &&& forall|args: (SockAddr, Request)| #[trigger] call_requires(self.f, args)
        &&& forall|args: (SockAddr, Request), decision: bool|
            #[trigger] call_ensures(self.f, args, decision) ==> decision == (self.pred@)(
                args.0,
                args.1,
            )
    }
}

/// Obtain a [`FilterLogic`] from a function/closure.
///
/// The function must accept every caller and request, and `pred` must say
/// exactly what it decides; the resulting logic then admits exactly what
/// `pred` admits.
pub fn filter_fn<F: Fn(SockAddr, Request) -> bool>(
    f: F,
    Ghost(pred): Ghost<spec_fn(SockAddr, Request) -> bool>,
) -> (logic: FilterFn<F>)
    requires
        forall|args: (SockAddr, Request)| #[trigger] call_requires(f, args),
        forall|args: (SockAddr, Request), decision: bool|
            #[trigger] call_ensures(f, args, decision) ==> decision == pred(args.0, args.1),
    ensures
        forall|from_addr: SockAddr, request: Request|
            #[trigger] logic.filter_spec(from_addr, request) == pred(from_addr, request),
{
    FilterFn { f, pred: Ghost(pred) }
}

/// An exact copy of the request, so that a borrowed request can be handed
/// to a function that consumes one.
fn clone_request(request: &Request) -> (cloned: Request)
    ensures
        cloned == *request,
{
    Request {
        method: request.method.clone(),
        uri: Uri {
            scheme: match &request.uri.scheme {
                Some(scheme) => Some(scheme.clone()),
                None => None,
            },
            authority: match &request.uri.authority {
                Some(authority) => Some(authority.clone()),
                None => None,
            },
            path: request.uri.path.clone(),
            query: match &request.uri.query {
                Some(query) => Some(query.clone()),
                None => None,
            },
        },
    }
}

impl<F: Fn(SockAddr, Request) -> bool> FilterLogic for FilterFn<F> {
    closed spec fn filter_spec(&self, from_addr: SockAddr, request: Request) -> bool {
        (self.pred@)(from_addr, request)
    }

    fn filter(&self, from_addr: SockAddr, request: &Request) -> (pass: bool) {
        proof {
            use_type_invariant(self);
        }
        (self.f)(from_addr, clone_request(request))
    }
}

/// A [`FilterLogic`] which just looks the source address up in a list of
/// known addresses and blocks based on if it is included or not.
pub struct AddrLookupFilter {
    /// The list of known addresses. Only membership matters: the order of
    /// the entries, and any repetition among them, never changes a
    /// decision.
    pub list: Vec<SockAddr>,
    /// Whether the filter acts as a blacklist (`true`) or a whitelist
    /// (`false`).
    ///
    /// If it is `true`, all requests from any address in the list will be
    /// blocked and all others will be let through.
    ///
    /// If it is `false`, all requests from any address **not** in the list
    /// will be blocked and all others will be let through.
    pub is_blacklist: bool,
}

impl FilterLogic for AddrLookupFilter {
    open spec fn filter_spec(&self, from_addr: SockAddr, request: Request) -> bool {
        self.is_blacklist != self.list@.contains(from_addr)
    }

    fn filter(&self, from_addr: SockAddr, request: &Request) -> (pass: bool) {
        let mut found = false;
        let mut i: usize = 0;
        while i < self.list.len()
            invariant
                i <= self.list@.len(),
                found == exists|j: int| 0 <= j < i && self.list@[j] == from_addr,
            decreases self.list@.len() - i,
        {
            if self.list[i] == from_addr {
                found = true;
            }
            i = i + 1;
        }
        self.is_blacklist != found
    }
}

impl<H: RequestHandler> Filter<H, AddrLookupFilter> {
    /// A filter that admits exactly the listed addresses.
    pub fn addr_whitelist(inner: H, whitelist: Vec<SockAddr>) -> (filter: Filter<
        H,
        AddrLookupFilter,
    >)
        ensures
            filter == (Filter {
                inner,
                logic: AddrLookupFilter { list: whitelist, is_blacklist: false },
            }),
    {
        Filter { inner, logic: AddrLookupFilter { list: whitelist, is_blacklist: false } }
    }

    /// A filter that admits exactly the addresses not listed.
    pub fn addr_blacklist(inner: H, blacklist: Vec<SockAddr>) -> (filter: Filter<
        H,
        AddrLookupFilter,
    >)
        ensures
            filter == (Filter {
                inner,
                logic: AddrLookupFilter { list: blacklist, is_blacklist: true },
            }),
    {
        Filter { inner, logic: AddrLookupFilter { list: blacklist, is_blacklist: true } }
    }
}

/// Whitelist-mode admission holds exactly for the listed addresses;
/// blacklist-mode admission exactly for the others. Only the caller
/// address is consulted: the request never changes the decision.
pub proof fn lemma_addr_lookup_admission(
    logic: AddrLookupFilter,
    from_addr: SockAddr,
    request: Request,
)
    ensures
        !logic.is_blacklist ==> (logic.filter_spec(from_addr, request) <==> logic.list@.contains(
            from_addr,
        )),
        logic.is_blacklist ==> (logic.filter_spec(from_addr, request) <==> !logic.list@.contains(
            from_addr,
        )),
{
}

/// On an admitted request a filter is a pass-through: its step is the
/// inner handler's step, and its mapping of the upstream outcome is the
/// inner handler's mapping — in both cases with nothing changed but the
/// failure kind, which is wrapped as [`FilterError::Inner`].
pub proof fn lemma_filter_admission_is_passthrough<H: RequestHandler, F: FilterLogic>(
    filter: Filter<H, F>,
    from_addr: SockAddr,
    request: Request,
    upstream: Result<Response, UpstreamError>,
)
    requires
        filter.logic.filter_spec(from_addr, request),
    ensures
        filter.handle_spec(from_addr, request) == (match filter.inner.handle_spec(
            from_addr,
            request,
        ) {
            Step::Forward(forwarded) => Step::<FilterError<H::Error>>::Forward(forwarded),
            Step::Resolved(resolved) => Step::Resolved(spec_wrap_inner(resolved)),
        }),
        filter.finish_spec(upstream) == spec_wrap_inner(filter.inner.finish_spec(upstream)),
{
}

/// On a rejected request a filter short-circuits: the outcome is already
/// resolved to [`FilterError::FilteredOut`] with the caller address and
/// the original request — and it is the same whatever inner handler the
/// filter wraps, so the inner handler is never consulted.
pub proof fn lemma_filter_rejection_short_circuits<H: RequestHandler, F: FilterLogic>(
    filter: Filter<H, F>,
    other_inner: H,
    from_addr: SockAddr,
    request: Request,
)
    requires
        !filter.logic.filter_spec(from_addr, request),
    ensures
        filter.handle_spec(from_addr, request) == Step::<FilterError<H::Error>>::Resolved(
            Err(FilterError::FilteredOut(from_addr, request)),
        ),
        filter.handle_spec(from_addr, request) == (Filter {
            inner: other_inner,
            logic: filter.logic,
        }).handle_spec(from_addr, request),
{
}

} // verus!
