//! A collection of common [`RequestHandler`](crate::RequestHandler)s and
//! combinators.

pub mod filter;
pub mod redirect;

pub use filter::{filter_fn, AddrLookupFilter, Filter, FilterError, FilterFn, FilterLogic};
pub use redirect::{redirect_fn, ChangeAuthority, Redirect, RedirectFn, RedirectLogic};

use vstd::prelude::*;

verus! {

use crate::addr::SockAddr;
use crate::message::{Request, UpstreamError};
use crate::uri::Uri;
use crate::{RequestHandler, Step};

/// The canonical proxy chain — an address filter around a redirect to a
/// fixed destination — decides every request one of two ways. An admitted
/// caller has its request forwarded with the authority replaced by the
/// destination and nothing else touched; any other caller is turned away
/// at once, with the caller address and the untouched request inside the
/// failure, and no request is forwarded for it.
pub proof fn lemma_filtered_redirect_chain(
    chain: Filter<Redirect<ChangeAuthority>, AddrLookupFilter>,
    from_addr: SockAddr,
    request: Request,
)
    ensures
        chain.logic.filter_spec(from_addr, request) ==> chain.handle_spec(from_addr, request)
            == Step::<FilterError<UpstreamError>>::Forward(
            Request {
                method: request.method,
                uri: Uri { authority: Some(chain.inner.logic.to.spec_str()), ..request.uri },
            },
        ),
        !chain.logic.filter_spec(from_addr, request) ==> chain.handle_spec(from_addr, request)
            == Step::<FilterError<UpstreamError>>::Resolved(
            Err(FilterError::FilteredOut(from_addr, request)),
        ),
{
}

} // verus!
