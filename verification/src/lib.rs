//! Building blocks for forwarding HTTP proxies.
//!
//! A proxy is a pipeline of request handlers: address filters and URI
//! redirectors that decorate one another until a terminal handler forwards
//! the (possibly rewritten) request to an upstream server. This crate
//! verifies that composition model: what a handler chain decides for every
//! caller address and request, and what the server loop does with each
//! outcome. The asynchronous HTTP transport itself is the surrounding
//! program's collaborator: it performs what a [`Step`] asks for and hands
//! the outcome back.

pub mod addr;
pub mod handlers;
pub mod message;
pub mod uri;

use vstd::prelude::*;

verus! {

use crate::addr::SockAddr;
use crate::message::{Request, Response, UpstreamError};

/// What a handler decided for one request: the two computation shapes a
/// decorator must unify. Either the (possibly rewritten) request is to be
/// forwarded upstream and the handler's outcome is [`RequestHandler::finish`]
/// of whatever comes back, or the outcome is already resolved, with no
/// suspension and no outbound call.
#[derive(Debug)]
pub enum Step<E> {
    /// Forward this request through the shared outbound client.
    Forward(Request),
    /// The outcome is already this; the transport is not consulted.
    Resolved(Result<Response, E>),
}

/// Something that can handle a request and give back a response (or an
/// error).
///
/// A handler is invoked with the remote address of the inbound connection
/// and the request, and decides synchronously: [`RequestHandler::handle`]
/// yields a [`Step`]. When the step forwards a request, the server loop
/// issues the outbound call and maps its outcome back through
/// [`RequestHandler::finish`]. Both are exactly their specification
/// functions, so a fixed handler decides every request deterministically.
pub trait RequestHandler {
    /// The failure kind of this handler's outcome.
    type Error;

    /// What [`RequestHandler::handle`] returns.
    spec fn handle_spec(&self, from_addr: SockAddr, request: Request) -> Step<Self::Error>;

    /// What [`RequestHandler::finish`] returns.
    spec fn finish_spec(&self, upstream: Result<Response, UpstreamError>) -> Result<
        Response,
        Self::Error,
    >;

    /// Decide the request: forward it (possibly rewritten), or resolve at
    /// once. The request is consumed; exactly one outcome is produced.
    fn handle(&self, from_addr: SockAddr, request: Request) -> (step: Step<Self::Error>)
        ensures
            step == self.handle_spec(from_addr, request),
    ;

    /// Map the outcome of the outbound call made for a forwarded request
    /// into this handler's own outcome.
    fn finish(&self, upstream: Result<Response, UpstreamError>) -> (result: Result<
        Response,
        Self::Error,
    >)
        ensures
            result == self.finish_spec(upstream),
    ;
}

/// The config of a proxy: where to listen, and the root handler every
/// inbound request enters through.
pub struct ProxyConfig<T: RequestHandler> {
    /// The address where the proxy listens for requests.
    pub listen_on: SockAddr,
    /// The handler that handles the incoming requests.
    pub request_handler: T,
}

/// An error while running the proxy. `B` is the failure kind of binding the
/// listener, `T` the transport's failure kind.
#[derive(Debug)]
pub enum ProxyError<B, T> {
    /// Failed to bind the listener to the configured address.
    BindListener(B),
    /// Failed to start the HTTP server on the bound listener.
    StartServer(T),
    /// The HTTP server stopped with an error while running.
    Serve(T),
}

/// The phases of one server-loop run.
#[derive(Clone, Copy, PartialEq, Eq, Structural, Debug)]
pub enum RunState {
    /// Nothing acquired yet.
    Unbound,
    /// The listen address is bound.
    Bound,
    /// Connections are being accepted.
    Serving,
    /// The transport shut the loop down without an error.
    Stopped,
    /// A fatal failure ended the run.
    Failed,
}

/// What the transport reported for the current phase.
#[derive(Debug)]
pub enum RunEvent<B, T> {
    /// The listen address was bound.
    BindOk,
    /// The listen address could not be bound.
    BindFailed(B),
    /// The server started accepting connections.
    StartOk,
    /// The server could not start on the bound listener.
    StartFailed(T),
    /// The server stopped without an error.
    ServeStopped,
    /// The server stopped with a fatal error.
    ServeFailed(T),
}

/// What the server loop does after a step: go on to the next phase, or
/// resolve the whole run with this outcome.
#[derive(Debug)]
pub enum RunAction<B, T> {
    /// Keep running: the next event decides further.
    Proceed,
    /// The run is over with this result.
    Finish(Result<(), ProxyError<B, T>>),
}

/// Which events can arrive in which phase. `Stopped` and `Failed` are
/// final: no event fits them, so a failed bind can never be followed by
/// serving.
pub open spec fn event_fits<B, T>(state: RunState, event: RunEvent<B, T>) -> bool {
    match (state, event) {
        (RunState::Unbound, RunEvent::BindOk) => true,
        (RunState::Unbound, RunEvent::BindFailed(_)) => true,
        (RunState::Bound, RunEvent::StartOk) => true,
        (RunState::Bound, RunEvent::StartFailed(_)) => true,
        (RunState::Serving, RunEvent::ServeStopped) => true,
        (RunState::Serving, RunEvent::ServeFailed(_)) => true,
        _ => false,
    }
}

/// The transition relation of the run: next phase and action for each
/// fitting event. Every failure is fatal and mapped to its own kind;
/// nothing is retried.
pub open spec fn spec_run_step<B, T>(state: RunState, event: RunEvent<B, T>) -> (RunState, RunAction<
    B,
    T,
>) {
    match event {
        RunEvent::BindOk => (RunState::Bound, RunAction::Proceed),
        RunEvent::BindFailed(error) => (
            RunState::Failed,
            RunAction::Finish(Err(ProxyError::BindListener(error))),
        ),
        RunEvent::StartOk => (RunState::Serving, RunAction::Proceed),
        RunEvent::StartFailed(error) => (
            RunState::Failed,
            RunAction::Finish(Err(ProxyError::StartServer(error))),
        ),
        RunEvent::ServeStopped => (RunState::Stopped, RunAction::Finish(Ok(()))),
        RunEvent::ServeFailed(error) => (
            RunState::Failed,
            RunAction::Finish(Err(ProxyError::Serve(error))),
        ),
    }
}

/// Advance the server loop by one event. The loop that binds, starts and
/// serves performs the transport work and feeds what happened in here; this
/// decides the next phase and whether — and how — the run resolves.
pub fn run_step<B, T>(state: RunState, event: RunEvent<B, T>) -> (outcome: (
    RunState,
    RunAction<B, T>,
))
    requires
        event_fits(state, event),
    ensures
        outcome == spec_run_step(state, event),
{
    match event {
        RunEvent::BindOk => (RunState::Bound, RunAction::Proceed),
        RunEvent::BindFailed(error) => (
            RunState::Failed,
            RunAction::Finish(Err(ProxyError::BindListener(error))),
        ),
        RunEvent::StartOk => (RunState::Serving, RunAction::Proceed),
        RunEvent::StartFailed(error) => (
            RunState::Failed,
            RunAction::Finish(Err(ProxyError::StartServer(error))),
        ),
        RunEvent::ServeStopped => (RunState::Stopped, RunAction::Finish(Ok(()))),
        RunEvent::ServeFailed(error) => (
            RunState::Failed,
            RunAction::Finish(Err(ProxyError::Serve(error))),
        ),
    }
}

/// A bind failure is fatal before anything is served: the run resolves to
/// the bind-failure kind at once, and the failed phase accepts no further
/// event, so in particular the loop never reaches `Serving`.
pub proof fn lemma_bind_failure_is_fatal<B, T>(error: B)
    ensures
        spec_run_step::<B, T>(RunState::Unbound, RunEvent::BindFailed(error)) == (
            RunState::Failed,
            RunAction::<B, T>::Finish(Err(ProxyError::BindListener(error))),
        ),
        forall|event: RunEvent<B, T>| !(#[trigger] event_fits(RunState::Failed, event)),
{
}

} // verus!
