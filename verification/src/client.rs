//! The client: validated construction and the per-iteration decision of
//! its receive loop.
//!
//! The client owns the event source's configuration — the connection token,
//! the intents mask — and the single registered event handler.  Running the
//! connection itself is the surrounding process's duty; the decision taken
//! on each received item is `step`, so a transient receive failure never
//! ends the loop and only exhaustion of the source does.

use vstd::prelude::*;

use crate::event::Event;
use crate::event_handler::Dispatched;
use crate::event_handler::EventHandler;

verus! {

/// Why the client could not be built.
#[derive(Clone, Copy, Debug, PartialEq, Eq, Structural)]
pub enum ClientBuilderError {
    /// The outbound client was given no connection token.
    MissingHTTPClientToken,
    /// No event handler was registered.
    MissingEventHandler,
}

/// A transient failure of the event source while receiving one event.
#[derive(Debug, PartialEq, Eq)]
pub struct TransportError {
    pub message: String,
}

/// A fully built client: its connection token, intents mask and event
/// handler, all validated present.
#[derive(Debug, PartialEq, Eq)]
pub struct Client<H: EventHandler> {
    pub token: String,
    pub intents: u64,
    pub event_handler: H,
}

/// Collects what a client needs before it can be built.
#[derive(Debug, PartialEq, Eq)]
pub struct ClientBuilder<H: EventHandler> {
    pub token: Option<String>,
    pub intents: u64,
    pub event_handler: Option<H>,
}

/// What one iteration of the receive loop decides.
#[derive(Debug, PartialEq, Eq)]
pub enum LoopStep {
    /// The event source is exhausted: the loop ends.
    Exit,
    /// Receiving this one event failed; the failure is reported and the
    /// loop simply continues.
    ContinueAfterError,
    /// The event was dispatched with this outcome.
    Handled(Dispatched),
}

impl<H: EventHandler> Client<H> {
    /// Starts building a client around the given connection token; the
    /// intents mask starts empty and no handler is registered yet.
    pub fn builder(token: &String) -> (r: ClientBuilder<H>)
        ensures
            r.token matches Some(t) && t@ == token@,
            r.intents == 0,
            r.event_handler is None,
    {
        ClientBuilder { token: Some(token.clone()), intents: 0, event_handler: None }
    }

    /// Decides one iteration of the receive loop.  The caller updates its
    /// read cache from the event before calling, so handlers never observe
    /// a cache state older than the event being handled.
    pub fn step(&self, next: Option<Result<Event, TransportError>>) -> (r: LoopStep)
        ensures
            match next {
                None => r == LoopStep::Exit,
                Some(Err(_)) => r == LoopStep::ContinueAfterError,
                Some(Ok(event)) => r matches LoopStep::Handled(d) && {
                    &&& !self.event_handler.subscriptions().spec_contains(event.kind()) ==> d
                        == Dispatched::Skipped
                    &&& self.event_handler.subscriptions().spec_contains(event.kind()) ==> (
                    d matches Dispatched::Invoked(kind, _) && kind == event.kind())
                },
            },
    {
        match next {
            None => LoopStep::Exit,
            Some(Err(_)) => LoopStep::ContinueAfterError,
            Some(Ok(event)) => LoopStep::Handled(event.dispatch(&self.event_handler)),
        }
    }
}

impl<H: EventHandler> ClientBuilder<H> {
    /// Replaces the intents mask the connection is opened with.
    pub fn intents(self, intents: u64) -> (r: Self)
        ensures
            r.intents == intents,
            r.token == self.token,
            r.event_handler == self.event_handler,
    {
        ClientBuilder { intents, ..self }
    }

    /// Registers the event handler.
    pub fn event_handler(self, event_handler: H) -> (r: Self)
        ensures
            r.event_handler == Some(event_handler),
            r.token == self.token,
            r.intents == self.intents,
    {
        ClientBuilder { event_handler: Some(event_handler), ..self }
    }

    /// Finalizes construction: fails when the token or the event handler
    /// is missing, never silently defaulting either.
    pub fn try_build(self) -> (r: Result<Client<H>, ClientBuilderError>)
        ensures
            self.token is None ==> r == Err::<Client<H>, ClientBuilderError>(
                ClientBuilderError::MissingHTTPClientToken,
            ),
            self.token is Some && self.event_handler is None ==> r == Err::<
                Client<H>,
                ClientBuilderError,
            >(ClientBuilderError::MissingEventHandler),
            self.token is Some && self.event_handler is Some ==> (r matches Ok(c) && c.token
                == self.token.unwrap() && c.intents == self.intents && c.event_handler
                == self.event_handler.unwrap()),
    {
        let token = match self.token {
            Some(token) => token,
            None => {
                return Err(ClientBuilderError::MissingHTTPClientToken);
            },
        };
        let event_handler = match self.event_handler {
            Some(event_handler) => event_handler,
            None => {
                return Err(ClientBuilderError::MissingEventHandler);
            },
        };
        Ok(Client { token, intents: self.intents, event_handler })
    }
}

} // verus!
