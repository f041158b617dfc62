//! The closed set of inbound event kinds and their payloads.
//!
//! Events arrive as a tagged stream; the payload of each variant holds, as
//! plain values, exactly what the handlers read.

use vstd::prelude::*;

use crate::command::CommandDataOption;
use crate::command::CommandDataOptionModel;

verus! {

/// The payload of a ready event: the session is established.
#[derive(Debug, PartialEq, Eq)]
pub struct Ready {
    /// The display name of the account the session belongs to.
    pub user_name: String,
}

/// A slash-command invocation: the command's name and its raw arguments.
#[derive(Debug, PartialEq, Eq)]
pub struct CommandInvocation {
    pub name: String,
    pub options: Vec<CommandDataOption>,
}

/// Mathematical model of a command invocation.
pub struct CommandInvocationModel {
    pub name: Seq<char>,
    pub options: Seq<CommandDataOptionModel>,
}

impl View for CommandInvocation {
    type V = CommandInvocationModel;

    open spec fn view(&self) -> CommandInvocationModel {
        CommandInvocationModel { name: self.name@, options: self.options.deep_view() }
    }
}

/// What an interaction carries: a command invocation, or some other
/// interaction sort this core does not handle.
#[derive(Debug, PartialEq, Eq)]
pub enum InteractionData {
    ApplicationCommand(CommandInvocation),
    Other,
}

/// The payload of an interaction-created event.
#[derive(Debug, PartialEq, Eq)]
pub struct InteractionCreate {
    pub data: Option<InteractionData>,
}

/// One inbound event.
#[derive(Debug, PartialEq, Eq)]
pub enum Event {
    Ready(Ready),
    InteractionCreate(InteractionCreate),
}

/// The tag of an event, without its payload.
#[derive(Clone, Copy, Debug, PartialEq, Eq, Structural)]
pub enum EventKind {
    Ready,
    InteractionCreate,
}

impl Event {
    /// The kind this event is tagged with.
    pub open spec fn kind(&self) -> EventKind {
        match self {
            Event::Ready(_) => EventKind::Ready,
            Event::InteractionCreate(_) => EventKind::InteractionCreate,
        }
    }
}

/// The set of event kinds a handler has opted into.
#[derive(Clone, Copy, Debug, PartialEq, Eq, Structural)]
pub struct SubscriptionMask {
    pub ready: bool,
    pub interaction_create: bool,
}

impl SubscriptionMask {
    /// Whether the mask includes the given kind.
    pub open spec fn spec_contains(self, kind: EventKind) -> bool {
        match kind {
            EventKind::Ready => self.ready,
            EventKind::InteractionCreate => self.interaction_create,
        }
    }

    /// Whether the mask includes the given kind.
    pub fn contains(self, kind: EventKind) -> (r: bool)
        ensures
            r == self.spec_contains(kind),
    {
        match kind {
            EventKind::Ready => self.ready,
            EventKind::InteractionCreate => self.interaction_create,
        }
    }

    /// The mask that includes no kind at all.
    pub fn empty() -> (r: SubscriptionMask)
        ensures
            forall|kind: EventKind| !r.spec_contains(kind),
    {
        SubscriptionMask { ready: false, interaction_create: false }
    }
}

} // verus!
