//! The handler interface, event dispatch, and the application's handler.
//!
//! A handler declares the event kinds it wants through a subscription mask
//! and provides one callback per kind; each callback returns the action the
//! surrounding loop is to perform.  Dispatch is a pure mapping from an
//! event's tag to the matching callback: a kind outside the mask is dropped
//! before any callback runs.

use vstd::prelude::*;

use crate::command::CommandExecuteError;
use crate::commands::Commands;
use crate::commands::CommandsError;
use crate::commands::CommandsErrorModel;
use crate::commands::meow_option_fields;
use crate::commands::meow_parse_spec;
use crate::event::Event;
use crate::event::EventKind;
use crate::event::InteractionCreate;
use crate::event::InteractionData;
use crate::event::Ready;
use crate::event::SubscriptionMask;
use crate::interaction::InteractionResponse;
use crate::interaction::InteractionResponseType;
use crate::schema::Registration;
use crate::schema::SchemaError;
use crate::schema::SchemaErrorModel;
use crate::schema::construct_spec;
use crate::schema::registration_of;

verus! {

/// What a handler callback asks the surrounding loop to do.
#[derive(Debug, PartialEq, Eq)]
pub enum Action {
    /// Nothing to perform.
    Nothing,
    /// Replace the full set of registered commands with these registration
    /// objects.
    RegisterCommands(Vec<Registration>),
    /// Registration could not even be assembled: some descriptor is
    /// invalid, and nothing may be submitted.
    RegisterFailed(SchemaError),
    /// Post this response to the interaction being handled.
    Respond(InteractionResponse),
    /// The invocation could not be resolved or parsed; it is dropped and
    /// the failure reported.
    CommandFailed(CommandsError),
    /// The command parsed but its execution failed.
    ExecuteFailed(CommandExecuteError),
}

/// A capability-scoped event handler: it declares the event kinds it wants
/// and provides one callback per kind.
pub trait EventHandler {
    /// The kinds this handler subscribes to.
    spec fn subscriptions(&self) -> SubscriptionMask;

    /// The subscription mask, computed once and handed to the event source
    /// so unsubscribed kinds can be filtered upstream.
    fn used_event_flags(&self) -> (r: SubscriptionMask)
        ensures
            r == self.subscriptions(),
    ;

    /// Called for each ready event the handler subscribed to.
    fn ready(&self, ready: &Ready) -> Action;

    /// Called for each interaction-created event the handler subscribed
    /// to.
    fn interaction_create(&self, interaction_create: &InteractionCreate) -> Action;
}

/// The outcome of dispatching one event.
#[derive(Debug, PartialEq, Eq)]
pub enum Dispatched {
    /// The handler is not subscribed to the event's kind: no callback was
    /// invoked and no action is owed.
    Skipped,
    /// The callback matching the given kind ran and returned this action.
    Invoked(EventKind, Action),
}

impl Event {
    /// Fans the event out to the handler: the callback matching the
    /// event's tag runs exactly when the handler subscribes to that kind;
    /// an unsubscribed event is dropped without invoking anything.
    pub fn dispatch<H: EventHandler>(self, handler: &H) -> (r: Dispatched)
        ensures
            !handler.subscriptions().spec_contains(self.kind()) ==> r == Dispatched::Skipped,
            handler.subscriptions().spec_contains(self.kind()) ==> (r matches Dispatched::Invoked(
                kind,
                _,
            ) && kind == self.kind()),
    {
        let flags = handler.used_event_flags();
        match &self {
            Event::Ready(ready) => {
                if flags.ready {
                    Dispatched::Invoked(EventKind::Ready, handler.ready(ready))
                } else {
                    Dispatched::Skipped
                }
            },
            Event::InteractionCreate(interaction_create) => {
                if flags.interaction_create {
                    Dispatched::Invoked(
                        EventKind::InteractionCreate,
                        handler.interaction_create(interaction_create),
                    )
                } else {
                    Dispatched::Skipped
                }
            },
        }
    }
}

/// The application's handler: it registers the known commands once the
/// session is ready and routes command invocations through the registry.
#[derive(Debug, PartialEq, Eq)]
pub struct Events;

impl Events {
    /// Assembles the registration objects of every known command, to be
    /// submitted in bulk; nothing is handed out if any descriptor is
    /// invalid.
    pub fn register_commands() -> (r: Result<Vec<Registration>, SchemaError>)
        ensures
            match r {
                Ok(regs) => {
                    &&& construct_spec("meow"@, "Meow!"@, meow_option_fields()) is Ok
                    &&& regs.deep_view().len() == 1
                    &&& regs.deep_view()[0] == registration_of(
                        "meow"@,
                        "Meow!"@,
                        meow_option_fields(),
                    )
                },
                Err(e) => construct_spec("meow"@, "Meow!"@, meow_option_fields()) == Err::<
                    (),
                    SchemaErrorModel,
                >(e@),
            },
    {
        Commands::all_commands()
    }
}

impl EventHandler for Events {
    open spec fn subscriptions(&self) -> SubscriptionMask {
        SubscriptionMask { ready: true, interaction_create: true }
    }

    fn used_event_flags(&self) -> (r: SubscriptionMask) {
        SubscriptionMask { ready: true, interaction_create: true }
    }

    /// Once ready, ask the loop to register the known commands; when some
    /// descriptor is invalid, nothing is submitted and the defect is
    /// reported instead.
    fn ready(&self, ready: &Ready) -> (r: Action)
        ensures
            construct_spec("meow"@, "Meow!"@, meow_option_fields()) is Ok ==> (r matches
                Action::RegisterCommands(regs) && regs.deep_view().len() == 1
                && regs.deep_view()[0] == registration_of("meow"@, "Meow!"@, meow_option_fields())),
            construct_spec("meow"@, "Meow!"@, meow_option_fields()) is Err ==> (r matches
                Action::RegisterFailed(e) && construct_spec("meow"@, "Meow!"@, meow_option_fields())
                == Err::<(), SchemaErrorModel>(e@)),
    {
        match Events::register_commands() {
            Ok(registrations) => Action::RegisterCommands(registrations),
            Err(e) => Action::RegisterFailed(e),
        }
    }

    /// Route a command invocation through the registry: resolve the name,
    /// parse the raw arguments, execute the parsed command, and hand the
    /// loop the response to post; every failure is scoped to this one
    /// invocation.
    fn interaction_create(&self, interaction_create: &InteractionCreate) -> (r: Action)
        ensures
            match &interaction_create.data {
                Some(InteractionData::ApplicationCommand(invocation)) => {
                    if invocation.name@ == "meow"@ {
                        match meow_parse_spec(invocation.options.deep_view()) {
                            Ok(_) => r matches Action::Respond(resp) && resp@.kind
                                == InteractionResponseType::ChannelMessageWithSource
                                && resp@.content == Some("uwu"@),
                            Err(oe) => r matches Action::CommandFailed(e) && e@
                                == CommandsErrorModel::CommandOptionsError(oe),
                        }
                    } else {
                        r matches Action::CommandFailed(e) && e@
                            == CommandsErrorModel::CommandNameParseError(invocation.name@)
                    }
                },
                _ => r == Action::Nothing,
            },
    {
        match &interaction_create.data {
            Some(InteractionData::ApplicationCommand(invocation)) => {
                match Commands::parse_from_command_name(&invocation.name, &invocation.options) {
                    Ok(command) => match command {
                        Commands::Meow(meow) => match meow.execute() {
                            Ok(response) => Action::Respond(response),
                            Err(e) => Action::ExecuteFailed(e),
                        },
                    },
                    Err(e) => Action::CommandFailed(e),
                }
            },
            _ => Action::Nothing,
        }
    }
}

} // verus!
