use bouncer::client::Client;
use bouncer::client::ClientBuilderError;
use bouncer::client::LoopStep;
use bouncer::client::TransportError;
use bouncer::command::CommandDataOption;
use bouncer::command::CommandOptionValue;
use bouncer::command::CommandOptionsError;
use bouncer::command::CommandOptionType;
use bouncer::commands::Commands;
use bouncer::commands::CommandsError;
use bouncer::event::CommandInvocation;
use bouncer::event::Event;
use bouncer::event::EventKind;
use bouncer::event::InteractionCreate;
use bouncer::event::InteractionData;
use bouncer::event::Ready;
use bouncer::event::SubscriptionMask;
use bouncer::event_handler::Action;
use bouncer::event_handler::Dispatched;
use bouncer::event_handler::EventHandler;
use bouncer::event_handler::Events;
use bouncer::interaction::InteractionResponseType;

/// A handler that subscribes to ready events alone; its other callback
/// would be visible in the dispatch outcome if it ever ran.
struct ReadyOnlyHandler;

impl EventHandler for ReadyOnlyHandler {
    fn subscriptions(&self) -> SubscriptionMask {
        SubscriptionMask { ready: true, interaction_create: false }
    }

    fn used_event_flags(&self) -> SubscriptionMask {
        SubscriptionMask { ready: true, interaction_create: false }
    }

    fn ready(&self, _ready: &Ready) -> Action {
        Action::Nothing
    }

    fn interaction_create(&self, _interaction_create: &InteractionCreate) -> Action {
        panic!("an unsubscribed callback must never be invoked");
    }
}

fn ready_event() -> Event {
    Event::Ready(Ready { user_name: "bouncer".to_string() })
}

fn invocation_event(name: &str, options: Vec<CommandDataOption>) -> Event {
    Event::InteractionCreate(InteractionCreate {
        data: Some(InteractionData::ApplicationCommand(CommandInvocation {
            name: name.to_string(),
            options,
        })),
    })
}

fn meow_options() -> Vec<CommandDataOption> {
    vec![
        CommandDataOption {
            name: "_string".to_string(),
            value: CommandOptionValue::Text("mrrp".to_string()),
        },
        CommandDataOption { name: "_integer".to_string(), value: CommandOptionValue::Integer(5) },
        CommandDataOption { name: "_boolean".to_string(), value: CommandOptionValue::Boolean(true) },
        CommandDataOption { name: "_user".to_string(), value: CommandOptionValue::User(77) },
    ]
}

#[test]
fn unsubscribed_kind_is_dropped_without_invoking_the_handler() {
    let handler = ReadyOnlyHandler;

    assert_eq!(
        handler.used_event_flags(),
        SubscriptionMask { ready: true, interaction_create: false }
    );

    let outcome = invocation_event("meow", meow_options()).dispatch(&handler);
    assert_eq!(outcome, Dispatched::Skipped);

    let outcome = ready_event().dispatch(&handler);
    assert_eq!(outcome, Dispatched::Invoked(EventKind::Ready, Action::Nothing));
}

#[test]
fn empty_mask_contains_no_kind() {
    let mask = SubscriptionMask::empty();
    assert!(!mask.contains(EventKind::Ready));
    assert!(!mask.contains(EventKind::InteractionCreate));
}

#[test]
fn builder_without_handler_fails_with_missing_event_handler() {
    let result = Client::<Events>::builder(&"SECRET-REDACTED".to_string()).try_build();
    assert_eq!(result.unwrap_err(), ClientBuilderError::MissingEventHandler);
}

#[test]
fn builder_with_handler_builds_the_client() {
    let client = Client::builder(&"SECRET-REDACTED".to_string())
        .intents(3)
        .event_handler(Events)
        .try_build()
        .unwrap();
    assert_eq!(client.intents, 3);
}

#[test]
fn unknown_command_resolution_fails_by_name() {
    let result = Commands::parse_from_command_name(&"unknown".to_string(), &Vec::new());
    assert_eq!(
        result.unwrap_err(),
        CommandsError::CommandNameParseError("unknown".to_string())
    );
}

#[test]
fn known_command_resolution_parses_the_options() {
    let result = Commands::parse_from_command_name(&"meow".to_string(), &meow_options());
    let Commands::Meow(command) = result.unwrap();
    assert_eq!(command._integer, 5);

    let result = Commands::parse_from_command_name(&"meow".to_string(), &Vec::new());
    assert_eq!(
        result.unwrap_err(),
        CommandsError::CommandOptionsError(CommandOptionsError::MissingRequiredOption(
            "_string".to_string()
        ))
    );
}

#[test]
fn all_commands_registers_the_meow_descriptor() {
    let registrations = Commands::all_commands().unwrap();
    assert_eq!(registrations.len(), 1);
    assert_eq!(registrations[0].name, "meow".to_string());
    assert_eq!(registrations[0].description, "Meow!".to_string());
    assert_eq!(registrations[0].options.len(), 4);
    assert_eq!(registrations[0].options[0].name, "_string".to_string());
    assert_eq!(registrations[0].options[0].kind, CommandOptionType::Text);
    assert!(registrations[0].options[0].required);
}

#[test]
fn receive_loop_handles_ready_then_unknown_then_meow() {
    let client = Client::builder(&"SECRET-REDACTED".to_string())
        .event_handler(Events)
        .try_build()
        .unwrap();

    // A ready event asks the loop to register the known commands.
    let step = client.step(Some(Ok(ready_event())));
    match step {
        LoopStep::Handled(Dispatched::Invoked(EventKind::Ready, Action::RegisterCommands(regs))) => {
            assert_eq!(regs.len(), 1);
            assert_eq!(regs[0].name, "meow".to_string());
        }
        other => panic!("unexpected step outcome {other:?}"),
    }

    // An unknown command is reported and dropped; the loop goes on.
    let step = client.step(Some(Ok(invocation_event("unknown", Vec::new()))));
    assert_eq!(
        step,
        LoopStep::Handled(Dispatched::Invoked(
            EventKind::InteractionCreate,
            Action::CommandFailed(CommandsError::CommandNameParseError("unknown".to_string()))
        ))
    );

    // The known command parses and executes to its response.
    let step = client.step(Some(Ok(invocation_event("meow", meow_options()))));
    match step {
        LoopStep::Handled(Dispatched::Invoked(
            EventKind::InteractionCreate,
            Action::Respond(response),
        )) => {
            assert_eq!(response.kind, InteractionResponseType::ChannelMessageWithSource);
            assert_eq!(response.content, Some("uwu".to_string()));
        }
        other => panic!("unexpected step outcome {other:?}"),
    }

    // A transport failure only makes the loop continue.
    let step = client.step(Some(Err(TransportError { message: "decode failure".to_string() })));
    assert_eq!(step, LoopStep::ContinueAfterError);

    // Exhaustion of the source ends the loop.
    let step = client.step(None);
    assert_eq!(step, LoopStep::Exit);
}

#[test]
fn non_command_interactions_are_ignored() {
    let handler = Events;
    let action = handler.interaction_create(&InteractionCreate { data: Some(InteractionData::Other) });
    assert_eq!(action, Action::Nothing);

    let action = handler.interaction_create(&InteractionCreate { data: None });
    assert_eq!(action, Action::Nothing);
}

#[test]
fn ready_handler_assembles_the_registrations() {
    let handler = Events;
    match handler.ready(&Ready { user_name: "bouncer".to_string() }) {
        Action::RegisterCommands(regs) => assert_eq!(regs.len(), 1),
        other => panic!("unexpected action {other:?}"),
    }
}
