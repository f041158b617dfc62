use bouncer::command::CommandDataOption;
use bouncer::command::CommandOptionType;
use bouncer::command::CommandOptionValue;
use bouncer::command::CommandOptionsError;
use bouncer::command::parse_arguments;
use bouncer::command::parse_optional_option;
use bouncer::command::parse_required_option;
use bouncer::commands::MeowCommand;
use bouncer::interaction::InteractionResponseType;
use bouncer::schema::CommandOptionField;

fn raw(name: &str, value: CommandOptionValue) -> CommandDataOption {
    CommandDataOption { name: name.to_string(), value }
}

fn field(
    name: &str,
    option_type: CommandOptionType,
    required: bool,
) -> CommandOptionField {
    CommandOptionField {
        name: name.to_string(),
        description: format!("The {name} option"),
        option_type,
        required,
    }
}

#[test]
fn repeat_descriptor_parses_empty_input_with_absent_option() {
    let fields = vec![field("repeat", CommandOptionType::Integer, false)];
    let parsed = parse_arguments(&fields, &Vec::new()).unwrap();

    assert_eq!(parsed.options.len(), 1);
    assert_eq!(parsed.options[0].name, "repeat".to_string());
    assert_eq!(parsed.options[0].value, None);
}

#[test]
fn repeat_descriptor_parses_integer_three() {
    let fields = vec![field("repeat", CommandOptionType::Integer, false)];
    let options = vec![raw("repeat", CommandOptionValue::Integer(3))];
    let parsed = parse_arguments(&fields, &options).unwrap();

    assert_eq!(parsed.options.len(), 1);
    assert_eq!(parsed.options[0].value, Some(CommandOptionValue::Integer(3)));
}

#[test]
fn repeat_descriptor_rejects_string_value() {
    let fields = vec![field("repeat", CommandOptionType::Integer, false)];
    let options = vec![raw("repeat", CommandOptionValue::Text("three".to_string()))];
    let error = parse_arguments(&fields, &options).unwrap_err();

    assert_eq!(
        error,
        CommandOptionsError::UnexpectedOptionType("repeat".to_string(), CommandOptionType::Text)
    );
}

#[test]
fn missing_required_option_aborts_the_whole_parse() {
    let fields = vec![
        field("present", CommandOptionType::Boolean, true),
        field("absent", CommandOptionType::Integer, true),
    ];
    let options = vec![raw("present", CommandOptionValue::Boolean(true))];
    let error = parse_arguments(&fields, &options).unwrap_err();

    assert_eq!(error, CommandOptionsError::MissingRequiredOption("absent".to_string()));
}

#[test]
fn first_failure_wins_over_later_ones() {
    let fields = vec![
        field("first", CommandOptionType::Integer, true),
        field("second", CommandOptionType::Integer, true),
    ];
    let options = vec![raw("first", CommandOptionValue::Boolean(false))];
    let error = parse_arguments(&fields, &options).unwrap_err();

    assert_eq!(
        error,
        CommandOptionsError::UnexpectedOptionType("first".to_string(), CommandOptionType::Boolean)
    );
}

#[test]
fn round_trip_reproduces_the_raw_values() {
    let fields = vec![
        field("count", CommandOptionType::Integer, true),
        field("who", CommandOptionType::User, true),
        field("loud", CommandOptionType::Boolean, false),
        field("note", CommandOptionType::Text, false),
    ];
    let options = vec![
        raw("note", CommandOptionValue::Text("mrrp".to_string())),
        raw("count", CommandOptionValue::Integer(7)),
        raw("who", CommandOptionValue::User(42)),
    ];
    let parsed = parse_arguments(&fields, &options).unwrap();
    let reserialized = parsed.to_options();

    assert_eq!(reserialized.len(), options.len());
    for original in &options {
        let found = reserialized.iter().find(|o| o.name == original.name).unwrap();
        assert_eq!(found, original);
    }
}

#[test]
fn number_values_round_trip_through_their_bits() {
    let fields = vec![field("ratio", CommandOptionType::Number, true)];
    let options = vec![raw("ratio", CommandOptionValue::Number(1.5f64.to_bits()))];
    let parsed = parse_arguments(&fields, &options).unwrap();

    let value = parsed.options[0].value.clone().unwrap();
    match value {
        CommandOptionValue::Number(bits) => assert_eq!(f64::from_bits(bits), 1.5),
        other => panic!("unexpected value {other:?}"),
    }
}

#[test]
fn optional_lookup_is_by_exact_name_first_match() {
    let options = vec![
        raw("other", CommandOptionValue::Integer(1)),
        raw("wanted", CommandOptionValue::Integer(2)),
        raw("wanted", CommandOptionValue::Integer(3)),
    ];
    let value = parse_optional_option(
        &options,
        &"wanted".to_string(),
        CommandOptionType::Integer,
    )
    .unwrap();
    assert_eq!(value, Some(CommandOptionValue::Integer(2)));

    let absent = parse_optional_option(
        &options,
        &"missing".to_string(),
        CommandOptionType::Integer,
    )
    .unwrap();
    assert_eq!(absent, None);
}

#[test]
fn required_lookup_reports_what_it_received() {
    let options = vec![raw("wanted", CommandOptionValue::Role(9))];
    let error = parse_required_option(
        &options,
        &"wanted".to_string(),
        CommandOptionType::Channel,
    )
    .unwrap_err();
    assert_eq!(
        error,
        CommandOptionsError::UnexpectedOptionType("wanted".to_string(), CommandOptionType::Role)
    );

    let missing = parse_required_option(
        &options,
        &"absent".to_string(),
        CommandOptionType::Role,
    )
    .unwrap_err();
    assert_eq!(missing, CommandOptionsError::MissingRequiredOption("absent".to_string()));
}

fn meow_options() -> Vec<CommandDataOption> {
    vec![
        raw("_string", CommandOptionValue::Text("mrrp".to_string())),
        raw("_integer", CommandOptionValue::Integer(5)),
        raw("_boolean", CommandOptionValue::Boolean(true)),
        raw("_user", CommandOptionValue::User(77)),
    ]
}

#[test]
fn meow_command_parses_its_four_required_options() {
    let command = MeowCommand::parse_options(&meow_options()).unwrap();

    assert_eq!(command._string, "mrrp".to_string());
    assert_eq!(command._integer, 5);
    assert!(command._boolean);
    assert_eq!(command._user, 77);
}

#[test]
fn meow_command_rejects_a_missing_required_option() {
    let mut options = meow_options();
    options.remove(1);
    let error = MeowCommand::parse_options(&options).unwrap_err();

    assert_eq!(error, CommandOptionsError::MissingRequiredOption("_integer".to_string()));
}

#[test]
fn meow_command_rejects_a_mistyped_option() {
    let mut options = meow_options();
    options[2] = raw("_boolean", CommandOptionValue::Text("yes".to_string()));
    let error = MeowCommand::parse_options(&options).unwrap_err();

    assert_eq!(
        error,
        CommandOptionsError::UnexpectedOptionType("_boolean".to_string(), CommandOptionType::Text)
    );
}

#[test]
fn meow_command_executes_to_a_channel_message() {
    let command = MeowCommand::parse_options(&meow_options()).unwrap();
    let response = command.execute().unwrap();

    assert_eq!(response.kind, InteractionResponseType::ChannelMessageWithSource);
    assert_eq!(response.content, Some("uwu".to_string()));
}
