use bouncer::command::CommandOption;
use bouncer::command::CommandOptionType;
use bouncer::schema::CommandAttributeFields;
use bouncer::schema::CommandDescriptor;
use bouncer::schema::CommandOptionAttributeFields;
use bouncer::schema::CommandOptionField;
use bouncer::schema::SchemaError;

fn option_field(name: &str, required: bool) -> CommandOptionField {
    CommandOptionField {
        name: name.to_string(),
        description: format!("The {name} option"),
        option_type: CommandOptionType::Integer,
        required,
    }
}

fn meow_attributes() -> CommandAttributeFields {
    CommandAttributeFields { name: "meow".to_string(), description: "Meow!".to_string() }
}

#[test]
fn valid_descriptor_builds_and_registration_is_one_to_one() {
    let options = vec![
        option_field("first", true),
        option_field("second", true),
        option_field("third", false),
    ];
    let descriptor = CommandDescriptor::try_new(meow_attributes(), options).unwrap();

    let registration = descriptor.registration();
    assert_eq!(registration.name, "meow".to_string());
    assert_eq!(registration.description, "Meow!".to_string());
    assert_eq!(registration.options.len(), 3);
    for (entry, field) in registration.options.iter().zip(descriptor.options.iter()) {
        assert_eq!(entry.name, field.name);
        assert_eq!(entry.description, field.description);
        assert_eq!(entry.kind, field.option_type);
        assert_eq!(entry.required, field.required);
    }
    assert_eq!(registration.options[0].name, "first".to_string());
    assert_eq!(registration.options[1].name, "second".to_string());
    assert_eq!(registration.options[2].name, "third".to_string());
}

#[test]
fn empty_option_list_builds() {
    let descriptor = CommandDescriptor::try_new(meow_attributes(), Vec::new()).unwrap();
    assert_eq!(descriptor.registration().options.len(), 0);
}

#[test]
fn required_after_optional_is_collected_in_full() {
    let options = vec![
        option_field("alpha", true),
        option_field("beta", false),
        option_field("gamma", true),
        option_field("delta", false),
        option_field("epsilon", true),
    ];
    let error = CommandDescriptor::try_new(meow_attributes(), options).unwrap_err();

    assert_eq!(
        error,
        SchemaError::RequiredOptionAfterOptional(vec![
            "gamma".to_string(),
            "epsilon".to_string()
        ])
    );
}

#[test]
fn validate_option_order_accepts_required_first() {
    let fields = CommandOptionAttributeFields {
        fields: vec![option_field("alpha", true), option_field("beta", false)],
    };
    assert!(fields.validate_option_order().is_ok());
}

#[test]
fn invalid_command_name_is_rejected_first() {
    let attributes = CommandAttributeFields {
        name: "Meow Command".to_string(),
        description: "Meow!".to_string(),
    };
    let options = vec![option_field("gamma", true), option_field("beta", false)];
    let error = CommandDescriptor::try_new(attributes, options).unwrap_err();
    assert_eq!(error, SchemaError::InvalidCommandName("Meow Command".to_string()));
}

#[test]
fn uppercase_command_name_is_rejected() {
    let attributes =
        CommandAttributeFields { name: "MEOW".to_string(), description: "Meow!".to_string() };
    let error = CommandDescriptor::try_new(attributes, Vec::new()).unwrap_err();
    assert_eq!(error, SchemaError::InvalidCommandName("MEOW".to_string()));
}

#[test]
fn empty_command_name_is_rejected() {
    let attributes =
        CommandAttributeFields { name: String::new(), description: "Meow!".to_string() };
    let error = CommandDescriptor::try_new(attributes, Vec::new()).unwrap_err();
    assert_eq!(error, SchemaError::InvalidCommandName(String::new()));
}

#[test]
fn command_name_of_thirty_three_characters_is_rejected() {
    let name: String = std::iter::repeat('a').take(33).collect();
    let attributes =
        CommandAttributeFields { name: name.clone(), description: "Meow!".to_string() };
    let error = CommandDescriptor::try_new(attributes, Vec::new()).unwrap_err();
    assert_eq!(error, SchemaError::InvalidCommandName(name));
}

#[test]
fn command_name_of_thirty_two_characters_is_accepted() {
    let name: String = std::iter::repeat('a').take(32).collect();
    let attributes =
        CommandAttributeFields { name: name.clone(), description: "Meow!".to_string() };
    let descriptor = CommandDescriptor::try_new(attributes, Vec::new()).unwrap();
    assert_eq!(descriptor.name, name);
}

#[test]
fn empty_description_is_rejected() {
    let attributes =
        CommandAttributeFields { name: "meow".to_string(), description: String::new() };
    let error = CommandDescriptor::try_new(attributes, Vec::new()).unwrap_err();
    assert_eq!(error, SchemaError::InvalidCommandDescription(String::new()));
}

#[test]
fn description_of_one_hundred_one_characters_is_rejected() {
    let description: String = std::iter::repeat('d').take(101).collect();
    let attributes =
        CommandAttributeFields { name: "meow".to_string(), description: description.clone() };
    let error = CommandDescriptor::try_new(attributes, Vec::new()).unwrap_err();
    assert_eq!(error, SchemaError::InvalidCommandDescription(description));
}

#[test]
fn description_of_one_hundred_characters_is_accepted() {
    let description: String = std::iter::repeat('d').take(100).collect();
    let attributes =
        CommandAttributeFields { name: "meow".to_string(), description: description.clone() };
    assert!(CommandDescriptor::try_new(attributes, Vec::new()).is_ok());
}

#[test]
fn invalid_option_name_is_reported_for_the_first_offender() {
    let mut bad = option_field("bad one", true);
    bad.name = "bad one".to_string();
    let options = vec![option_field("alpha", true), bad];
    let error = CommandDescriptor::try_new(meow_attributes(), options).unwrap_err();
    assert_eq!(error, SchemaError::InvalidOptionName("bad one".to_string()));
}

#[test]
fn invalid_option_description_is_reported_under_the_option_name() {
    let mut bad = option_field("beta", true);
    bad.description = String::new();
    let options = vec![option_field("alpha", true), bad];
    let error = CommandDescriptor::try_new(meow_attributes(), options).unwrap_err();
    assert_eq!(error, SchemaError::InvalidOptionDescription("beta".to_string()));
}

#[test]
fn option_texts_are_checked_before_ordering() {
    let mut bad = option_field("beta", true);
    bad.name = "Beta".to_string();
    let options = vec![option_field("alpha", false), bad];
    let error = CommandDescriptor::try_new(meow_attributes(), options).unwrap_err();
    assert_eq!(error, SchemaError::InvalidOptionName("Beta".to_string()));
}

#[test]
fn type_name_table_maps_every_scalar() {
    let cases = [
        ("String", CommandOptionType::Text),
        ("i64", CommandOptionType::Integer),
        ("f64", CommandOptionType::Number),
        ("bool", CommandOptionType::Boolean),
        ("UserMarker", CommandOptionType::User),
        ("ChannelMarker", CommandOptionType::Channel),
        ("RoleMarker", CommandOptionType::Role),
        ("AttachmentMarker", CommandOptionType::Attachment),
    ];
    for (name, expected) in cases {
        assert_eq!(CommandOptionType::from_type_name(&name.to_string()), Some(expected));
    }
    assert_eq!(CommandOptionType::from_type_name(&"u32".to_string()), None);
}

#[test]
fn declared_type_maps_to_required_or_optional() {
    assert_eq!(
        CommandOption::from_declared_type(&"bool".to_string(), false),
        Some(CommandOption::Required(CommandOptionType::Boolean))
    );
    assert_eq!(
        CommandOption::from_declared_type(&"String".to_string(), true),
        Some(CommandOption::Optional(CommandOptionType::Text))
    );
    assert_eq!(CommandOption::from_declared_type(&"Vec".to_string(), true), None);
}
