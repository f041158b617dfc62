//! The closed set of known commands.
//!
//! Each command declares its schema once; the registry resolves an
//! incoming command name to the matching parser and exposes the parsed
//! instance behind one variant per command.

use vstd::prelude::*;

use crate::command::CommandDataOption;
use crate::command::CommandDataOptionModel;
use crate::command::CommandExecuteError;
use crate::command::CommandOptionType;
use crate::command::CommandOptionValue;
use crate::command::CommandOptionsError;
use crate::command::CommandOptionsErrorModel;
use crate::command::parse_field;
use crate::command::parse_required_option;
use crate::interaction::InteractionResponse;
use crate::interaction::InteractionResponseType;
use crate::schema::CommandAttributeFields;
use crate::schema::CommandDescriptor;
use crate::schema::CommandOptionField;
use crate::schema::CommandOptionFieldModel;
use crate::schema::Registration;
use crate::schema::SchemaError;
use crate::schema::SchemaErrorModel;
use crate::schema::construct_spec;
use crate::schema::registration_of;

verus! {

/// The example command: four required options, one of each of the text,
/// integer, boolean and user scalar types.
#[derive(Debug, PartialEq, Eq)]
pub struct MeowCommand {
    pub _string: String,
    pub _integer: i64,
    pub _boolean: bool,
    pub _user: u64,
}

/// Mathematical model of a parsed example command.
pub struct MeowCommandModel {
    pub _string: Seq<char>,
    pub _integer: i64,
    pub _boolean: bool,
    pub _user: u64,
}

impl View for MeowCommand {
    type V = MeowCommandModel;

    open spec fn view(&self) -> MeowCommandModel {
        MeowCommandModel {
            _string: self._string@,
            _integer: self._integer,
            _boolean: self._boolean,
            _user: self._user,
        }
    }
}

/// The option schema the example command declares.
pub open spec fn meow_option_fields() -> Seq<CommandOptionFieldModel> {
    seq![
        CommandOptionFieldModel {
            name: "_string"@,
            description: "Test string option"@,
            option_type: CommandOptionType::Text,
            required: true,
        },
        CommandOptionFieldModel {
            name: "_integer"@,
            description: "Test integer option"@,
            option_type: CommandOptionType::Integer,
            required: true,
        },
        CommandOptionFieldModel {
            name: "_boolean"@,
            description: "Test boolean option"@,
            option_type: CommandOptionType::Boolean,
            required: true,
        },
        CommandOptionFieldModel {
            name: "_user"@,
            description: "Test user option"@,
            option_type: CommandOptionType::User,
            required: true,
        },
    ]
}

/// What parsing a raw argument list into the example command yields: its
/// four required options are looked up in declaration order and the first
/// failure wins.
pub open spec fn meow_parse_spec(options: Seq<CommandDataOptionModel>) -> Result<
    MeowCommandModel,
    CommandOptionsErrorModel,
> {
    match parse_field("_string"@, CommandOptionType::Text, true, options) {
        Err(e) => Err(e),
        Ok(sv) => match parse_field("_integer"@, CommandOptionType::Integer, true, options) {
            Err(e) => Err(e),
            Ok(iv) => match parse_field("_boolean"@, CommandOptionType::Boolean, true, options) {
                Err(e) => Err(e),
                Ok(bv) => match parse_field("_user"@, CommandOptionType::User, true, options) {
                    Err(e) => Err(e),
                    Ok(uv) => Ok(
                        MeowCommandModel {
                            _string: sv.unwrap()->Text_0,
                            _integer: iv.unwrap()->Integer_0,
                            _boolean: bv.unwrap()->Boolean_0,
                            _user: uv.unwrap()->User_0,
                        },
                    ),
                },
            },
        },
    }
}

impl MeowCommand {
    /// The name the command is registered and invoked under.
    pub fn command_name() -> (r: &'static str)
        ensures
            r@ == "meow"@,
    {
        "meow"
    }

    /// Builds the command's descriptor from its declared attributes and
    /// option schema.
    pub fn command() -> (r: Result<CommandDescriptor, SchemaError>)
        ensures
            match r {
                Ok(d) => {
                    &&& construct_spec("meow"@, "Meow!"@, meow_option_fields()) is Ok
                    &&& d.name@ == "meow"@
                    &&& d.description@ == "Meow!"@
                    &&& d.options.deep_view() == meow_option_fields()
                },
                Err(e) => construct_spec("meow"@, "Meow!"@, meow_option_fields()) == Err::<
                    (),
                    SchemaErrorModel,
                >(e@),
            },
    {
        let attributes = CommandAttributeFields {
            name: "meow".to_owned(),
            description: "Meow!".to_owned(),
        };
        let mut options: Vec<CommandOptionField> = Vec::new();
        options.push(
            CommandOptionField {
                name: "_string".to_owned(),
                description: "Test string option".to_owned(),
                option_type: CommandOptionType::Text,
                required: true,
            },
        );
        options.push(
            CommandOptionField {
                name: "_integer".to_owned(),
                description: "Test integer option".to_owned(),
                option_type: CommandOptionType::Integer,
                required: true,
            },
        );
        options.push(
            CommandOptionField {
                name: "_boolean".to_owned(),
                description: "Test boolean option".to_owned(),
                option_type: CommandOptionType::Boolean,
                required: true,
            },
        );
        options.push(
            CommandOptionField {
                name: "_user".to_owned(),
                description: "Test user option".to_owned(),
                option_type: CommandOptionType::User,
                required: true,
            },
        );
        assert(options.deep_view() =~= meow_option_fields());
        CommandDescriptor::try_new(attributes, options)
    }

    /// Parses a raw argument list into the typed command instance.
    pub fn parse_options(options: &Vec<CommandDataOption>) -> (r: Result<
        MeowCommand,
        CommandOptionsError,
    >)
        ensures
            match r {
                Ok(cmd) => meow_parse_spec(options.deep_view()) == Ok::<
                    MeowCommandModel,
                    CommandOptionsErrorModel,
                >(cmd@),
                Err(e) => meow_parse_spec(options.deep_view()) == Err::<
                    MeowCommandModel,
                    CommandOptionsErrorModel,
                >(e@),
            },
    {
        let value_string = match parse_required_option(
            options,
            &"_string".to_owned(),
            CommandOptionType::Text,
        ) {
            Ok(v) => v,
            Err(e) => {
                return Err(e);
            },
        };
        let value_integer = match parse_required_option(
            options,
            &"_integer".to_owned(),
            CommandOptionType::Integer,
        ) {
            Ok(v) => v,
            Err(e) => {
                return Err(e);
            },
        };
        let value_boolean = match parse_required_option(
            options,
            &"_boolean".to_owned(),
            CommandOptionType::Boolean,
        ) {
            Ok(v) => v,
            Err(e) => {
                return Err(e);
            },
        };
        let value_user = match parse_required_option(
            options,
            &"_user".to_owned(),
            CommandOptionType::User,
        ) {
            Ok(v) => v,
            Err(e) => {
                return Err(e);
            },
        };
        let _string = match value_string {
            CommandOptionValue::Text(s) => s,
            _ => {
                proof {
                    assert(false);
                }
                vstd::pervasive::unreached()
            },
        };
        let _integer = match value_integer {
            CommandOptionValue::Integer(i) => i,
            _ => {
                proof {
                    assert(false);
                }
                vstd::pervasive::unreached()
            },
        };
        let _boolean = match value_boolean {
            CommandOptionValue::Boolean(b) => b,
            _ => {
                proof {
                    assert(false);
                }
                vstd::pervasive::unreached()
            },
        };
        let _user = match value_user {
            CommandOptionValue::User(id) => id,
            _ => {
                proof {
                    assert(false);
                }
                vstd::pervasive::unreached()
            },
        };
        Ok(MeowCommand { _string, _integer, _boolean, _user })
    }

    /// Executes the command: it answers with a fixed channel message.
    pub fn execute(&self) -> (r: Result<InteractionResponse, CommandExecuteError>)
        ensures
            r matches Ok(resp) && resp@.kind == InteractionResponseType::ChannelMessageWithSource
                && resp@.content == Some("uwu"@),
    {
        Ok(
            InteractionResponse {
                kind: InteractionResponseType::ChannelMessageWithSource,
                content: Some("uwu".to_owned()),
            },
        )
    }
}

/// Why resolving or parsing an incoming invocation failed.
#[derive(Debug, PartialEq, Eq)]
pub enum CommandsError {
    /// No command is registered under the given name.
    CommandNameParseError(String),
    /// The name resolved but its raw arguments did not parse.
    CommandOptionsError(CommandOptionsError),
}

/// Mathematical model of a resolution failure.
pub enum CommandsErrorModel {
    CommandNameParseError(Seq<char>),
    CommandOptionsError(CommandOptionsErrorModel),
}

impl View for CommandsError {
    type V = CommandsErrorModel;

    open spec fn view(&self) -> CommandsErrorModel {
        match self {
            CommandsError::CommandNameParseError(n) => CommandsErrorModel::CommandNameParseError(
                n@,
            ),
            CommandsError::CommandOptionsError(e) => CommandsErrorModel::CommandOptionsError(e@),
        }
    }
}

/// The closed set of known, parsed commands.
#[derive(Debug, PartialEq, Eq)]
pub enum Commands {
    Meow(MeowCommand),
}

impl Commands {
    /// Resolves an incoming command name and parses its raw arguments:
    /// an unknown name is rejected as such, a known one delegates to that
    /// command's parser.
    pub fn parse_from_command_name(name: &String, options: &Vec<CommandDataOption>) -> (r: Result<
        Commands,
        CommandsError,
    >)
        ensures
            name@ == "meow"@ ==> match r {
                Ok(c) => c matches Commands::Meow(cmd) && meow_parse_spec(options.deep_view())
                    == Ok::<MeowCommandModel, CommandOptionsErrorModel>(cmd@),
                Err(e) => e@ matches CommandsErrorModel::CommandOptionsError(oe)
                    && meow_parse_spec(options.deep_view()) == Err::<
                    MeowCommandModel,
                    CommandOptionsErrorModel,
                >(oe),
            },
            name@ != "meow"@ ==> (r matches Err(e) && e@
                == CommandsErrorModel::CommandNameParseError(name@)),
    {
        if name.eq(&MeowCommand::command_name().to_owned()) {
            match MeowCommand::parse_options(options) {
                Ok(cmd) => Ok(Commands::Meow(cmd)),
                Err(e) => Err(CommandsError::CommandOptionsError(e)),
            }
        } else {
            Err(CommandsError::CommandNameParseError(name.clone()))
        }
    }

    /// The registration objects of every known command, for bulk
    /// registration at startup; fails atomically when any descriptor is
    /// invalid.
    pub fn all_commands() -> (r: Result<Vec<Registration>, SchemaError>)
        ensures
            match r {
                Ok(regs) => {
                    &&& construct_spec("meow"@, "Meow!"@, meow_option_fields()) is Ok
                    &&& regs.deep_view().len() == 1
                    &&& regs.deep_view()[0] == registration_of(
                        "meow"@,
                        "Meow!"@,
                        meow_option_fields(),
                    )
                },
                Err(e) => construct_spec("meow"@, "Meow!"@, meow_option_fields()) == Err::<
                    (),
                    SchemaErrorModel,
                >(e@),
            },
    {
        match MeowCommand::command() {
            Ok(descriptor) => {
                let registration = descriptor.registration();
                let mut registrations: Vec<Registration> = Vec::new();
                registrations.push(registration);
                Ok(registrations)
            },
            Err(e) => Err(e),
        }
    }
}

} // verus!
