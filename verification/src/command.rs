//! Raw command options and the generic argument parser.
//!
//! An invocation arrives as a list of named raw values.  Parsing matches
//! that list against a declared option schema, in schema order, and either
//! yields one parsed entry per schema option or aborts at the first
//! failure.

use vstd::prelude::*;

use crate::schema::CommandOptionField;
use crate::schema::CommandOptionFieldModel;

verus! {

/// The scalar type a command option declares.
#[derive(Clone, Copy, Debug, PartialEq, Eq, Structural)]
pub enum CommandOptionType {
    Text,
    Integer,
    Number,
    Boolean,
    User,
    Channel,
    Role,
    Attachment,
}

/// The option type a scalar field type's name declares, if any: the fixed
/// table from field types to option types.
pub open spec fn option_type_of_name(s: Seq<char>) -> Option<CommandOptionType> {
    if s == "String"@ {
        Some(CommandOptionType::Text)
    } else if s == "i64"@ {
        Some(CommandOptionType::Integer)
    } else if s == "f64"@ {
        Some(CommandOptionType::Number)
    } else if s == "bool"@ {
        Some(CommandOptionType::Boolean)
    } else if s == "UserMarker"@ {
        Some(CommandOptionType::User)
    } else if s == "ChannelMarker"@ {
        Some(CommandOptionType::Channel)
    } else if s == "RoleMarker"@ {
        Some(CommandOptionType::Role)
    } else if s == "AttachmentMarker"@ {
        Some(CommandOptionType::Attachment)
    } else {
        None
    }
}

impl CommandOptionType {
    /// Maps a scalar field type's name — or, for a platform reference, its
    /// identifier marker's name — to the option type it declares.
    pub fn from_type_name(name: &String) -> (r: Option<CommandOptionType>)
        ensures
            r == option_type_of_name(name@),
    {
        if name.eq(&"String".to_owned()) {
            Some(CommandOptionType::Text)
        } else if name.eq(&"i64".to_owned()) {
            Some(CommandOptionType::Integer)
        } else if name.eq(&"f64".to_owned()) {
            Some(CommandOptionType::Number)
        } else if name.eq(&"bool".to_owned()) {
            Some(CommandOptionType::Boolean)
        } else if name.eq(&"UserMarker".to_owned()) {
            Some(CommandOptionType::User)
        } else if name.eq(&"ChannelMarker".to_owned()) {
            Some(CommandOptionType::Channel)
        } else if name.eq(&"RoleMarker".to_owned()) {
            Some(CommandOptionType::Role)
        } else if name.eq(&"AttachmentMarker".to_owned()) {
            Some(CommandOptionType::Attachment)
        } else {
            None
        }
    }
}

/// An option type together with whether the declaring field demands a
/// value: a field of some scalar type is required, one wrapped as optional
/// is not.
#[derive(Clone, Copy, Debug, PartialEq, Eq, Structural)]
pub enum CommandOption {
    Optional(CommandOptionType),
    Required(CommandOptionType),
}

impl CommandOption {
    /// Maps a declared field type — its scalar type's name and whether it
    /// was wrapped as optional — to the option it declares.
    pub fn from_declared_type(name: &String, optional: bool) -> (r: Option<CommandOption>)
        ensures
            match option_type_of_name(name@) {
                Some(t) => r == Some(
                    if optional {
                        CommandOption::Optional(t)
                    } else {
                        CommandOption::Required(t)
                    },
                ),
                None => r is None,
            },
    {
        match CommandOptionType::from_type_name(name) {
            Some(t) => {
                if optional {
                    Some(CommandOption::Optional(t))
                } else {
                    Some(CommandOption::Required(t))
                }
            },
            None => None,
        }
    }
}

/// A raw option value as received at invocation time.
///
/// A platform double is carried by its bit pattern; user, channel, role and
/// attachment references are carried by their numeric identifiers.
#[derive(Debug, PartialEq, Eq)]
pub enum CommandOptionValue {
    Text(String),
    Integer(i64),
    Number(u64),
    Boolean(bool),
    User(u64),
    Channel(u64),
    Role(u64),
    Attachment(u64),
}

/// Mathematical model of a raw option value.
pub enum CommandOptionValueModel {
    Text(Seq<char>),
    Integer(i64),
    Number(u64),
    Boolean(bool),
    User(u64),
    Channel(u64),
    Role(u64),
    Attachment(u64),
}

impl CommandOptionValueModel {
    /// The scalar type this value inhabits.
    pub open spec fn kind(self) -> CommandOptionType {
        match self {
            CommandOptionValueModel::Text(_) => CommandOptionType::Text,
            CommandOptionValueModel::Integer(_) => CommandOptionType::Integer,
            CommandOptionValueModel::Number(_) => CommandOptionType::Number,
            CommandOptionValueModel::Boolean(_) => CommandOptionType::Boolean,
            CommandOptionValueModel::User(_) => CommandOptionType::User,
            CommandOptionValueModel::Channel(_) => CommandOptionType::Channel,
            CommandOptionValueModel::Role(_) => CommandOptionType::Role,
            CommandOptionValueModel::Attachment(_) => CommandOptionType::Attachment,
        }
    }
}

impl View for CommandOptionValue {
    type V = CommandOptionValueModel;

    open spec fn view(&self) -> CommandOptionValueModel {
        match self {
            CommandOptionValue::Text(s) => CommandOptionValueModel::Text(s@),
            CommandOptionValue::Integer(i) => CommandOptionValueModel::Integer(*i),
            CommandOptionValue::Number(n) => CommandOptionValueModel::Number(*n),
            CommandOptionValue::Boolean(b) => CommandOptionValueModel::Boolean(*b),
            CommandOptionValue::User(id) => CommandOptionValueModel::User(*id),
            CommandOptionValue::Channel(id) => CommandOptionValueModel::Channel(*id),
            CommandOptionValue::Role(id) => CommandOptionValueModel::Role(*id),
            CommandOptionValue::Attachment(id) => CommandOptionValueModel::Attachment(*id),
        }
    }
}

impl DeepView for CommandOptionValue {
    type V = CommandOptionValueModel;

    open spec fn deep_view(&self) -> CommandOptionValueModel {
        self.view()
    }
}

impl Clone for CommandOptionValue {
    fn clone(&self) -> (res: Self)
        ensures
            res == *self,
    {
        match self {
            CommandOptionValue::Text(s) => CommandOptionValue::Text(s.clone()),
            CommandOptionValue::Integer(i) => CommandOptionValue::Integer(*i),
            CommandOptionValue::Number(n) => CommandOptionValue::Number(*n),
            CommandOptionValue::Boolean(b) => CommandOptionValue::Boolean(*b),
            CommandOptionValue::User(id) => CommandOptionValue::User(*id),
            CommandOptionValue::Channel(id) => CommandOptionValue::Channel(*id),
            CommandOptionValue::Role(id) => CommandOptionValue::Role(*id),
            CommandOptionValue::Attachment(id) => CommandOptionValue::Attachment(*id),
        }
    }
}

impl CommandOptionValue {
    /// The scalar type of this raw value.
    pub fn kind(&self) -> (r: CommandOptionType)
        ensures
            r == self@.kind(),
    {
        match self {
            CommandOptionValue::Text(_) => CommandOptionType::Text,
            CommandOptionValue::Integer(_) => CommandOptionType::Integer,
            CommandOptionValue::Number(_) => CommandOptionType::Number,
            CommandOptionValue::Boolean(_) => CommandOptionType::Boolean,
            CommandOptionValue::User(_) => CommandOptionType::User,
            CommandOptionValue::Channel(_) => CommandOptionType::Channel,
            CommandOptionValue::Role(_) => CommandOptionType::Role,
            CommandOptionValue::Attachment(_) => CommandOptionType::Attachment,
        }
    }
}

/// One raw (name, value) argument pair of an invocation.
#[derive(Debug, PartialEq, Eq)]
pub struct CommandDataOption {
    pub name: String,
    pub value: CommandOptionValue,
}

impl Clone for CommandDataOption {
    fn clone(&self) -> (res: Self)
        ensures
            res == *self,
    {
        CommandDataOption { name: self.name.clone(), value: self.value.clone() }
    }
}

/// Mathematical model of a raw argument pair.
pub struct CommandDataOptionModel {
    pub name: Seq<char>,
    pub value: CommandOptionValueModel,
}

impl View for CommandDataOption {
    type V = CommandDataOptionModel;

    open spec fn view(&self) -> CommandDataOptionModel {
        CommandDataOptionModel { name: self.name@, value: self.value@ }
    }
}

impl DeepView for CommandDataOption {
    type V = CommandDataOptionModel;

    open spec fn deep_view(&self) -> CommandDataOptionModel {
        self.view()
    }
}

/// Why a raw argument list failed to parse against a schema.
#[derive(Debug, PartialEq, Eq)]
pub enum CommandOptionsError {
    /// The named option was present with a value of the wrong scalar type;
    /// the second field is the type actually received.
    UnexpectedOptionType(String, CommandOptionType),
    /// The named option is required but absent from the raw list.
    MissingRequiredOption(String),
}

/// Mathematical model of a parse failure.
pub enum CommandOptionsErrorModel {
    UnexpectedOptionType(Seq<char>, CommandOptionType),
    MissingRequiredOption(Seq<char>),
}

impl View for CommandOptionsError {
    type V = CommandOptionsErrorModel;

    open spec fn view(&self) -> CommandOptionsErrorModel {
        match self {
            CommandOptionsError::UnexpectedOptionType(name, kind) => {
                CommandOptionsErrorModel::UnexpectedOptionType(name@, *kind)
            },
            CommandOptionsError::MissingRequiredOption(name) => {
                CommandOptionsErrorModel::MissingRequiredOption(name@)
            },
        }
    }
}

/// Why a command execution failed: an application-level failure or a
/// propagated outbound-platform failure, each carried as its rendered
/// message.
#[derive(Debug, PartialEq, Eq)]
pub enum CommandExecuteError {
    CommandError(String),
    InteractionError(String),
}

/// Mathematical model of an execution failure.
pub enum CommandExecuteErrorModel {
    CommandError(Seq<char>),
    InteractionError(Seq<char>),
}

impl View for CommandExecuteError {
    type V = CommandExecuteErrorModel;

    open spec fn view(&self) -> CommandExecuteErrorModel {
        match self {
            CommandExecuteError::CommandError(m) => CommandExecuteErrorModel::CommandError(m@),
            CommandExecuteError::InteractionError(m) => CommandExecuteErrorModel::InteractionError(
                m@,
            ),
        }
    }
}

/// The first raw pair named `name`, if any.
pub open spec fn find_option(
    options: Seq<CommandDataOptionModel>,
    name: Seq<char>,
) -> Option<CommandDataOptionModel>
    decreases options.len(),
{
    if options.len() == 0 {
        None
    } else if options[0].name == name {
        Some(options[0])
    } else {
        find_option(options.drop_first(), name)
    }
}

/// What parsing one declared option against the raw list yields: the value
/// if present with the right type, nothing if absent and optional, and the
/// matching error otherwise.
pub open spec fn parse_field(
    name: Seq<char>,
    kind: CommandOptionType,
    required: bool,
    options: Seq<CommandDataOptionModel>,
) -> Result<Option<CommandOptionValueModel>, CommandOptionsErrorModel> {
    match find_option(options, name) {
        None => {
            if required {
                Err(CommandOptionsErrorModel::MissingRequiredOption(name))
            } else {
                Ok(None)
            }
        },
        Some(o) => {
            if o.value.kind() == kind {
                Ok(Some(o.value))
            } else {
                Err(CommandOptionsErrorModel::UnexpectedOptionType(name, o.value.kind()))
            }
        },
    }
}

/// Looks the named option up in the raw list, first match by exact name.
fn find_option_exec<'a>(
    options: &'a Vec<CommandDataOption>,
    name: &String,
) -> (r: Option<&'a CommandDataOption>)
    ensures
        match r {
            Some(o) => find_option(options.deep_view(), name@) == Some(o@),
            None => find_option(options.deep_view(), name@) is None,
        },
{
    let ghost opts = options.deep_view();
    let mut i: usize = 0;
    while i < options.len()
        invariant
            0 <= i <= options.len(),
            opts == options.deep_view(),
            opts.len() == options.len(),
            forall|j: int| 0 <= j < i ==> #[trigger] opts[j].name != name@,
        decreases options.len() - i,
    {
        assert(opts[i as int] == options[i as int].deep_view());
        if options[i].name.eq(name) {
            proof {
                lemma_find_option_first(opts, name@, i as int);
            }
            return Some(&options[i]);
        }
        i += 1;
    }
    proof {
        lemma_find_option_none(opts, name@);
    }
    None
}

/// If no entry of `options` is named `name`, the lookup yields nothing.
proof fn lemma_find_option_none(options: Seq<CommandDataOptionModel>, name: Seq<char>)
    requires
        forall|j: int| 0 <= j < options.len() ==> #[trigger] options[j].name != name,
    ensures
        find_option(options, name) is None,
    decreases options.len(),
{
    if options.len() > 0 {
        lemma_find_option_none(options.drop_first(), name);
    }
}

/// If `options[i]` is the first entry named `name`, the lookup yields it.
proof fn lemma_find_option_first(options: Seq<CommandDataOptionModel>, name: Seq<char>, i: int)
    requires
        0 <= i < options.len(),
        options[i].name == name,
        forall|j: int| 0 <= j < i ==> #[trigger] options[j].name != name,
    ensures
        find_option(options, name) == Some(options[i]),
    decreases i,
{
    if i > 0 {
        lemma_find_option_first(options.drop_first(), name, i - 1);
    }
}

/// Parses one optional declared option out of the raw list: absent is not
/// an error; a present value of the wrong type is.
pub fn parse_optional_option(
    options: &Vec<CommandDataOption>,
    name: &String,
    expected: CommandOptionType,
) -> (r: Result<Option<CommandOptionValue>, CommandOptionsError>)
    ensures
        match r {
            Ok(Some(v)) => parse_field(name@, expected, false, options.deep_view()) == Ok::<
                Option<CommandOptionValueModel>,
                CommandOptionsErrorModel,
            >(Some(v@)),
            Ok(None) => parse_field(name@, expected, false, options.deep_view()) == Ok::<
                Option<CommandOptionValueModel>,
                CommandOptionsErrorModel,
            >(None::<CommandOptionValueModel>),
            Err(e) => parse_field(name@, expected, false, options.deep_view()) == Err::<
                Option<CommandOptionValueModel>,
                CommandOptionsErrorModel,
            >(e@),
        },
{
    match find_option_exec(options, name) {
        None => Ok(None),
        Some(o) => {
            let actual = o.value.kind();
            if actual == expected {
                Ok(Some(o.value.clone()))
            } else {
                Err(CommandOptionsError::UnexpectedOptionType(name.clone(), actual))
            }
        },
    }
}

/// Parses one required declared option out of the raw list: absent is an
/// error, as is a present value of the wrong type.
pub fn parse_required_option(
    options: &Vec<CommandDataOption>,
    name: &String,
    expected: CommandOptionType,
) -> (r: Result<CommandOptionValue, CommandOptionsError>)
    ensures
        match r {
            Ok(v) => parse_field(name@, expected, true, options.deep_view()) == Ok::<
                Option<CommandOptionValueModel>,
                CommandOptionsErrorModel,
            >(Some(v@)),
            Err(e) => parse_field(name@, expected, true, options.deep_view()) == Err::<
                Option<CommandOptionValueModel>,
                CommandOptionsErrorModel,
            >(e@),
        },
{
    match find_option_exec(options, name) {
        None => Err(CommandOptionsError::MissingRequiredOption(name.clone())),
        Some(o) => {
            let actual = o.value.kind();
            if actual == expected {
                Ok(o.value.clone())
            } else {
                Err(CommandOptionsError::UnexpectedOptionType(name.clone(), actual))
            }
        },
    }
}

/// One parsed entry of a command instance: the declared option's name and
/// its value, absent when the option is optional and was not supplied.
#[derive(Debug, PartialEq, Eq)]
pub struct ParsedOption {
    pub name: String,
    pub value: Option<CommandOptionValue>,
}

/// Mathematical model of a parsed entry.
pub struct ParsedOptionModel {
    pub name: Seq<char>,
    pub value: Option<CommandOptionValueModel>,
}

impl View for ParsedOption {
    type V = ParsedOptionModel;

    open spec fn view(&self) -> ParsedOptionModel {
        ParsedOptionModel {
            name: self.name@,
            value: match &self.value {
                Some(v) => Some(v@),
                None => None,
            },
        }
    }
}

impl DeepView for ParsedOption {
    type V = ParsedOptionModel;

    open spec fn deep_view(&self) -> ParsedOptionModel {
        self.view()
    }
}

/// A typed command instance: one parsed entry per declared option, in
/// declaration order.
#[derive(Debug, PartialEq, Eq)]
pub struct ParsedCommand {
    pub options: Vec<ParsedOption>,
}

impl View for ParsedCommand {
    type V = Seq<ParsedOptionModel>;

    open spec fn view(&self) -> Seq<ParsedOptionModel> {
        self.options.deep_view()
    }
}

/// What parsing the first `i` declared options yields: one entry per
/// option, or the first failure in declaration order.
pub open spec fn parse_upto(
    fields: Seq<CommandOptionFieldModel>,
    options: Seq<CommandDataOptionModel>,
    i: int,
) -> Result<Seq<ParsedOptionModel>, CommandOptionsErrorModel>
    decreases i,
{
    if i <= 0 {
        Ok(Seq::empty())
    } else {
        match parse_upto(fields, options, i - 1) {
            Err(e) => Err(e),
            Ok(acc) => match parse_field(
                fields[i - 1].name,
                fields[i - 1].option_type,
                fields[i - 1].required,
                options,
            ) {
                Err(e) => Err(e),
                Ok(v) => Ok(acc.push(ParsedOptionModel { name: fields[i - 1].name, value: v })),
            },
        }
    }
}

/// What parsing a whole declared schema against a raw argument list
/// yields.
pub open spec fn parse_arguments_spec(
    fields: Seq<CommandOptionFieldModel>,
    options: Seq<CommandDataOptionModel>,
) -> Result<Seq<ParsedOptionModel>, CommandOptionsErrorModel> {
    parse_upto(fields, options, fields.len() as int)
}

/// Parses a raw argument list against a declared schema: for each declared
/// option in order, the matching raw value is looked up by name, checked
/// against the declared scalar type and assigned; the first failure aborts
/// the whole parse.
pub fn parse_arguments(
    fields: &Vec<CommandOptionField>,
    options: &Vec<CommandDataOption>,
) -> (r: Result<ParsedCommand, CommandOptionsError>)
    ensures
        match r {
            Ok(parsed) => parse_arguments_spec(fields.deep_view(), options.deep_view()) == Ok::<
                Seq<ParsedOptionModel>,
                CommandOptionsErrorModel,
            >(parsed@),
            Err(e) => parse_arguments_spec(fields.deep_view(), options.deep_view()) == Err::<
                Seq<ParsedOptionModel>,
                CommandOptionsErrorModel,
            >(e@),
        },
{
    let ghost fields_m = fields.deep_view();
    let ghost options_m = options.deep_view();
    let mut parsed: Vec<ParsedOption> = Vec::new();
    assert(parsed.deep_view() =~= Seq::<ParsedOptionModel>::empty());
    let mut i: usize = 0;
    while i < fields.len()
        invariant
            0 <= i <= fields.len(),
            fields_m == fields.deep_view(),
            options_m == options.deep_view(),
            fields_m.len() == fields.len(),
            parse_upto(fields_m, options_m, i as int) == Ok::<
                Seq<ParsedOptionModel>,
                CommandOptionsErrorModel,
            >(parsed.deep_view()),
        decreases fields.len() - i,
    {
        assert(fields_m[i as int] == fields[i as int].deep_view());
        let field = &fields[i];
        if field.required {
            match parse_required_option(options, &field.name, field.option_type) {
                Ok(v) => {
                    parsed.push(ParsedOption { name: field.name.clone(), value: Some(v) });
                },
                Err(e) => {
                    assert(parse_upto(fields_m, options_m, i + 1) == Err::<
                        Seq<ParsedOptionModel>,
                        CommandOptionsErrorModel,
                    >(e@));
                    proof {
                        lemma_parse_upto_error_persists(fields_m, options_m, i + 1, e@);
                    }
                    return Err(e);
                },
            }
        } else {
            match parse_optional_option(options, &field.name, field.option_type) {
                Ok(v) => {
                    parsed.push(ParsedOption { name: field.name.clone(), value: v });
                },
                Err(e) => {
                    assert(parse_upto(fields_m, options_m, i + 1) == Err::<
                        Seq<ParsedOptionModel>,
                        CommandOptionsErrorModel,
                    >(e@));
                    proof {
                        lemma_parse_upto_error_persists(fields_m, options_m, i + 1, e@);
                    }
                    return Err(e);
                },
            }
        }
        assert(parsed.deep_view() =~= match parse_upto(fields_m, options_m, i + 1) {
            Ok(acc) => acc,
            Err(_) => Seq::empty(),
        });
        i += 1;
    }
    Ok(ParsedCommand { options: parsed })
}

/// Once some prefix of the declared options fails to parse, every longer
/// prefix fails with that same first error.
pub proof fn lemma_parse_upto_error_persists(
    fields: Seq<CommandOptionFieldModel>,
    options: Seq<CommandDataOptionModel>,
    i: int,
    e: CommandOptionsErrorModel,
)
    requires
        0 <= i <= fields.len(),
        parse_upto(fields, options, i) == Err::<Seq<ParsedOptionModel>, CommandOptionsErrorModel>(
            e,
        ),
    ensures
        forall|k: int|
            i <= k <= fields.len() ==> #[trigger] parse_upto(fields, options, k) == Err::<
                Seq<ParsedOptionModel>,
                CommandOptionsErrorModel,
            >(e),
{
    assert forall|k: int|
        i <= k <= fields.len() implies #[trigger] parse_upto(fields, options, k) == Err::<
        Seq<ParsedOptionModel>,
        CommandOptionsErrorModel,
    >(e) by {
        lemma_parse_upto_error_step(fields, options, i, k, e);
    }
}

proof fn lemma_parse_upto_error_step(
    fields: Seq<CommandOptionFieldModel>,
    options: Seq<CommandDataOptionModel>,
    i: int,
    k: int,
    e: CommandOptionsErrorModel,
)
    requires
        0 <= i <= k <= fields.len(),
        parse_upto(fields, options, i) == Err::<Seq<ParsedOptionModel>, CommandOptionsErrorModel>(
            e,
        ),
    ensures
        parse_upto(fields, options, k) == Err::<Seq<ParsedOptionModel>, CommandOptionsErrorModel>(
            e,
        ),
    decreases k - i,
{
    if k > i {
        lemma_parse_upto_error_step(fields, options, i, k - 1, e);
    }
}

/// The raw argument list a parsed command stands for: one (name, value)
/// pair per entry whose value is present, in entry order.
pub open spec fn reserialize_upto(parsed: Seq<ParsedOptionModel>, i: int) -> Seq<
    CommandDataOptionModel,
>
    decreases i,
{
    if i <= 0 {
        Seq::empty()
    } else {
        let rest = reserialize_upto(parsed, i - 1);
        match parsed[i - 1].value {
            Some(v) => rest.push(CommandDataOptionModel { name: parsed[i - 1].name, value: v }),
            None => rest,
        }
    }
}

/// The raw argument list a whole parsed command stands for.
pub open spec fn reserialize_spec(parsed: Seq<ParsedOptionModel>) -> Seq<CommandDataOptionModel> {
    reserialize_upto(parsed, parsed.len() as int)
}

impl ParsedCommand {
    /// Re-serializes the parsed fields as a raw argument list: every
    /// present value under its declared option name, in declaration order;
    /// absent optional entries contribute nothing.
    pub fn to_options(&self) -> (r: Vec<CommandDataOption>)
        ensures
            r.deep_view() == reserialize_spec(self@),
    {
        let ghost parsed_m = self@;
        let mut out: Vec<CommandDataOption> = Vec::new();
        let mut i: usize = 0;
        while i < self.options.len()
            invariant
                0 <= i <= self.options.len(),
                parsed_m == self@,
                parsed_m.len() == self.options.len(),
                out.deep_view() == reserialize_upto(parsed_m, i as int),
            decreases self.options.len() - i,
        {
            assert(parsed_m[i as int] == self.options[i as int].deep_view());
            match &self.options[i].value {
                Some(v) => {
                    out.push(
                        CommandDataOption {
                            name: self.options[i].name.clone(),
                            value: v.clone(),
                        },
                    );
                },
                None => {},
            }
            assert(out.deep_view() =~= reserialize_upto(parsed_m, i + 1));
            i += 1;
        }
        out
    }
}

} // verus!
