//! Declarative command schemas and their validation.
//!
//! A command is declared once as a name, a description and an ordered list
//! of option fields.  Construction validates every piece of text against
//! the platform's grammar and enforces the ordering invariant that no
//! required option may follow an optional one; ordering violations are
//! collected in full rather than reported one at a time, since they are
//! static defects the author should fix in one pass.

use vstd::prelude::*;

use crate::command::CommandOptionType;
use crate::validate::chat_input_name_valid;
use crate::validate::description_valid;
use crate::validate::option_name_valid;
use crate::validate::validate_command_chat_input_name;
use crate::validate::validate_command_description;
use crate::validate::validate_option_name;

verus! {

/// One declared command option: its name, description, scalar type and
/// whether an invocation must supply it.
#[derive(Debug, PartialEq, Eq)]
pub struct CommandOptionField {
    pub name: String,
    pub description: String,
    pub option_type: CommandOptionType,
    pub required: bool,
}

/// Mathematical model of a declared option.
pub struct CommandOptionFieldModel {
    pub name: Seq<char>,
    pub description: Seq<char>,
    pub option_type: CommandOptionType,
    pub required: bool,
}

impl View for CommandOptionField {
    type V = CommandOptionFieldModel;

    open spec fn view(&self) -> CommandOptionFieldModel {
        CommandOptionFieldModel {
            name: self.name@,
            description: self.description@,
            option_type: self.option_type,
            required: self.required,
        }
    }
}

impl DeepView for CommandOptionField {
    type V = CommandOptionFieldModel;

    open spec fn deep_view(&self) -> CommandOptionFieldModel {
        self.view()
    }
}

impl Clone for CommandOptionField {
    fn clone(&self) -> (res: Self)
        ensures
            res == *self,
    {
        CommandOptionField {
            name: self.name.clone(),
            description: self.description.clone(),
            option_type: self.option_type,
            required: self.required,
        }
    }
}

/// The declared name and description of a command.
#[derive(Debug, PartialEq, Eq)]
pub struct CommandAttributeFields {
    pub name: String,
    pub description: String,
}

impl Clone for CommandAttributeFields {
    fn clone(&self) -> (res: Self)
        ensures
            res == *self,
    {
        CommandAttributeFields { name: self.name.clone(), description: self.description.clone() }
    }
}

/// Why a declared schema was rejected.
#[derive(Debug, PartialEq, Eq)]
pub enum SchemaError {
    /// The command name breaks the platform's identifier grammar.
    InvalidCommandName(String),
    /// The command description breaks the platform's length bounds.
    InvalidCommandDescription(String),
    /// The named option's name breaks the platform's identifier grammar.
    InvalidOptionName(String),
    /// The named option's description breaks the platform's length bounds.
    InvalidOptionDescription(String),
    /// Required options follow an optional one; every offending required
    /// option's name is listed.
    RequiredOptionAfterOptional(Vec<String>),
}

/// Mathematical model of a schema rejection.
pub enum SchemaErrorModel {
    InvalidCommandName(Seq<char>),
    InvalidCommandDescription(Seq<char>),
    InvalidOptionName(Seq<char>),
    InvalidOptionDescription(Seq<char>),
    RequiredOptionAfterOptional(Seq<Seq<char>>),
}

impl View for SchemaError {
    type V = SchemaErrorModel;

    open spec fn view(&self) -> SchemaErrorModel {
        match self {
            SchemaError::InvalidCommandName(n) => SchemaErrorModel::InvalidCommandName(n@),
            SchemaError::InvalidCommandDescription(d) => SchemaErrorModel::InvalidCommandDescription(
                d@,
            ),
            SchemaError::InvalidOptionName(n) => SchemaErrorModel::InvalidOptionName(n@),
            SchemaError::InvalidOptionDescription(n) => SchemaErrorModel::InvalidOptionDescription(
                n@,
            ),
            SchemaError::RequiredOptionAfterOptional(names) => SchemaErrorModel::RequiredOptionAfterOptional(
                names.deep_view(),
            ),
        }
    }
}

/// Whether some option before position `i` is optional.
pub open spec fn has_optional_before(fields: Seq<CommandOptionFieldModel>, i: int) -> bool {
    exists|j: int| 0 <= j < i && !(#[trigger] fields[j]).required
}

/// The ordering invariant: once an optional option appears, every later
/// option is optional too.
pub open spec fn option_order_ok(fields: Seq<CommandOptionFieldModel>) -> bool {
    forall|i: int|
        0 <= i < fields.len() && (#[trigger] fields[i]).required ==> !has_optional_before(fields, i)
}

/// The names of the ordering violations among the first `i` options, in
/// declaration order: every required option standing after some optional
/// one.
pub open spec fn offending_upto(fields: Seq<CommandOptionFieldModel>, i: int) -> Seq<Seq<char>>
    decreases i,
{
    if i <= 0 {
        Seq::empty()
    } else {
        let rest = offending_upto(fields, i - 1);
        if fields[i - 1].required && has_optional_before(fields, i - 1) {
            rest.push(fields[i - 1].name)
        } else {
            rest
        }
    }
}

/// The names of all ordering violations, in declaration order.
pub open spec fn offending_option_names(fields: Seq<CommandOptionFieldModel>) -> Seq<Seq<char>> {
    offending_upto(fields, fields.len() as int)
}

proof fn lemma_offending_upto_empty_iff(fields: Seq<CommandOptionFieldModel>, i: int)
    requires
        0 <= i <= fields.len(),
    ensures
        offending_upto(fields, i).len() == 0 <==> forall|j: int|
            0 <= j < i ==> !((#[trigger] fields[j]).required && has_optional_before(fields, j)),
    decreases i,
{
    if i > 0 {
        lemma_offending_upto_empty_iff(fields, i - 1);
    }
}

proof fn lemma_offending_upto_exact(fields: Seq<CommandOptionFieldModel>, i: int)
    requires
        0 <= i <= fields.len(),
    ensures
        forall|n: Seq<char>|
            offending_upto(fields, i).contains(n) <==> exists|j: int|
                0 <= j < i && (#[trigger] fields[j]).required && has_optional_before(fields, j)
                    && fields[j].name == n,
    decreases i,
{
    if i > 0 {
        lemma_offending_upto_exact(fields, i - 1);
        let rest = offending_upto(fields, i - 1);
        let whole = offending_upto(fields, i);
        if fields[i - 1].required && has_optional_before(fields, i - 1) {
            assert forall|n: Seq<char>| whole.contains(n) implies exists|j: int|
                0 <= j < i && (#[trigger] fields[j]).required && has_optional_before(fields, j)
                    && fields[j].name == n by {
                let k = choose|k: int| 0 <= k < whole.len() && whole[k] == n;
                if k < rest.len() {
                    assert(rest.contains(n));
                } else {
                    assert(fields[i - 1].required && has_optional_before(fields, i - 1)
                        && fields[i - 1].name == n);
                }
            }
            assert forall|n: Seq<char>|
                (exists|j: int|
                    0 <= j < i && (#[trigger] fields[j]).required && has_optional_before(fields, j)
                        && fields[j].name == n) implies whole.contains(n) by {
                let j = choose|j: int|
                    0 <= j < i && (#[trigger] fields[j]).required && has_optional_before(fields, j)
                        && fields[j].name == n;
                if j < i - 1 {
                    assert(rest.contains(n));
                    let k = choose|k: int| 0 <= k < rest.len() && rest[k] == n;
                    assert(whole[k] == n);
                } else {
                    assert(whole[whole.len() - 1] == n);
                }
            }
        } else {
            assert forall|n: Seq<char>|
                (exists|j: int|
                    0 <= j < i && (#[trigger] fields[j]).required && has_optional_before(fields, j)
                        && fields[j].name == n) implies whole.contains(n) by {
                let j = choose|j: int|
                    0 <= j < i && (#[trigger] fields[j]).required && has_optional_before(fields, j)
                        && fields[j].name == n;
                assert(0 <= j < i - 1);
            }
        }
    }
}

/// The offending-name list is empty exactly when the ordering invariant
/// holds.
pub proof fn lemma_order_ok_iff_no_offenders(fields: Seq<CommandOptionFieldModel>)
    ensures
        option_order_ok(fields) <==> offending_option_names(fields).len() == 0,
{
    lemma_offending_upto_empty_iff(fields, fields.len() as int);
}

/// The reported offending names are exactly the names of the required
/// options standing after the first optional one.
pub proof fn lemma_offending_names_exact(fields: Seq<CommandOptionFieldModel>)
    ensures
        forall|n: Seq<char>|
            offending_option_names(fields).contains(n) <==> exists|j: int|
                0 <= j < fields.len() && (#[trigger] fields[j]).required && has_optional_before(
                    fields,
                    j,
                ) && fields[j].name == n,
{
    lemma_offending_upto_exact(fields, fields.len() as int);
}

/// The ordered option list a command declares.
#[derive(Debug, PartialEq, Eq)]
pub struct CommandOptionAttributeFields {
    pub fields: Vec<CommandOptionField>,
}

impl CommandOptionAttributeFields {
    /// Checks the ordering invariant over the declared options, collecting
    /// the name of every required option that stands after an optional one.
    pub fn validate_option_order(&self) -> (r: Result<(), SchemaError>)
        ensures
            match r {
                Ok(()) => option_order_ok(self.fields.deep_view()),
                Err(e) => {
                    &&& !option_order_ok(self.fields.deep_view())
                    &&& e@ == SchemaErrorModel::RequiredOptionAfterOptional(
                        offending_option_names(self.fields.deep_view()),
                    )
                },
            },
    {
        let ghost fields = self.fields.deep_view();
        let mut found_optional = false;
        let mut invalid: Vec<String> = Vec::new();
        let mut i: usize = 0;
        while i < self.fields.len()
            invariant
                0 <= i <= self.fields.len(),
                fields == self.fields.deep_view(),
                fields.len() == self.fields.len(),
                found_optional == has_optional_before(fields, i as int),
                invalid.deep_view() == offending_upto(fields, i as int),
            decreases self.fields.len() - i,
        {
            assert(fields[i as int] == self.fields[i as int].deep_view());
            if !self.fields[i].required {
                found_optional = true;
                assert(has_optional_before(fields, i + 1));
            } else {
                if found_optional {
                    invalid.push(self.fields[i].name.clone());
                }
                assert(has_optional_before(fields, i + 1) == has_optional_before(
                    fields,
                    i as int,
                ));
            }
            assert(invalid.deep_view() =~= offending_upto(fields, i + 1));
            i += 1;
        }
        proof {
            lemma_order_ok_iff_no_offenders(fields);
        }
        if invalid.len() == 0 {
            Ok(())
        } else {
            Err(SchemaError::RequiredOptionAfterOptional(invalid))
        }
    }
}

/// What validating the names and descriptions of the first `i` declared
/// options yields: the first failure, in declaration order, checking each
/// option's name before its description.  An invalid description is
/// reported under the option's name.
pub open spec fn validate_options_upto(fields: Seq<CommandOptionFieldModel>, i: int) -> Result<
    (),
    SchemaErrorModel,
>
    decreases i,
{
    if i <= 0 {
        Ok(())
    } else {
        match validate_options_upto(fields, i - 1) {
            Err(e) => Err(e),
            Ok(()) => {
                if !option_name_valid(fields[i - 1].name) {
                    Err(SchemaErrorModel::InvalidOptionName(fields[i - 1].name))
                } else if !description_valid(fields[i - 1].description) {
                    Err(SchemaErrorModel::InvalidOptionDescription(fields[i - 1].name))
                } else {
                    Ok(())
                }
            },
        }
    }
}

/// What constructing a descriptor from a name, a description and a
/// declared option list yields: the checks run in a fixed order — command
/// name, command description, each option's texts, then the ordering
/// invariant — and the first failure wins.
pub open spec fn construct_spec(
    name: Seq<char>,
    description: Seq<char>,
    fields: Seq<CommandOptionFieldModel>,
) -> Result<(), SchemaErrorModel> {
    if !chat_input_name_valid(name) {
        Err(SchemaErrorModel::InvalidCommandName(name))
    } else if !description_valid(description) {
        Err(SchemaErrorModel::InvalidCommandDescription(description))
    } else {
        match validate_options_upto(fields, fields.len() as int) {
            Err(e) => Err(e),
            Ok(()) => {
                if option_order_ok(fields) {
                    Ok(())
                } else {
                    Err(
                        SchemaErrorModel::RequiredOptionAfterOptional(
                            offending_option_names(fields),
                        ),
                    )
                }
            },
        }
    }
}

proof fn lemma_validate_options_error_persists(
    fields: Seq<CommandOptionFieldModel>,
    i: int,
    k: int,
    e: SchemaErrorModel,
)
    requires
        0 <= i <= k <= fields.len(),
        validate_options_upto(fields, i) == Err::<(), SchemaErrorModel>(e),
    ensures
        validate_options_upto(fields, k) == Err::<(), SchemaErrorModel>(e),
    decreases k - i,
{
    if k > i {
        lemma_validate_options_error_persists(fields, i, k - 1, e);
    }
}

/// A validated command descriptor: its name, description and declared
/// option list, immutable after construction.
#[derive(Debug, PartialEq, Eq)]
pub struct CommandDescriptor {
    pub name: String,
    pub description: String,
    pub options: Vec<CommandOptionField>,
}

/// One option entry of a registration object, derived one-to-one from a
/// declared option.
#[derive(Debug, PartialEq, Eq)]
pub struct RegistrationOption {
    pub name: String,
    pub description: String,
    pub kind: CommandOptionType,
    pub required: bool,
}

/// Mathematical model of a registration entry.
pub struct RegistrationOptionModel {
    pub name: Seq<char>,
    pub description: Seq<char>,
    pub kind: CommandOptionType,
    pub required: bool,
}

impl View for RegistrationOption {
    type V = RegistrationOptionModel;

    open spec fn view(&self) -> RegistrationOptionModel {
        RegistrationOptionModel {
            name: self.name@,
            description: self.description@,
            kind: self.kind,
            required: self.required,
        }
    }
}

impl DeepView for RegistrationOption {
    type V = RegistrationOptionModel;

    open spec fn deep_view(&self) -> RegistrationOptionModel {
        self.view()
    }
}

impl Clone for RegistrationOption {
    fn clone(&self) -> (res: Self)
        ensures
            res == *self,
    {
        RegistrationOption {
            name: self.name.clone(),
            description: self.description.clone(),
            kind: self.kind,
            required: self.required,
        }
    }
}

/// The registration object a descriptor derives: what is submitted to the
/// remote platform to register the command.
#[derive(Debug, PartialEq, Eq)]
pub struct Registration {
    pub name: String,
    pub description: String,
    pub options: Vec<RegistrationOption>,
}

/// Mathematical model of a registration object.
pub struct RegistrationModel {
    pub name: Seq<char>,
    pub description: Seq<char>,
    pub options: Seq<RegistrationOptionModel>,
}

impl View for Registration {
    type V = RegistrationModel;

    open spec fn view(&self) -> RegistrationModel {
        RegistrationModel {
            name: self.name@,
            description: self.description@,
            options: self.options.deep_view(),
        }
    }
}

impl DeepView for Registration {
    type V = RegistrationModel;

    open spec fn deep_view(&self) -> RegistrationModel {
        self.view()
    }
}

/// The registration entry a declared option maps to: name, description and
/// required flag copied verbatim, the scalar type carried over.
pub open spec fn option_registration(field: CommandOptionFieldModel) -> RegistrationOptionModel {
    RegistrationOptionModel {
        name: field.name,
        description: field.description,
        kind: field.option_type,
        required: field.required,
    }
}

/// The registration object of a descriptor: one entry per declared option,
/// in declaration order.
pub open spec fn registration_of(
    name: Seq<char>,
    description: Seq<char>,
    fields: Seq<CommandOptionFieldModel>,
) -> RegistrationModel {
    RegistrationModel {
        name,
        description,
        options: fields.map_values(|field: CommandOptionFieldModel| option_registration(field)),
    }
}

impl CommandDescriptor {
    /// Builds a descriptor from declared attributes and options, validating
    /// in a fixed order: command name, command description, each option's
    /// name and description in declaration order, then the option ordering
    /// invariant.  The first failure is reported, except that ordering
    /// violations are collected in full.
    pub fn try_new(attributes: CommandAttributeFields, options: Vec<CommandOptionField>) -> (r:
        Result<CommandDescriptor, SchemaError>)
        ensures
            match r {
                Ok(d) => {
                    &&& construct_spec(
                        attributes.name@,
                        attributes.description@,
                        options.deep_view(),
                    ) is Ok
                    &&& d.name@ == attributes.name@
                    &&& d.description@ == attributes.description@
                    &&& d.options.deep_view() == options.deep_view()
                },
                Err(e) => construct_spec(
                    attributes.name@,
                    attributes.description@,
                    options.deep_view(),
                ) == Err::<(), SchemaErrorModel>(e@),
            },
    {
        let ghost fields_m = options.deep_view();
        if !validate_command_chat_input_name(&attributes.name) {
            return Err(SchemaError::InvalidCommandName(attributes.name));
        }
        if !validate_command_description(&attributes.description) {
            return Err(SchemaError::InvalidCommandDescription(attributes.description));
        }
        let mut i: usize = 0;
        while i < options.len()
            invariant
                0 <= i <= options.len(),
                fields_m == options.deep_view(),
                fields_m.len() == options.len(),
                chat_input_name_valid(attributes.name@),
                description_valid(attributes.description@),
                validate_options_upto(fields_m, i as int) == Ok::<(), SchemaErrorModel>(()),
            decreases options.len() - i,
        {
            assert(fields_m[i as int] == options[i as int].deep_view());
            if !validate_option_name(&options[i].name) {
                assert(validate_options_upto(fields_m, i + 1) == Err::<(), SchemaErrorModel>(
                    SchemaErrorModel::InvalidOptionName(fields_m[i as int].name),
                ));
                proof {
                    lemma_validate_options_error_persists(
                        fields_m,
                        i + 1,
                        fields_m.len() as int,
                        SchemaErrorModel::InvalidOptionName(fields_m[i as int].name),
                    );
                }
                return Err(SchemaError::InvalidOptionName(options[i].name.clone()));
            }
            if !validate_command_description(&options[i].description) {
                assert(validate_options_upto(fields_m, i + 1) == Err::<(), SchemaErrorModel>(
                    SchemaErrorModel::InvalidOptionDescription(fields_m[i as int].name),
                ));
                proof {
                    lemma_validate_options_error_persists(
                        fields_m,
                        i + 1,
                        fields_m.len() as int,
                        SchemaErrorModel::InvalidOptionDescription(fields_m[i as int].name),
                    );
                }
                return Err(SchemaError::InvalidOptionDescription(options[i].name.clone()));
            }
            i += 1;
        }
        let option_fields = CommandOptionAttributeFields { fields: options };
        match option_fields.validate_option_order() {
            Ok(()) => Ok(
                CommandDescriptor {
                    name: attributes.name,
                    description: attributes.description,
                    options: option_fields.fields,
                },
            ),
            Err(e) => Err(e),
        }
    }

    /// Derives the registration object: one entry per declared option, in
    /// declaration order, texts and required flag copied verbatim.
    pub fn registration(&self) -> (r: Registration)
        ensures
            r@ == registration_of(self.name@, self.description@, self.options.deep_view()),
    {
        let ghost fields_m = self.options.deep_view();
        let mut entries: Vec<RegistrationOption> = Vec::new();
        let mut i: usize = 0;
        while i < self.options.len()
            invariant
                0 <= i <= self.options.len(),
                fields_m == self.options.deep_view(),
                fields_m.len() == self.options.len(),
                entries.deep_view().len() == i,
                forall|k: int|
                    0 <= k < i ==> entries.deep_view()[k] == option_registration(
                        #[trigger] fields_m[k],
                    ),
            decreases self.options.len() - i,
        {
            assert(fields_m[i as int] == self.options[i as int].deep_view());
            let field = &self.options[i];
            entries.push(
                RegistrationOption {
                    name: field.name.clone(),
                    description: field.description.clone(),
                    kind: field.option_type,
                    required: field.required,
                },
            );
            i += 1;
        }
        assert(entries.deep_view() =~= fields_m.map_values(
            |field: CommandOptionFieldModel| option_registration(field),
        ));
        Registration {
            name: self.name.clone(),
            description: self.description.clone(),
            options: entries,
        }
    }
}

proof fn lemma_validate_options_ok(fields: Seq<CommandOptionFieldModel>, i: int)
    requires
        0 <= i <= fields.len(),
        forall|j: int|
            0 <= j < fields.len() ==> option_name_valid((#[trigger] fields[j]).name)
                && description_valid(fields[j].description),
    ensures
        validate_options_upto(fields, i) == Ok::<(), SchemaErrorModel>(()),
    decreases i,
{
    if i > 0 {
        lemma_validate_options_ok(fields, i - 1);
    }
}

/// For every declaration whose texts are valid and whose option list keeps
/// required options before optional ones, construction succeeds, and the
/// derived registration object holds exactly one entry per declared
/// option, in declaration order.
pub proof fn lemma_valid_descriptor_registration(
    name: Seq<char>,
    description: Seq<char>,
    fields: Seq<CommandOptionFieldModel>,
)
    requires
        chat_input_name_valid(name),
        description_valid(description),
        forall|j: int|
            0 <= j < fields.len() ==> option_name_valid((#[trigger] fields[j]).name)
                && description_valid(fields[j].description),
        option_order_ok(fields),
    ensures
        construct_spec(name, description, fields) is Ok,
        registration_of(name, description, fields).options.len() == fields.len(),
        forall|j: int|
            0 <= j < fields.len() ==> registration_of(name, description, fields).options[j]
                == option_registration(#[trigger] fields[j]),
{
    lemma_validate_options_ok(fields, fields.len() as int);
}

/// Construction fails exactly on the declarations that some check
/// rejects: a descriptor comes back precisely when the command texts, every
/// option's texts and the option ordering are all valid.
pub proof fn lemma_construct_complete(
    name: Seq<char>,
    description: Seq<char>,
    fields: Seq<CommandOptionFieldModel>,
)
    ensures
        construct_spec(name, description, fields) is Ok <==> {
            &&& chat_input_name_valid(name)
            &&& description_valid(description)
            &&& forall|j: int|
                0 <= j < fields.len() ==> option_name_valid((#[trigger] fields[j]).name)
                    && description_valid(fields[j].description)
            &&& option_order_ok(fields)
        },
{
    if construct_spec(name, description, fields) is Ok {
        lemma_validate_options_all_ok(fields, fields.len() as int);
    } else {
        if chat_input_name_valid(name) && description_valid(description) && option_order_ok(
            fields,
        ) && (forall|j: int|
            0 <= j < fields.len() ==> option_name_valid((#[trigger] fields[j]).name)
                && description_valid(fields[j].description)) {
            lemma_validate_options_ok(fields, fields.len() as int);
        }
    }
}

/// When the declared texts are all valid but some required option follows
/// an optional one, construction fails with the ordering violation, and
/// the reported names are exactly the names of the required options
/// standing after the first optional one.
pub proof fn lemma_ordering_violation_reported(
    name: Seq<char>,
    description: Seq<char>,
    fields: Seq<CommandOptionFieldModel>,
)
    requires
        chat_input_name_valid(name),
        description_valid(description),
        forall|j: int|
            0 <= j < fields.len() ==> option_name_valid((#[trigger] fields[j]).name)
                && description_valid(fields[j].description),
        !option_order_ok(fields),
    ensures
        construct_spec(name, description, fields) == Err::<(), SchemaErrorModel>(
            SchemaErrorModel::RequiredOptionAfterOptional(offending_option_names(fields)),
        ),
        forall|n: Seq<char>|
            offending_option_names(fields).contains(n) <==> exists|j: int|
                0 <= j < fields.len() && (#[trigger] fields[j]).required && has_optional_before(
                    fields,
                    j,
                ) && fields[j].name == n,
{
    lemma_validate_options_ok(fields, fields.len() as int);
    lemma_offending_names_exact(fields);
}

proof fn lemma_validate_options_all_ok(fields: Seq<CommandOptionFieldModel>, i: int)
    requires
        0 <= i <= fields.len(),
        validate_options_upto(fields, i) is Ok,
    ensures
        forall|j: int|
            0 <= j < i ==> option_name_valid((#[trigger] fields[j]).name) && description_valid(
                fields[j].description,
            ),
    decreases i,
{
    if i > 0 {
        lemma_validate_options_all_ok(fields, i - 1);
    }
}

} // verus!
