//! Properties of the argument parser that span several functions: what a
//! successful parse contains, when parsing is owed to fail, and that
//! re-serializing a parsed command reproduces the raw arguments it came
//! from.

use vstd::prelude::*;

use crate::command::CommandDataOptionModel;
use crate::command::CommandOptionValueModel;
use crate::command::CommandOptionsErrorModel;
use crate::command::ParsedOptionModel;
use crate::command::find_option;
use crate::command::parse_arguments_spec;
use crate::command::parse_field;
use crate::command::parse_upto;
use crate::command::reserialize_spec;
use crate::command::reserialize_upto;
use crate::schema::CommandOptionFieldModel;

verus! {

/// No two raw argument pairs share a name.
pub open spec fn unique_option_names(options: Seq<CommandDataOptionModel>) -> bool {
    forall|i: int, j: int|
        0 <= i < j < options.len() ==> (#[trigger] options[i]).name != (#[trigger] options[j]).name
}

/// No two declared options share a name.
pub open spec fn unique_field_names(fields: Seq<CommandOptionFieldModel>) -> bool {
    forall|i: int, j: int|
        0 <= i < j < fields.len() ==> (#[trigger] fields[i]).name != (#[trigger] fields[j]).name
}

/// A raw argument list satisfies a declared schema exactly when every raw
/// pair is declared under its name with a matching scalar type and every
/// required option is supplied.
pub open spec fn satisfies_schema(
    fields: Seq<CommandOptionFieldModel>,
    options: Seq<CommandDataOptionModel>,
) -> bool {
    &&& forall|i: int|
        0 <= i < options.len() ==> exists|j: int|
            0 <= j < fields.len() && (#[trigger] fields[j]).name == (#[trigger] options[i]).name
                && options[i].value.kind() == fields[j].option_type
    &&& forall|j: int|
        0 <= j < fields.len() && (#[trigger] fields[j]).required ==> exists|i: int|
            0 <= i < options.len() && (#[trigger] options[i]).name == fields[j].name
}

/// A found raw pair carries the searched name and stands in the list.
proof fn lemma_find_option_some_props(options: Seq<CommandDataOptionModel>, name: Seq<char>)
    ensures
        find_option(options, name) matches Some(o) ==> o.name == name && exists|k: int|
            0 <= k < options.len() && #[trigger] options[k] == o,
    decreases options.len(),
{
    if options.len() > 0 && options[0].name != name {
        lemma_find_option_some_props(options.drop_first(), name);
        if find_option(options, name) is Some {
            let o = find_option(options, name).unwrap();
            let k = choose|k: int|
                0 <= k < options.drop_first().len() && #[trigger] options.drop_first()[k] == o;
            assert(options[k + 1] == o);
        }
    }
}

/// If nothing is found under a name, no pair carries that name.
proof fn lemma_find_option_none_absent(options: Seq<CommandDataOptionModel>, name: Seq<char>)
    requires
        find_option(options, name) is None,
    ensures
        forall|k: int| 0 <= k < options.len() ==> (#[trigger] options[k]).name != name,
    decreases options.len(),
{
    if options.len() > 0 {
        lemma_find_option_none_absent(options.drop_first(), name);
        assert forall|k: int| 0 <= k < options.len() implies (#[trigger] options[k]).name != name by {
            if k > 0 {
                assert(options.drop_first()[k - 1] == options[k]);
            }
        }
    }
}

/// In a list without repeated names, looking any member's name up finds
/// exactly that member.
proof fn lemma_find_option_unique(
    options: Seq<CommandDataOptionModel>,
    k: int,
)
    requires
        unique_option_names(options),
        0 <= k < options.len(),
    ensures
        find_option(options, options[k].name) == Some(options[k]),
    decreases k,
{
    if k == 0 {
    } else {
        assert(options[0].name != options[k].name);
        assert(unique_option_names(options.drop_first())) by {
            assert forall|i: int, j: int|
                0 <= i < j < options.drop_first().len() implies (#[trigger] options.drop_first()[i]).name
                != (#[trigger] options.drop_first()[j]).name by {
                assert(options.drop_first()[i] == options[i + 1]);
                assert(options.drop_first()[j] == options[j + 1]);
            }
        }
        lemma_find_option_unique(options.drop_first(), k - 1);
        assert(options.drop_first()[k - 1] == options[k]);
    }
}

/// A successful parse of the first `i` declared options means each of them
/// parsed, and the result holds their names and values in order.
proof fn lemma_parse_upto_ok_entries(
    fields: Seq<CommandOptionFieldModel>,
    options: Seq<CommandDataOptionModel>,
    i: int,
)
    requires
        0 <= i <= fields.len(),
        parse_upto(fields, options, i) is Ok,
    ensures
        parse_upto(fields, options, i) matches Ok(acc) && acc.len() == i && forall|k: int|
            0 <= k < i ==> (#[trigger] acc[k]).name == fields[k].name && parse_field(
                fields[k].name,
                fields[k].option_type,
                fields[k].required,
                options,
            ) == Ok::<Option<CommandOptionValueModel>, CommandOptionsErrorModel>(acc[k].value),
    decreases i,
{
    if i > 0 {
        lemma_parse_upto_ok_entries(fields, options, i - 1);
    }
}

/// If each of the first `i` declared options parses on its own, parsing
/// them together succeeds.
proof fn lemma_parse_upto_ok_if_fields_ok(
    fields: Seq<CommandOptionFieldModel>,
    options: Seq<CommandDataOptionModel>,
    i: int,
)
    requires
        0 <= i <= fields.len(),
        forall|k: int|
            0 <= k < i ==> #[trigger] parse_field(
                fields[k].name,
                fields[k].option_type,
                fields[k].required,
                options,
            ) is Ok,
    ensures
        parse_upto(fields, options, i) is Ok,
    decreases i,
{
    if i > 0 {
        lemma_parse_upto_ok_if_fields_ok(fields, options, i - 1);
    }
}

/// A failing declared option makes the whole parse fail: no partial
/// command comes back.
proof fn lemma_parse_field_err_fails(
    fields: Seq<CommandOptionFieldModel>,
    options: Seq<CommandDataOptionModel>,
    j: int,
)
    requires
        0 <= j < fields.len(),
        parse_field(fields[j].name, fields[j].option_type, fields[j].required, options) is Err,
    ensures
        parse_arguments_spec(fields, options) is Err,
{
    if parse_arguments_spec(fields, options) is Ok {
        lemma_parse_upto_ok_entries(fields, options, fields.len() as int);
        let acc = parse_upto(fields, options, fields.len() as int)->Ok_0;
        assert(acc[j].name == fields[j].name);
        assert(false);
    }
}

/// The first failing declared option names the error of the whole parse.
proof fn lemma_first_error_wins(
    fields: Seq<CommandOptionFieldModel>,
    options: Seq<CommandDataOptionModel>,
    j: int,
    e: CommandOptionsErrorModel,
)
    requires
        0 <= j < fields.len(),
        parse_field(fields[j].name, fields[j].option_type, fields[j].required, options) == Err::<
            Option<CommandOptionValueModel>,
            CommandOptionsErrorModel,
        >(e),
        forall|k: int|
            0 <= k < j ==> #[trigger] parse_field(
                fields[k].name,
                fields[k].option_type,
                fields[k].required,
                options,
            ) is Ok,
    ensures
        parse_arguments_spec(fields, options) == Err::<
            Seq<ParsedOptionModel>,
            CommandOptionsErrorModel,
        >(e),
    decreases fields.len() - j,
{
    lemma_parse_upto_ok_if_fields_ok(fields, options, j);
    assert(parse_upto(fields, options, j + 1) == Err::<
        Seq<ParsedOptionModel>,
        CommandOptionsErrorModel,
    >(e));
    crate::command::lemma_parse_upto_error_persists(fields, options, j + 1, e);
}

/// Missing-required: a raw list that omits some required option never
/// parses; no partial command instance is returned.
pub proof fn lemma_missing_required_fails(
    fields: Seq<CommandOptionFieldModel>,
    options: Seq<CommandDataOptionModel>,
    j: int,
)
    requires
        0 <= j < fields.len(),
        fields[j].required,
        find_option(options, fields[j].name) is None,
    ensures
        parse_arguments_spec(fields, options) is Err,
{
    lemma_parse_field_err_fails(fields, options, j);
}

/// Missing-required, exactly: when every earlier declared option parses,
/// the parse fails naming the omitted required option.
pub proof fn lemma_missing_required_exact(
    fields: Seq<CommandOptionFieldModel>,
    options: Seq<CommandDataOptionModel>,
    j: int,
)
    requires
        0 <= j < fields.len(),
        fields[j].required,
        find_option(options, fields[j].name) is None,
        forall|k: int|
            0 <= k < j ==> #[trigger] parse_field(
                fields[k].name,
                fields[k].option_type,
                fields[k].required,
                options,
            ) is Ok,
    ensures
        parse_arguments_spec(fields, options) == Err::<
            Seq<ParsedOptionModel>,
            CommandOptionsErrorModel,
        >(CommandOptionsErrorModel::MissingRequiredOption(fields[j].name)),
{
    lemma_first_error_wins(
        fields,
        options,
        j,
        CommandOptionsErrorModel::MissingRequiredOption(fields[j].name),
    );
}

/// Type-mismatch: a raw value of the wrong scalar type under a declared
/// name never parses.
pub proof fn lemma_type_mismatch_fails(
    fields: Seq<CommandOptionFieldModel>,
    options: Seq<CommandDataOptionModel>,
    j: int,
    o: CommandDataOptionModel,
)
    requires
        0 <= j < fields.len(),
        find_option(options, fields[j].name) == Some(o),
        o.value.kind() != fields[j].option_type,
    ensures
        parse_arguments_spec(fields, options) is Err,
{
    lemma_parse_field_err_fails(fields, options, j);
}

/// Type-mismatch, exactly: when every earlier declared option parses, the
/// parse fails naming the option and the scalar type actually received.
pub proof fn lemma_type_mismatch_exact(
    fields: Seq<CommandOptionFieldModel>,
    options: Seq<CommandDataOptionModel>,
    j: int,
    o: CommandDataOptionModel,
)
    requires
        0 <= j < fields.len(),
        find_option(options, fields[j].name) == Some(o),
        o.value.kind() != fields[j].option_type,
        forall|k: int|
            0 <= k < j ==> #[trigger] parse_field(
                fields[k].name,
                fields[k].option_type,
                fields[k].required,
                options,
            ) is Ok,
    ensures
        parse_arguments_spec(fields, options) == Err::<
            Seq<ParsedOptionModel>,
            CommandOptionsErrorModel,
        >(CommandOptionsErrorModel::UnexpectedOptionType(fields[j].name, o.value.kind())),
{
    lemma_first_error_wins(
        fields,
        options,
        j,
        CommandOptionsErrorModel::UnexpectedOptionType(fields[j].name, o.value.kind()),
    );
}

/// Every re-serialized pair comes from a parsed entry whose value was
/// present.
proof fn lemma_reserialize_membership(parsed: Seq<ParsedOptionModel>, i: int)
    requires
        0 <= i <= parsed.len(),
    ensures
        forall|k: int|
            0 <= k < reserialize_upto(parsed, i).len() ==> exists|j: int|
                0 <= j < i && (#[trigger] reserialize_upto(parsed, i)[k]).name == parsed[j].name
                    && parsed[j].value == Some(reserialize_upto(parsed, i)[k].value),
        forall|j: int|
            0 <= j < i && (#[trigger] parsed[j]).value is Some ==> exists|k: int|
                0 <= k < reserialize_upto(parsed, i).len() && reserialize_upto(parsed, i)[k]
                    == (CommandDataOptionModel {
                    name: parsed[j].name,
                    value: parsed[j].value.unwrap(),
                }),
    decreases i,
{
    if i > 0 {
        lemma_reserialize_membership(parsed, i - 1);
        let rest = reserialize_upto(parsed, i - 1);
        let whole = reserialize_upto(parsed, i);
        if parsed[i - 1].value is Some {
            assert forall|j: int|
                0 <= j < i && (#[trigger] parsed[j]).value is Some implies exists|k: int|
                0 <= k < whole.len() && whole[k] == (CommandDataOptionModel {
                    name: parsed[j].name,
                    value: parsed[j].value.unwrap(),
                }) by {
                if j < i - 1 {
                    let k = choose|k: int|
                        0 <= k < rest.len() && rest[k] == (CommandDataOptionModel {
                            name: parsed[j].name,
                            value: parsed[j].value.unwrap(),
                        });
                    assert(whole[k] == rest[k]);
                } else {
                    assert(whole[whole.len() - 1] == (CommandDataOptionModel {
                        name: parsed[j].name,
                        value: parsed[j].value.unwrap(),
                    }));
                }
            }
        }
    }
}

/// When no two parsed entries share a name, no two re-serialized pairs do
/// either.
proof fn lemma_reserialize_unique_names(parsed: Seq<ParsedOptionModel>, i: int)
    requires
        0 <= i <= parsed.len(),
        forall|j1: int, j2: int|
            0 <= j1 < j2 < parsed.len() ==> (#[trigger] parsed[j1]).name != (
            #[trigger] parsed[j2]).name,
    ensures
        unique_option_names(reserialize_upto(parsed, i)),
    decreases i,
{
    if i > 0 {
        lemma_reserialize_unique_names(parsed, i - 1);
        lemma_reserialize_membership(parsed, i - 1);
        let rest = reserialize_upto(parsed, i - 1);
        let whole = reserialize_upto(parsed, i);
        assert forall|k1: int, k2: int|
            0 <= k1 < k2 < whole.len() implies (#[trigger] whole[k1]).name != (
        #[trigger] whole[k2]).name by {
            if k2 == rest.len() {
                let j1 = choose|j: int|
                    0 <= j < i - 1 && (#[trigger] rest[k1]).name == parsed[j].name
                        && parsed[j].value == Some(rest[k1].value);
                assert(parsed[j1].name != parsed[i - 1].name);
            }
        }
    }
}

/// Round-trip: a raw argument list that satisfies a schema exactly parses,
/// and re-serializing the parsed command reproduces the raw pairs
/// unchanged — each raw name resolves to the identical pair on both sides.
pub proof fn lemma_round_trip(
    fields: Seq<CommandOptionFieldModel>,
    options: Seq<CommandDataOptionModel>,
)
    requires
        unique_field_names(fields),
        unique_option_names(options),
        satisfies_schema(fields, options),
    ensures
        parse_arguments_spec(fields, options) is Ok,
        ({
            let out = reserialize_spec(parse_arguments_spec(fields, options)->Ok_0);
            &&& forall|i: int|
                0 <= i < options.len() ==> find_option(out, (#[trigger] options[i]).name) == Some(
                    options[i],
                )
            &&& forall|k: int|
                0 <= k < out.len() ==> find_option(options, (#[trigger] out[k]).name) == Some(
                    out[k],
                )
        }),
{
    let n = fields.len() as int;
    assert forall|k: int| 0 <= k < n implies #[trigger] parse_field(
        fields[k].name,
        fields[k].option_type,
        fields[k].required,
        options,
    ) is Ok by {
        if find_option(options, fields[k].name) is None {
            lemma_find_option_none_absent(options, fields[k].name);
            if fields[k].required {
                let i = choose|i: int|
                    0 <= i < options.len() && (#[trigger] options[i]).name == fields[k].name;
                assert(false);
            }
        } else {
            lemma_find_option_some_props(options, fields[k].name);
            let o = find_option(options, fields[k].name).unwrap();
            let io = choose|io: int| 0 <= io < options.len() && #[trigger] options[io] == o;
            let j = choose|j: int|
                0 <= j < fields.len() && (#[trigger] fields[j]).name == options[io].name
                    && options[io].value.kind() == fields[j].option_type;
            if j != k {
                assert(fields[j].name == fields[k].name);
                assert(false);
            }
        }
    }
    lemma_parse_upto_ok_if_fields_ok(fields, options, n);
    lemma_parse_upto_ok_entries(fields, options, n);
    let parsed = parse_arguments_spec(fields, options)->Ok_0;
    let out = reserialize_spec(parsed);
    lemma_reserialize_membership(parsed, n);
    assert forall|j1: int, j2: int|
        0 <= j1 < j2 < parsed.len() implies (#[trigger] parsed[j1]).name != (
    #[trigger] parsed[j2]).name by {
        assert(parsed[j1].name == fields[j1].name);
        assert(parsed[j2].name == fields[j2].name);
    }
    lemma_reserialize_unique_names(parsed, n);

    assert forall|i: int|
        0 <= i < options.len() implies find_option(out, (#[trigger] options[i]).name) == Some(
        options[i],
    ) by {
        let j = choose|j: int|
            0 <= j < fields.len() && (#[trigger] fields[j]).name == options[i].name
                && options[i].value.kind() == fields[j].option_type;
        lemma_find_option_unique(options, i);
        assert(find_option(options, fields[j].name) == Some(options[i]));
        assert(parse_field(fields[j].name, fields[j].option_type, fields[j].required, options)
            == Ok::<Option<CommandOptionValueModel>, CommandOptionsErrorModel>(
            Some(options[i].value),
        ));
        assert(parsed[j].value == Some(options[i].value));
        let k = choose|k: int|
            0 <= k < out.len() && out[k] == (CommandDataOptionModel {
                name: parsed[j].name,
                value: parsed[j].value.unwrap(),
            });
        assert(out[k] == options[i]);
        lemma_find_option_unique(out, k);
    }
    assert forall|k: int|
        0 <= k < out.len() implies find_option(options, (#[trigger] out[k]).name) == Some(
        out[k],
    ) by {
        let j = choose|j: int|
            0 <= j < parsed.len() && (#[trigger] out[k]).name == parsed[j].name && parsed[j].value
                == Some(out[k].value);
        assert(parse_field(fields[j].name, fields[j].option_type, fields[j].required, options)
            == Ok::<Option<CommandOptionValueModel>, CommandOptionsErrorModel>(
            Some(out[k].value),
        ));
        lemma_find_option_some_props(options, fields[j].name);
        let o = find_option(options, fields[j].name).unwrap();
        assert(o == out[k]);
    }
}

} // verus!
