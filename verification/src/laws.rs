//! What holds of reading and writing, whatever the values.

use crate::argument::{
    argument_list_json, decode_argument, decode_argument_list, decode_arity, encode_argument,
    encode_arity, ArgumentView, ArityView,
};
use crate::command::{
    command_list_json, decode_command, decode_command_list, decode_each_command, encode_command,
    CommandView,
};
use crate::document::{
    decode_document, encode_document, json_alone, load, surfaced, yaml_alone, DocumentView,
};
use crate::error::{DecodeError, ErrorView};
use crate::exit_code::{
    decode_exit_code, decode_exit_code_list, encode_exit_code, exit_code_list_json, ExitCodeView,
};
use crate::field::Field;
use crate::info::{
    decode_contact, decode_conventions, decode_info, decode_license, encode_contact,
    encode_conventions, encode_info, encode_license, ContactView, ConventionsView, InfoView,
    LicenseView,
};
use crate::json::JsonView;
use crate::metadata::{
    decode_metadata, decode_metadata_list, encode_metadata, metadata_list_json, MetadataView,
};
use crate::option::{
    decode_option, decode_option_list, encode_option, option_list_json, OptionView,
};
use crate::schema::{
    group_members, items_of, lemma_collect_success, lemma_text_list_round_trip, list_json, member,
    present, with,
};
use vstd::prelude::*;

verus! {

/// A contact that is written and read again is the same contact.
pub proof fn lemma_contact_round_trip(c: ContactView)
    ensures
        decode_contact(encode_contact(c)) == Ok::<ContactView, DecodeError>(c),
{
    broadcast use group_members;

}

/// A license that is written and read again is the same license.
pub proof fn lemma_license_round_trip(l: LicenseView)
    ensures
        decode_license(encode_license(l)) == Ok::<LicenseView, DecodeError>(l),
{
    broadcast use group_members;

}

/// Conventions that are written and read again are the same conventions.
pub proof fn lemma_conventions_round_trip(c: ConventionsView)
    ensures
        decode_conventions(encode_conventions(c)) == Ok::<ConventionsView, DecodeError>(c),
{
    broadcast use group_members;

}

/// An identity that is written and read again is the same identity.
pub proof fn lemma_info_round_trip(i: InfoView)
    ensures
        decode_info(encode_info(i)) == Ok::<InfoView, DecodeError>(i),
{
    broadcast use group_members;

    if i.contact is Some {
        lemma_contact_round_trip(i.contact->Some_0);
    }
    if i.license is Some {
        lemma_license_round_trip(i.license->Some_0);
    }
}

/// An arity that is written and read again is the same arity.
pub proof fn lemma_arity_round_trip(a: ArityView)
    ensures
        decode_arity(encode_arity(a)) == Ok::<ArityView, DecodeError>(a),
{
    broadcast use group_members;

}

/// An exit status that is written and read again is the same exit status.
pub proof fn lemma_exit_code_round_trip(e: ExitCodeView)
    ensures
        decode_exit_code(encode_exit_code(e)) == Ok::<ExitCodeView, DecodeError>(e),
{
    broadcast use group_members;

}

/// A metadata entry that is written and read again is the same entry: a
/// value of `null` comes back as a value, and no value as none.
pub proof fn lemma_metadata_round_trip(m: MetadataView)
    ensures
        decode_metadata(encode_metadata(m)) == Ok::<MetadataView, DecodeError>(m),
{
    broadcast use group_members;

}

/// A run of exit statuses that was written reads back as the same run.
pub proof fn lemma_exit_code_list_round_trip(j: JsonView, f: Field, items: Seq<ExitCodeView>)
    requires
        member(j, f) == list_json(exit_code_list_json(items)),
    ensures
        decode_exit_code_list(j, f) == Ok::<Seq<ExitCodeView>, DecodeError>(items),
{
    let trees = exit_code_list_json(items);
    let results = trees.map_values(|x: JsonView| decode_exit_code(x));
    assert forall|i: int| 0 <= i < results.len() implies #[trigger] results[i] == Ok::<
        ExitCodeView,
        DecodeError,
    >(items[i]) by {
        lemma_exit_code_round_trip(items[i]);
    }
    lemma_collect_success(results, items);
    if items.len() == 0 {
        assert(Seq::<JsonView>::empty().map_values(|x: JsonView| decode_exit_code(x)) =~= results);
    }
}

/// A run of metadata entries that was written reads back as the same run.
pub proof fn lemma_metadata_list_round_trip(j: JsonView, f: Field, items: Seq<MetadataView>)
    requires
        member(j, f) == list_json(metadata_list_json(items)),
    ensures
        decode_metadata_list(j, f) == Ok::<Seq<MetadataView>, DecodeError>(items),
{
    let trees = metadata_list_json(items);
    let results = trees.map_values(|x: JsonView| decode_metadata(x));
    assert forall|i: int| 0 <= i < results.len() implies #[trigger] results[i] == Ok::<
        MetadataView,
        DecodeError,
    >(items[i]) by {
        lemma_metadata_round_trip(items[i]);
    }
    lemma_collect_success(results, items);
    if items.len() == 0 {
        assert(Seq::<JsonView>::empty().map_values(|x: JsonView| decode_metadata(x)) =~= results);
    }
}

/// An argument that is written and read again is the same argument.
pub proof fn lemma_argument_round_trip(a: ArgumentView)
    ensures
        decode_argument(encode_argument(a)) == Ok::<ArgumentView, DecodeError>(a),
{
    broadcast use group_members;

    let j = encode_argument(a);
    if a.arity is Some {
        lemma_arity_round_trip(a.arity->Some_0);
    }
    lemma_text_list_round_trip(j, Field::AcceptedValues, a.accepted_values);
    lemma_metadata_list_round_trip(j, Field::Metadata, a.metadata);
}

/// A run of arguments that was written reads back as the same run.
pub proof fn lemma_argument_list_round_trip(j: JsonView, f: Field, items: Seq<ArgumentView>)
    requires
        member(j, f) == list_json(argument_list_json(items)),
    ensures
        decode_argument_list(j, f) == Ok::<Seq<ArgumentView>, DecodeError>(items),
{
    let trees = argument_list_json(items);
    let results = trees.map_values(|x: JsonView| decode_argument(x));
    assert forall|i: int| 0 <= i < results.len() implies #[trigger] results[i] == Ok::<
        ArgumentView,
        DecodeError,
    >(items[i]) by {
        lemma_argument_round_trip(items[i]);
    }
    lemma_collect_success(results, items);
    if items.len() == 0 {
        assert(Seq::<JsonView>::empty().map_values(|x: JsonView| decode_argument(x)) =~= results);
    }
}

/// An option that is written and read again is the same option.
pub proof fn lemma_option_round_trip(o: OptionView)
    ensures
        decode_option(encode_option(o)) == Ok::<OptionView, DecodeError>(o),
{
    broadcast use group_members;

    let j = encode_option(o);
    lemma_text_list_round_trip(j, Field::Aliases, o.aliases);
    lemma_argument_list_round_trip(j, Field::Arguments, o.arguments);
    lemma_metadata_list_round_trip(j, Field::Metadata, o.metadata);
}

/// A run of options that was written reads back as the same run.
pub proof fn lemma_option_list_round_trip(j: JsonView, f: Field, items: Seq<OptionView>)
    requires
        member(j, f) == list_json(option_list_json(items)),
    ensures
        decode_option_list(j, f) == Ok::<Seq<OptionView>, DecodeError>(items),
{
    let trees = option_list_json(items);
    let results = trees.map_values(|x: JsonView| decode_option(x));
    assert forall|i: int| 0 <= i < results.len() implies #[trigger] results[i] == Ok::<
        OptionView,
        DecodeError,
    >(items[i]) by {
        lemma_option_round_trip(items[i]);
    }
    lemma_collect_success(results, items);
    if items.len() == 0 {
        assert(Seq::<JsonView>::empty().map_values(|x: JsonView| decode_option(x)) =~= results);
    }
}

/// A command that is written and read again is the same command, with the
/// commands below it.
pub proof fn lemma_command_round_trip(c: CommandView)
    ensures
        decode_command(encode_command(c)) == Ok::<CommandView, DecodeError>(c),
    decreases c, 1int,
{
    broadcast use group_members;

    let j = encode_command(c);
    lemma_text_list_round_trip(j, Field::Aliases, c.aliases);
    lemma_option_list_round_trip(j, Field::Options, c.options);
    lemma_argument_list_round_trip(j, Field::Arguments, c.arguments);
    lemma_command_list_round_trip(j, Field::Commands, c.commands);
    lemma_exit_code_list_round_trip(j, Field::ExitCodes, c.exit_codes);
    lemma_text_list_round_trip(j, Field::Examples, c.examples);
    lemma_metadata_list_round_trip(j, Field::Metadata, c.metadata);
}

/// A run of commands that was written reads back as the same run.
pub proof fn lemma_command_list_round_trip(j: JsonView, f: Field, items: Seq<CommandView>)
    requires
        member(j, f) == list_json(command_list_json(items)),
    ensures
        decode_command_list(j, f) == Ok::<Seq<CommandView>, DecodeError>(items),
    decreases items, 0int,
{
    let results = decode_each_command(j, f);
    assert(results.len() == items.len());
    assert forall|i: int| 0 <= i < results.len() implies #[trigger] results[i] == Ok::<
        CommandView,
        DecodeError,
    >(items[i]) by {
        lemma_command_round_trip(items[i]);
    }
    lemma_collect_success(results, items);
}

/// Round trip: a document that is written as a tree and read again is the
/// same document, where an empty sequence stands for an absent one.
pub proof fn lemma_document_round_trip(d: DocumentView)
    ensures
        decode_document(encode_document(d)) == Ok::<DocumentView, DecodeError>(d),
{
    broadcast use group_members;

    let j = encode_document(d);
    lemma_info_round_trip(d.info);
    if d.conventions is Some {
        lemma_conventions_round_trip(d.conventions->Some_0);
    }
    lemma_argument_list_round_trip(j, Field::Arguments, d.arguments);
    lemma_option_list_round_trip(j, Field::Options, d.options);
    lemma_command_list_round_trip(j, Field::Commands, d.commands);
    lemma_exit_code_list_round_trip(j, Field::ExitCodes, d.exit_codes);
    lemma_text_list_round_trip(j, Field::Examples, d.examples);
    lemma_metadata_list_round_trip(j, Field::Metadata, d.metadata);
}

/// Round trip through a load: where the JSON parser reads back the tree that
/// was written, and the YAML parser reads the same tree or gives no
/// document, the load gives the document back.
pub proof fn lemma_round_trip_load(
    d: DocumentView,
    yaml: Option<JsonView>,
    json: Result<JsonView, Seq<char>>,
)
    requires
        json == Ok::<JsonView, Seq<char>>(encode_document(d)),
        yaml_alone(yaml) is None || yaml == Some(encode_document(d)),
    ensures
        load(yaml, json) == Ok::<DocumentView, Seq<char>>(d),
{
    lemma_document_round_trip(d);
}

/// Writing is idempotent over a round trip: what was read back is written
/// as the same tree.
pub proof fn lemma_second_round_trip(d: DocumentView)
    ensures
        encode_document(decode_document(encode_document(d))->Ok_0) == encode_document(d),
{
    lemma_document_round_trip(d);
}

/// Format fallback: where the first format gives no document and the second
/// gives one, the load succeeds with the document of the second.
pub proof fn lemma_format_fallback(yaml: Option<JsonView>, json: Result<JsonView, Seq<char>>)
    requires
        yaml_alone(yaml) is None,
        json_alone(json) is Ok,
    ensures
        load(yaml, json) == json_alone(json),
{
}

/// Format precedence: where both formats give a document, the load gives
/// the one of the first, whatever the second would have given.
pub proof fn lemma_format_precedence(yaml: Option<JsonView>, json: Result<JsonView, Seq<char>>)
    requires
        yaml_alone(yaml) is Some,
        json_alone(json) is Ok,
    ensures
        load(yaml, json) == Ok::<DocumentView, Seq<char>>(yaml_alone(yaml)->Some_0),
{
}

/// Error surfacing: where neither format gives a document, the load fails
/// with the diagnostic of the second format, never with one of the first.
pub proof fn lemma_error_surfacing(yaml: Option<JsonView>, json: Result<JsonView, Seq<char>>)
    requires
        yaml_alone(yaml) is None,
        json_alone(json) is Err,
    ensures
        load(yaml, json) == json_alone(json),
        surfaced(load(yaml, json)) == Err::<DocumentView, ErrorView>(
            ErrorView::Parse(json_alone(json)->Err_0),
        ),
{
}

/// Whether a tree lacks the member `opencli`, or the member `title` of its
/// member `info`.
pub open spec fn lacks_required(j: JsonView) -> bool {
    !present(j, Field::Opencli) || !present(member(j, Field::Info), Field::Title)
}

/// Required-field enforcement: a tree without `opencli` or without
/// `info.title` is no document.
pub proof fn lemma_required_fields(j: JsonView)
    requires
        lacks_required(j),
    ensures
        decode_document(j) is Err,
{
}

/// Required-field enforcement under both formats: where whatever either
/// parser made of a text lacks a required member, the load fails.
pub proof fn lemma_required_fields_load(yaml: Option<JsonView>, json: Result<JsonView, Seq<char>>)
    requires
        yaml is Some ==> lacks_required(yaml->Some_0),
        json is Ok ==> lacks_required(json->Ok_0),
    ensures
        load(yaml, json) is Err,
{
    if yaml is Some {
        lemma_required_fields(yaml->Some_0);
    }
    if json is Ok {
        lemma_required_fields(json->Ok_0);
    }
}

/// Typed members: a tree whose `opencli` is there and is no text is no
/// document, whichever format it was written in. A number is no text, also
/// where it is written as one might write a version.
pub proof fn lemma_text_member_is_typed(j: JsonView)
    requires
        j is Object,
        present(j, Field::Opencli),
        !(member(j, Field::Opencli) is Text),
    ensures
        decode_document(j) == Err::<DocumentView, DecodeError>(
            DecodeError::InvalidField(Field::Opencli),
        ),
        yaml_alone(Some(j)) is None,
{
}

/// Sequence defaulting for any member of any record: where the member is
/// missing, an empty list or `null`, the sequence has no items.
pub proof fn lemma_empty_forms(j: JsonView, f: Field)
    requires
        !present(j, f),
    ensures
        items_of(j, f) == Some(Seq::<JsonView>::empty()),
        items_of(with(j, f, JsonView::List(Seq::empty())), f) == items_of(j, f),
        items_of(with(j, f, JsonView::Null), f) == items_of(j, f),
{
    broadcast use group_members;

}

/// Sequence defaulting: a command without the member `options`, one with an
/// empty list under that name and one with `null` there read as the same
/// command, and its options are empty.
pub proof fn lemma_sequence_defaulting(j: JsonView)
    requires
        j is Object,
        !present(j, Field::Options),
    ensures
        decode_command(with(j, Field::Options, JsonView::List(Seq::empty()))) == decode_command(j),
        decode_command(with(j, Field::Options, JsonView::Null)) == decode_command(j),
        decode_command(j) matches Ok(c) ==> c.options == Seq::<OptionView>::empty(),
{
    broadcast use group_members;

    let listed = with(j, Field::Options, JsonView::List(Seq::empty()));
    let nulled = with(j, Field::Options, JsonView::Null);
    let none = Seq::<JsonView>::empty().map_values(|x: JsonView| decode_option(x));
    assert(none =~= Seq::empty());
    let below = decode_each_command(j, Field::Commands);
    assert(decode_each_command(listed, Field::Commands) =~= below);
    assert(decode_each_command(nulled, Field::Commands) =~= below);
}

} // verus!
