//! The named flags and options of a command.

use crate::argument::{
    argument_list_json, decode_argument_list, put_argument_list, read_argument_list, ArgumentView,
    OpenCliArgument,
};
use crate::error::DecodeError;
use crate::field::Field;
use crate::json::{json_is_object, json_object, json_view, views_of, JsonView};
use crate::metadata::{
    decode_metadata_list, metadata_list_json, put_metadata_list, read_metadata_list, MetadataView,
    OpenCliMetadata,
};
use crate::schema::{
    collect, deep, empty_object, items_of, lemma_collect_failure, lemma_collect_step, optional_flag,
    optional_flag_json, optional_text, optional_text_json, put_list, put_optional_flag,
    put_optional_text, put_text, put_text_list, read_items, read_optional_flag, read_optional_text,
    read_required_text, read_text_list, records, required_text, text_json, text_list,
    text_list_json, with, with_list, with_optional,
};
use vstd::prelude::*;

verus! {

/// A named flag or option of a command. It may take argument values of its
/// own.
#[derive(Debug, PartialEq)]
pub struct OpenCliOption {
    /// The option name.
    pub name: String,
    /// Whether the option must be given.
    pub required: Option<bool>,
    /// Other names of the option.
    pub aliases: Vec<String>,
    /// The values that the option takes.
    pub arguments: Vec<OpenCliArgument>,
    /// The group that the option belongs to.
    pub group: Option<String>,
    /// The option description.
    pub description: Option<String>,
    /// Whether the option also holds for the sub commands of its command.
    pub recursive: Option<bool>,
    /// Whether the option is hidden.
    pub hidden: Option<bool>,
    /// Custom metadata.
    pub metadata: Vec<OpenCliMetadata>,
}

/// What an option holds, as mathematical values.
pub struct OptionView {
    pub name: Seq<char>,
    pub required: Option<bool>,
    pub aliases: Seq<Seq<char>>,
    pub arguments: Seq<ArgumentView>,
    pub group: Option<Seq<char>>,
    pub description: Option<Seq<char>>,
    pub recursive: Option<bool>,
    pub hidden: Option<bool>,
    pub metadata: Seq<MetadataView>,
}

impl DeepView for OpenCliOption {
    type V = OptionView;

    open spec fn deep_view(&self) -> OptionView {
        OptionView {
            name: self.name@,
            required: self.required,
            aliases: self.aliases.deep_view(),
            arguments: self.arguments.deep_view(),
            group: self.group.deep_view(),
            description: self.description.deep_view(),
            recursive: self.recursive,
            hidden: self.hidden,
            metadata: self.metadata.deep_view(),
        }
    }
}

impl View for OpenCliOption {
    type V = OptionView;

    open spec fn view(&self) -> OptionView {
        self.deep_view()
    }
}

/// The option that a tree describes. `name` is required.
pub open spec fn decode_option(j: JsonView) -> Result<OptionView, DecodeError> {
    let name = required_text(j, Field::Name);
    let required = optional_flag(j, Field::Required);
    let aliases = text_list(j, Field::Aliases);
    let arguments = decode_argument_list(j, Field::Arguments);
    let group = optional_text(j, Field::Group);
    let description = optional_text(j, Field::Description);
    let recursive = optional_flag(j, Field::Recursive);
    let hidden = optional_flag(j, Field::Hidden);
    let metadata = decode_metadata_list(j, Field::Metadata);
    if !(j is Object) {
        Err(DecodeError::NotAnObject)
    } else if name is Err {
        Err(name->Err_0)
    } else if required is Err {
        Err(required->Err_0)
    } else if aliases is Err {
        Err(aliases->Err_0)
    } else if arguments is Err {
        Err(arguments->Err_0)
    } else if group is Err {
        Err(group->Err_0)
    } else if description is Err {
        Err(description->Err_0)
    } else if recursive is Err {
        Err(recursive->Err_0)
    } else if hidden is Err {
        Err(hidden->Err_0)
    } else if metadata is Err {
        Err(metadata->Err_0)
    } else {
        Ok(
            OptionView {
                name: name->Ok_0,
                required: required->Ok_0,
                aliases: aliases->Ok_0,
                arguments: arguments->Ok_0,
                group: group->Ok_0,
                description: description->Ok_0,
                recursive: recursive->Ok_0,
                hidden: hidden->Ok_0,
                metadata: metadata->Ok_0,
            },
        )
    }
}

/// The tree that is written for an option.
pub open spec fn encode_option(o: OptionView) -> JsonView {
    let j = empty_object();
    let j = with(j, Field::Name, text_json(o.name));
    let j = with_optional(j, Field::Required, optional_flag_json(o.required));
    let j = with_list(j, Field::Aliases, text_list_json(o.aliases));
    let j = with_list(j, Field::Arguments, argument_list_json(o.arguments));
    let j = with_optional(j, Field::Group, optional_text_json(o.group));
    let j = with_optional(j, Field::Description, optional_text_json(o.description));
    let j = with_optional(j, Field::Recursive, optional_flag_json(o.recursive));
    let j = with_optional(j, Field::Hidden, optional_flag_json(o.hidden));
    with_list(j, Field::Metadata, metadata_list_json(o.metadata))
}

impl Clone for OpenCliOption {
    fn clone(&self) -> (r: Self)
        ensures
            r@ == self@,
    {
        let aliases = self.aliases.clone();
        let arguments = self.arguments.clone();
        let metadata = self.metadata.clone();
        proof {
            assert(aliases.deep_view() =~= self.aliases.deep_view());
            assert(arguments.deep_view() =~= self.arguments.deep_view());
            assert(metadata.deep_view() =~= self.metadata.deep_view());
        }
        OpenCliOption {
            name: self.name.clone(),
            required: self.required,
            aliases,
            arguments,
            group: self.group.clone(),
            description: self.description.clone(),
            recursive: self.recursive,
            hidden: self.hidden,
            metadata,
        }
    }
}

impl OpenCliOption {
    /// Reads an option from a tree.
    pub fn from_value(v: &serde_json::Value) -> (r: Result<Self, DecodeError>)
        ensures
            deep(r) == decode_option(json_view(*v)),
    {
        if !json_is_object(v) {
            return Err(DecodeError::NotAnObject);
        }
        let name = read_required_text(v, Field::Name)?;
        let required = read_optional_flag(v, Field::Required)?;
        let aliases = read_text_list(v, Field::Aliases)?;
        let arguments = read_argument_list(v, Field::Arguments)?;
        let group = read_optional_text(v, Field::Group)?;
        let description = read_optional_text(v, Field::Description)?;
        let recursive = read_optional_flag(v, Field::Recursive)?;
        let hidden = read_optional_flag(v, Field::Hidden)?;
        let metadata = read_metadata_list(v, Field::Metadata)?;
        Ok(
            OpenCliOption {
                name,
                required,
                aliases,
                arguments,
                group,
                description,
                recursive,
                hidden,
                metadata,
            },
        )
    }

    /// Writes the option as a tree.
    pub fn to_value(&self) -> (r: serde_json::Value)
        ensures
            json_view(r) == encode_option(self@),
    {
        let mut obj = json_object();
        put_text(&mut obj, Field::Name, self.name.as_str());
        put_optional_flag(&mut obj, Field::Required, self.required);
        put_text_list(&mut obj, Field::Aliases, &self.aliases);
        put_argument_list(&mut obj, Field::Arguments, &self.arguments);
        put_optional_text(&mut obj, Field::Group, &self.group);
        put_optional_text(&mut obj, Field::Description, &self.description);
        put_optional_flag(&mut obj, Field::Recursive, self.recursive);
        put_optional_flag(&mut obj, Field::Hidden, self.hidden);
        put_metadata_list(&mut obj, Field::Metadata, &self.metadata);
        obj
    }
}

/// The options under a sequence member.
pub open spec fn decode_option_list(j: JsonView, f: Field) -> Result<Seq<OptionView>, DecodeError> {
    records(items_of(j, f), f, |x: JsonView| decode_option(x))
}

/// The trees that are written for a run of options.
pub open spec fn option_list_json(items: Seq<OptionView>) -> Seq<JsonView> {
    items.map_values(|x: OptionView| encode_option(x))
}

/// Reads the records under a sequence member.
pub(crate) fn read_option_list(v: &serde_json::Value, f: Field) -> (r: Result<
    Vec<OpenCliOption>,
    DecodeError,
>)
    ensures
        deep(r) == decode_option_list(json_view(*v), f),
{
    let mut out: Vec<OpenCliOption> = Vec::new();
    let found = read_items(v, f)?;
    match found {
        None => {
            proof {
                let none = Seq::<JsonView>::empty();
                assert(none.map_values(|x: JsonView| decode_option(x)).len() == 0);
                assert(out.deep_view() =~= Seq::empty());
            }
        },
        Some(items) => {
            let ghost results = views_of(items@).map_values(|x: JsonView| decode_option(x));
            let mut i: usize = 0;
            proof {
                assert(results.take(0) =~= Seq::empty());
                assert(out.deep_view() =~= Seq::empty());
            }
            while i < items.len()
                invariant
                    i <= items.len(),
                    items_of(json_view(*v), f) == Some(views_of(items@)),
                    results == views_of(items@).map_values(|x: JsonView| decode_option(x)),
                    collect(results.take(i as int)) == Ok::<Seq<OptionView>, DecodeError>(
                        out.deep_view(),
                    ),
                decreases items.len() - i,
            {
                let ghost before = out.deep_view();
                proof {
                    lemma_collect_step(results, i as int);
                }
                match OpenCliOption::from_value(&items[i]) {
                    Ok(x) => {
                        out.push(x);
                        assert(out.deep_view() =~= before.push(x.deep_view()));
                    },
                    Err(e) => {
                        proof {
                            lemma_collect_failure(results, i + 1);
                        }
                        return Err(e);
                    },
                }
                i += 1;
            }
            proof {
                assert(results.take(i as int) =~= results);
            }
        },
    }
    Ok(out)
}

/// Sets a member to the trees of the records where there are any.
pub(crate) fn put_option_list(obj: &mut serde_json::Value, f: Field, items: &Vec<OpenCliOption>)
    requires
        json_view(*old(obj)) is Object,
    ensures
        json_view(*final(obj)) == with_list(
            json_view(*old(obj)),
            f,
            option_list_json(items.deep_view()),
        ),
        json_view(*final(obj)) is Object,
{
    let mut out: Vec<serde_json::Value> = Vec::new();
    let mut i: usize = 0;
    while i < items.len()
        invariant
            i <= items.len(),
            out@.len() == i,
            forall|k: int|
                0 <= k < i ==> json_view(#[trigger] out@[k]) == encode_option(items@[k]@),
        decreases items.len() - i,
    {
        out.push(items[i].to_value());
        i += 1;
    }
    proof {
        assert(views_of(out@) =~= option_list_json(items.deep_view()));
    }
    put_list(obj, f, out);
}

} // verus!
