//! The values that a command or an option takes.

use crate::error::DecodeError;
use crate::field::Field;
use crate::json::{json_is_null, json_is_object, json_object, json_view, views_of, JsonView};
use crate::metadata::{
    decode_metadata_list, metadata_list_json, put_metadata_list, read_metadata_list, MetadataView,
    OpenCliMetadata,
};
use crate::schema::{
    collect, deep, empty_object, items_of, lemma_collect_failure, lemma_collect_step, optional_flag,
    optional_flag_json, optional_int, optional_int_json, optional_record, optional_text,
    optional_text_json, put_list, put_optional, put_optional_flag, put_optional_int,
    put_optional_text, put_text, put_text_list, read_items, read_member, read_optional_flag,
    read_optional_int, read_optional_text, read_required_text, read_text_list, records,
    required_text, text_json, text_list, text_list_json, with, with_list, with_optional,
};
use vstd::prelude::*;

verus! {

/// How many values an argument takes, at least and at most. The two bounds
/// are kept as they are written: a minimum above the maximum is not mended.
#[derive(Debug, PartialEq)]
pub struct OpenCliArity {
    /// The minimum number of values allowed.
    pub minimum: Option<i32>,
    /// The maximum number of values allowed.
    pub maximum: Option<i32>,
}

/// What an arity holds, as mathematical values.
pub struct ArityView {
    pub minimum: Option<i32>,
    pub maximum: Option<i32>,
}

impl DeepView for OpenCliArity {
    type V = ArityView;

    open spec fn deep_view(&self) -> ArityView {
        ArityView { minimum: self.minimum, maximum: self.maximum }
    }
}

impl View for OpenCliArity {
    type V = ArityView;

    open spec fn view(&self) -> ArityView {
        self.deep_view()
    }
}

/// The arity that a tree describes.
pub open spec fn decode_arity(j: JsonView) -> Result<ArityView, DecodeError> {
    let minimum = optional_int(j, Field::Minimum);
    let maximum = optional_int(j, Field::Maximum);
    if !(j is Object) {
        Err(DecodeError::NotAnObject)
    } else if minimum is Err {
        Err(minimum->Err_0)
    } else if maximum is Err {
        Err(maximum->Err_0)
    } else {
        Ok(ArityView { minimum: minimum->Ok_0, maximum: maximum->Ok_0 })
    }
}

/// The tree that is written for an arity.
pub open spec fn encode_arity(a: ArityView) -> JsonView {
    let j = empty_object();
    let j = with_optional(j, Field::Minimum, optional_int_json(a.minimum));
    with_optional(j, Field::Maximum, optional_int_json(a.maximum))
}

impl Clone for OpenCliArity {
    fn clone(&self) -> (r: Self)
        ensures
            r@ == self@,
    {
        OpenCliArity {
            minimum: self.minimum,
            maximum: self.maximum,
        }
    }
}

impl OpenCliArity {
    /// Reads an arity from a tree.
    pub fn from_value(v: &serde_json::Value) -> (r: Result<Self, DecodeError>)
        ensures
            deep(r) == decode_arity(json_view(*v)),
    {
        if !json_is_object(v) {
            return Err(DecodeError::NotAnObject);
        }
        let minimum = read_optional_int(v, Field::Minimum)?;
        let maximum = read_optional_int(v, Field::Maximum)?;
        Ok(OpenCliArity { minimum, maximum })
    }

    /// Writes the arity as a tree.
    pub fn to_value(&self) -> (r: serde_json::Value)
        ensures
            json_view(r) == encode_arity(self@),
    {
        let mut obj = json_object();
        put_optional_int(&mut obj, Field::Minimum, self.minimum);
        put_optional_int(&mut obj, Field::Maximum, self.maximum);
        obj
    }
}

/// A positional value that a command or an option accepts.
#[derive(Debug, PartialEq)]
pub struct OpenCliArgument {
    /// The argument name.
    pub name: String,
    /// Whether the argument must be given.
    pub required: Option<bool>,
    /// How many values the argument takes.
    pub arity: Option<OpenCliArity>,
    /// The values that are accepted.
    pub accepted_values: Vec<String>,
    /// The group that the argument belongs to.
    pub group: Option<String>,
    /// The argument description.
    pub description: Option<String>,
    /// Whether the argument is hidden.
    pub hidden: Option<bool>,
    /// Custom metadata.
    pub metadata: Vec<OpenCliMetadata>,
}

/// What an argument holds, as mathematical values.
pub struct ArgumentView {
    pub name: Seq<char>,
    pub required: Option<bool>,
    pub arity: Option<ArityView>,
    pub accepted_values: Seq<Seq<char>>,
    pub group: Option<Seq<char>>,
    pub description: Option<Seq<char>>,
    pub hidden: Option<bool>,
    pub metadata: Seq<MetadataView>,
}

impl DeepView for OpenCliArgument {
    type V = ArgumentView;

    open spec fn deep_view(&self) -> ArgumentView {
        ArgumentView {
            name: self.name@,
            required: self.required,
            arity: self.arity.deep_view(),
            accepted_values: self.accepted_values.deep_view(),
            group: self.group.deep_view(),
            description: self.description.deep_view(),
            hidden: self.hidden,
            metadata: self.metadata.deep_view(),
        }
    }
}

impl View for OpenCliArgument {
    type V = ArgumentView;

    open spec fn view(&self) -> ArgumentView {
        self.deep_view()
    }
}

/// The argument that a tree describes. `name` is required.
pub open spec fn decode_argument(j: JsonView) -> Result<ArgumentView, DecodeError> {
    let name = required_text(j, Field::Name);
    let required = optional_flag(j, Field::Required);
    let arity = optional_record(j, Field::Arity, |x: JsonView| decode_arity(x));
    let accepted_values = text_list(j, Field::AcceptedValues);
    let group = optional_text(j, Field::Group);
    let description = optional_text(j, Field::Description);
    let hidden = optional_flag(j, Field::Hidden);
    let metadata = decode_metadata_list(j, Field::Metadata);
    if !(j is Object) {
        Err(DecodeError::NotAnObject)
    } else if name is Err {
        Err(name->Err_0)
    } else if required is Err {
        Err(required->Err_0)
    } else if arity is Err {
        Err(arity->Err_0)
    } else if accepted_values is Err {
        Err(accepted_values->Err_0)
    } else if group is Err {
        Err(group->Err_0)
    } else if description is Err {
        Err(description->Err_0)
    } else if hidden is Err {
        Err(hidden->Err_0)
    } else if metadata is Err {
        Err(metadata->Err_0)
    } else {
        Ok(
            ArgumentView {
                name: name->Ok_0,
                required: required->Ok_0,
                arity: arity->Ok_0,
                accepted_values: accepted_values->Ok_0,
                group: group->Ok_0,
                description: description->Ok_0,
                hidden: hidden->Ok_0,
                metadata: metadata->Ok_0,
            },
        )
    }
}

/// The tree of an arity, where there is one.
pub open spec fn optional_arity_json(a: Option<ArityView>) -> Option<JsonView> {
    match a {
        Some(x) => Some(encode_arity(x)),
        None => None,
    }
}

/// The tree that is written for an argument.
pub open spec fn encode_argument(a: ArgumentView) -> JsonView {
    let j = empty_object();
    let j = with(j, Field::Name, text_json(a.name));
    let j = with_optional(j, Field::Required, optional_flag_json(a.required));
    let j = with_optional(j, Field::Arity, optional_arity_json(a.arity));
    let j = with_list(j, Field::AcceptedValues, text_list_json(a.accepted_values));
    let j = with_optional(j, Field::Group, optional_text_json(a.group));
    let j = with_optional(j, Field::Description, optional_text_json(a.description));
    let j = with_optional(j, Field::Hidden, optional_flag_json(a.hidden));
    with_list(j, Field::Metadata, metadata_list_json(a.metadata))
}

impl Clone for OpenCliArgument {
    fn clone(&self) -> (r: Self)
        ensures
            r@ == self@,
    {
        let accepted_values = self.accepted_values.clone();
        let metadata = self.metadata.clone();
        proof {
            assert(accepted_values.deep_view() =~= self.accepted_values.deep_view());
            assert(metadata.deep_view() =~= self.metadata.deep_view());
        }
        OpenCliArgument {
            name: self.name.clone(),
            required: self.required,
            arity: self.arity.clone(),
            accepted_values,
            group: self.group.clone(),
            description: self.description.clone(),
            hidden: self.hidden,
            metadata,
        }
    }
}

impl OpenCliArgument {
    /// Reads an argument from a tree.
    pub fn from_value(v: &serde_json::Value) -> (r: Result<Self, DecodeError>)
        ensures
            deep(r) == decode_argument(json_view(*v)),
    {
        if !json_is_object(v) {
            return Err(DecodeError::NotAnObject);
        }
        let name = read_required_text(v, Field::Name)?;
        let required = read_optional_flag(v, Field::Required)?;
        let arity = match read_member(v, Field::Arity) {
            None => None,
            Some(m) => if json_is_null(m) {
                None
            } else {
                Some(OpenCliArity::from_value(m)?)
            },
        };
        let accepted_values = read_text_list(v, Field::AcceptedValues)?;
        let group = read_optional_text(v, Field::Group)?;
        let description = read_optional_text(v, Field::Description)?;
        let hidden = read_optional_flag(v, Field::Hidden)?;
        let metadata = read_metadata_list(v, Field::Metadata)?;
        Ok(
            OpenCliArgument {
                name,
                required,
                arity,
                accepted_values,
                group,
                description,
                hidden,
                metadata,
            },
        )
    }

    /// Writes the argument as a tree.
    pub fn to_value(&self) -> (r: serde_json::Value)
        ensures
            json_view(r) == encode_argument(self@),
    {
        let mut obj = json_object();
        put_text(&mut obj, Field::Name, self.name.as_str());
        put_optional_flag(&mut obj, Field::Required, self.required);
        let arity = match &self.arity {
            Some(a) => Some(a.to_value()),
            None => None,
        };
        put_optional(&mut obj, Field::Arity, arity);
        put_text_list(&mut obj, Field::AcceptedValues, &self.accepted_values);
        put_optional_text(&mut obj, Field::Group, &self.group);
        put_optional_text(&mut obj, Field::Description, &self.description);
        put_optional_flag(&mut obj, Field::Hidden, self.hidden);
        put_metadata_list(&mut obj, Field::Metadata, &self.metadata);
        obj
    }
}

/// The arguments under a sequence member.
pub open spec fn decode_argument_list(j: JsonView, f: Field) -> Result<
    Seq<ArgumentView>,
    DecodeError,
> {
    records(items_of(j, f), f, |x: JsonView| decode_argument(x))
}

/// The trees that are written for a run of arguments.
pub open spec fn argument_list_json(items: Seq<ArgumentView>) -> Seq<JsonView> {
    items.map_values(|x: ArgumentView| encode_argument(x))
}

/// Reads the records under a sequence member.
pub(crate) fn read_argument_list(v: &serde_json::Value, f: Field) -> (r: Result<
    Vec<OpenCliArgument>,
    DecodeError,
>)
    ensures
        deep(r) == decode_argument_list(json_view(*v), f),
{
    let mut out: Vec<OpenCliArgument> = Vec::new();
    let found = read_items(v, f)?;
    match found {
        None => {
            proof {
                let none = Seq::<JsonView>::empty();
                assert(none.map_values(|x: JsonView| decode_argument(x)).len() == 0);
                assert(out.deep_view() =~= Seq::empty());
            }
        },
        Some(items) => {
            let ghost results = views_of(items@).map_values(|x: JsonView| decode_argument(x));
            let mut i: usize = 0;
            proof {
                assert(results.take(0) =~= Seq::empty());
                assert(out.deep_view() =~= Seq::empty());
            }
            while i < items.len()
                invariant
                    i <= items.len(),
                    items_of(json_view(*v), f) == Some(views_of(items@)),
                    results == views_of(items@).map_values(|x: JsonView| decode_argument(x)),
                    collect(results.take(i as int)) == Ok::<Seq<ArgumentView>, DecodeError>(
                        out.deep_view(),
                    ),
                decreases items.len() - i,
            {
                let ghost before = out.deep_view();
                proof {
                    lemma_collect_step(results, i as int);
                }
                match OpenCliArgument::from_value(&items[i]) {
                    Ok(x) => {
                        out.push(x);
                        assert(out.deep_view() =~= before.push(x.deep_view()));
                    },
                    Err(e) => {
                        proof {
                            lemma_collect_failure(results, i + 1);
                        }
                        return Err(e);
                    },
                }
                i += 1;
            }
            proof {
                assert(results.take(i as int) =~= results);
            }
        },
    }
    Ok(out)
}

/// Sets a member to the trees of the records where there are any.
pub(crate) fn put_argument_list(obj: &mut serde_json::Value, f: Field, items: &Vec<OpenCliArgument>)
    requires
        json_view(*old(obj)) is Object,
    ensures
        json_view(*final(obj)) == with_list(
            json_view(*old(obj)),
            f,
            argument_list_json(items.deep_view()),
        ),
        json_view(*final(obj)) is Object,
{
    let mut out: Vec<serde_json::Value> = Vec::new();
    let mut i: usize = 0;
    while i < items.len()
        invariant
            i <= items.len(),
            out@.len() == i,
            forall|k: int|
                0 <= k < i ==> json_view(#[trigger] out@[k]) == encode_argument(items@[k]@),
        decreases items.len() - i,
    {
        out.push(items[i].to_value());
        i += 1;
    }
    proof {
        assert(views_of(out@) =~= argument_list_json(items.deep_view()));
    }
    put_list(obj, f, out);
}

} // verus!
