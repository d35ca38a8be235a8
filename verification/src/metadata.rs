//! Free-form entries that a document may attach to most of its records.

use crate::error::DecodeError;
use crate::field::Field;
use crate::json::{json_clone, json_is_object, json_object, json_view, views_of, JsonView};
use crate::schema::{
    collect, deep, empty_object, items_of, lemma_collect_failure, lemma_collect_step, member,
    present, put_list, put_optional, put_text, read_items, read_member, read_required_text,
    records, required_text, text_json, with, with_list, with_optional,
};
use vstd::prelude::*;

verus! {

/// One entry of custom metadata: a name, and any value that the text format
/// can hold.
#[derive(Debug, PartialEq)]
pub struct OpenCliMetadata {
    /// The metadata name.
    pub name: String,
    /// The metadata value.
    pub value: Option<serde_json::Value>,
}

/// What a metadata entry holds, as mathematical values.
pub struct MetadataView {
    pub name: Seq<char>,
    pub value: Option<JsonView>,
}

impl DeepView for OpenCliMetadata {
    type V = MetadataView;

    open spec fn deep_view(&self) -> MetadataView {
        MetadataView {
            name: self.name@,
            value: match self.value {
                Some(v) => Some(json_view(v)),
                None => None,
            },
        }
    }
}

impl View for OpenCliMetadata {
    type V = MetadataView;

    open spec fn view(&self) -> MetadataView {
        self.deep_view()
    }
}

/// The entry that a tree describes. The value is whatever stands under the
/// member `value`, a `null` too; there is none only where the member is
/// missing.
pub open spec fn decode_metadata(j: JsonView) -> Result<MetadataView, DecodeError> {
    let name = required_text(j, Field::Name);
    if !(j is Object) {
        Err(DecodeError::NotAnObject)
    } else if name is Err {
        Err(name->Err_0)
    } else {
        Ok(
            MetadataView {
                name: name->Ok_0,
                value: if present(j, Field::Value) {
                    Some(member(j, Field::Value))
                } else {
                    None
                },
            },
        )
    }
}

/// The tree that is written for an entry.
pub open spec fn encode_metadata(m: MetadataView) -> JsonView {
    let j = empty_object();
    let j = with(j, Field::Name, text_json(m.name));
    with_optional(j, Field::Value, m.value)
}

impl Clone for OpenCliMetadata {
    fn clone(&self) -> (r: Self)
        ensures
            r@ == self@,
    {
        let value = match &self.value {
            Some(v) => Some(json_clone(v)),
            None => None,
        };
        OpenCliMetadata {
            name: self.name.clone(),
            value,
        }
    }
}

impl OpenCliMetadata {
    /// Reads an entry from a tree.
    pub fn from_value(v: &serde_json::Value) -> (r: Result<Self, DecodeError>)
        ensures
            deep(r) == decode_metadata(json_view(*v)),
    {
        if !json_is_object(v) {
            return Err(DecodeError::NotAnObject);
        }
        let name = read_required_text(v, Field::Name)?;
        let value = match read_member(v, Field::Value) {
            None => None,
            Some(m) => Some(json_clone(m)),
        };
        Ok(OpenCliMetadata { name, value })
    }

    /// Writes the entry as a tree.
    pub fn to_value(&self) -> (r: serde_json::Value)
        ensures
            json_view(r) == encode_metadata(self@),
    {
        let mut obj = json_object();
        put_text(&mut obj, Field::Name, self.name.as_str());
        let value = match &self.value {
            Some(x) => Some(json_clone(x)),
            None => None,
        };
        put_optional(&mut obj, Field::Value, value);
        obj
    }
}

/// The entries under a sequence member.
pub open spec fn decode_metadata_list(j: JsonView, f: Field) -> Result<
    Seq<MetadataView>,
    DecodeError,
> {
    records(items_of(j, f), f, |x: JsonView| decode_metadata(x))
}

/// The trees that are written for a run of entries.
pub open spec fn metadata_list_json(items: Seq<MetadataView>) -> Seq<JsonView> {
    items.map_values(|x: MetadataView| encode_metadata(x))
}

/// Reads the records under a sequence member.
pub(crate) fn read_metadata_list(v: &serde_json::Value, f: Field) -> (r: Result<
    Vec<OpenCliMetadata>,
    DecodeError,
>)
    ensures
        deep(r) == decode_metadata_list(json_view(*v), f),
{
    let mut out: Vec<OpenCliMetadata> = Vec::new();
    let found = read_items(v, f)?;
    match found {
        None => {
            proof {
                let none = Seq::<JsonView>::empty();
                assert(none.map_values(|x: JsonView| decode_metadata(x)).len() == 0);
                assert(out.deep_view() =~= Seq::empty());
            }
        },
        Some(items) => {
            let ghost results = views_of(items@).map_values(|x: JsonView| decode_metadata(x));
            let mut i: usize = 0;
            proof {
                assert(results.take(0) =~= Seq::empty());
                assert(out.deep_view() =~= Seq::empty());
            }
            while i < items.len()
                invariant
                    i <= items.len(),
                    items_of(json_view(*v), f) == Some(views_of(items@)),
                    results == views_of(items@).map_values(|x: JsonView| decode_metadata(x)),
                    collect(results.take(i as int)) == Ok::<Seq<MetadataView>, DecodeError>(
                        out.deep_view(),
                    ),
                decreases items.len() - i,
            {
                let ghost before = out.deep_view();
                proof {
                    lemma_collect_step(results, i as int);
                }
                match OpenCliMetadata::from_value(&items[i]) {
                    Ok(x) => {
                        out.push(x);
                        assert(out.deep_view() =~= before.push(x.deep_view()));
                    },
                    Err(e) => {
                        proof {
                            lemma_collect_failure(results, i + 1);
                        }
                        return Err(e);
                    },
                }
                i += 1;
            }
            proof {
                assert(results.take(i as int) =~= results);
            }
        },
    }
    Ok(out)
}

/// Sets a member to the trees of the records where there are any.
pub(crate) fn put_metadata_list(obj: &mut serde_json::Value, f: Field, items: &Vec<OpenCliMetadata>)
    requires
        json_view(*old(obj)) is Object,
    ensures
        json_view(*final(obj)) == with_list(
            json_view(*old(obj)),
            f,
            metadata_list_json(items.deep_view()),
        ),
        json_view(*final(obj)) is Object,
{
    let mut out: Vec<serde_json::Value> = Vec::new();
    let mut i: usize = 0;
    while i < items.len()
        invariant
            i <= items.len(),
            out@.len() == i,
            forall|k: int|
                0 <= k < i ==> json_view(#[trigger] out@[k]) == encode_metadata(items@[k]@),
        decreases items.len() - i,
    {
        out.push(items[i].to_value());
        i += 1;
    }
    proof {
        assert(views_of(out@) =~= metadata_list_json(items.deep_view()));
    }
    put_list(obj, f, out);
}

} // verus!
