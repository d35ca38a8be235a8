//! Reading the members of a record out of a value tree, and writing them
//! into one.
//!
//! The rules are the same for every record. A required member must be
//! present with a value of its type. An optional member is absent where the
//! tree has no such member or holds `null` under its name. A sequence is
//! empty where the member is missing, `null` or an empty list, and is left
//! out of the tree again where it is empty. The value of a metadata entry
//! alone may be any tree, `null` too, and is absent only where it is missing.

use crate::error::DecodeError;
use crate::field::Field;
use crate::json::{
    json_as_array, json_as_bool, json_as_i64, json_as_str, json_from_bool, json_from_i32,
    json_from_str, json_from_vec, json_get, json_is_null, json_set, json_view, views_of, JsonView,
};
use vstd::prelude::*;

verus! {

/// A result with its value taken by its view.
pub open spec fn deep<T: DeepView>(r: Result<T, DecodeError>) -> Result<T::V, DecodeError> {
    match r {
        Ok(x) => Ok(x.deep_view()),
        Err(e) => Err(e),
    }
}

/// The members of an object by their names; a tree that is no object has
/// none.
pub open spec fn members(j: JsonView) -> Map<Seq<char>, JsonView> {
    match j {
        JsonView::Object(m) => m,
        _ => Map::empty(),
    }
}

/// Whether the tree is an object with a member of that name.
pub open spec fn present(j: JsonView, f: Field) -> bool {
    members(j).contains_key(f.key())
}

/// The member of that name, and `null` where there is none.
pub open spec fn member(j: JsonView, f: Field) -> JsonView {
    if present(j, f) {
        members(j)[f.key()]
    } else {
        JsonView::Null
    }
}

/// The number that a tree holds, where it is an integer of 32 signed bits.
pub open spec fn as_int(j: JsonView) -> Option<i32> {
    match j {
        JsonView::Integer(n) => if i32::MIN <= n <= i32::MAX {
            Some(n as i32)
        } else {
            None
        },
        _ => None,
    }
}

/// A required text member.
pub open spec fn required_text(j: JsonView, f: Field) -> Result<Seq<char>, DecodeError> {
    if !present(j, f) {
        Err(DecodeError::MissingField(f))
    } else {
        match member(j, f) {
            JsonView::Text(s) => Ok(s),
            _ => Err(DecodeError::InvalidField(f)),
        }
    }
}

/// A required integer member.
pub open spec fn required_int(j: JsonView, f: Field) -> Result<i32, DecodeError> {
    if !present(j, f) {
        Err(DecodeError::MissingField(f))
    } else {
        match as_int(member(j, f)) {
            Some(n) => Ok(n),
            None => Err(DecodeError::InvalidField(f)),
        }
    }
}

/// An optional text member.
pub open spec fn optional_text(j: JsonView, f: Field) -> Result<Option<Seq<char>>, DecodeError> {
    match member(j, f) {
        JsonView::Null => Ok(None),
        JsonView::Text(s) => Ok(Some(s)),
        _ => Err(DecodeError::InvalidField(f)),
    }
}

/// An optional boolean member.
pub open spec fn optional_flag(j: JsonView, f: Field) -> Result<Option<bool>, DecodeError> {
    match member(j, f) {
        JsonView::Null => Ok(None),
        JsonView::Bool(b) => Ok(Some(b)),
        _ => Err(DecodeError::InvalidField(f)),
    }
}

/// An optional integer member.
pub open spec fn optional_int(j: JsonView, f: Field) -> Result<Option<i32>, DecodeError> {
    if member(j, f) is Null {
        Ok(None)
    } else {
        match as_int(member(j, f)) {
            Some(n) => Ok(Some(n)),
            None => Err(DecodeError::InvalidField(f)),
        }
    }
}

/// The items of a sequence member: none where the member is missing or
/// `null`. Nothing where the member is no list.
pub open spec fn items_of(j: JsonView, f: Field) -> Option<Seq<JsonView>> {
    match member(j, f) {
        JsonView::Null => Some(Seq::empty()),
        JsonView::List(items) => Some(items),
        _ => None,
    }
}

/// Whether every item is a text.
pub open spec fn all_text(items: Seq<JsonView>) -> bool {
    forall|i: int| 0 <= i < items.len() ==> #[trigger] items[i] is Text
}

/// A sequence of texts. One item that is no text fails the whole member.
pub open spec fn text_list(j: JsonView, f: Field) -> Result<Seq<Seq<char>>, DecodeError> {
    match items_of(j, f) {
        Some(items) => if all_text(items) {
            Ok(items.map_values(|x: JsonView| x->Text_0))
        } else {
            Err(DecodeError::InvalidField(f))
        },
        None => Err(DecodeError::InvalidField(f)),
    }
}

/// The values of a run of results, or the first failure among them.
pub open spec fn collect<T>(results: Seq<Result<T, DecodeError>>) -> Result<Seq<T>, DecodeError>
    decreases results.len(),
{
    if results.len() == 0 {
        Ok(Seq::empty())
    } else {
        match collect(results.drop_last()) {
            Err(e) => Err(e),
            Ok(done) => match results.last() {
                Err(e) => Err(e),
                Ok(x) => Ok(done.push(x)),
            },
        }
    }
}

/// A sequence of records, each decoded by `each`.
pub open spec fn records<T>(
    items: Option<Seq<JsonView>>,
    f: Field,
    each: spec_fn(JsonView) -> Result<T, DecodeError>,
) -> Result<Seq<T>, DecodeError> {
    match items {
        Some(xs) => collect(xs.map_values(each)),
        None => Err(DecodeError::InvalidField(f)),
    }
}

/// An optional record, decoded by `each` where it is there.
pub open spec fn optional_record<T>(
    j: JsonView,
    f: Field,
    each: spec_fn(JsonView) -> Result<T, DecodeError>,
) -> Result<Option<T>, DecodeError> {
    if member(j, f) is Null {
        Ok(None)
    } else {
        match each(member(j, f)) {
            Ok(x) => Ok(Some(x)),
            Err(e) => Err(e),
        }
    }
}

/// A required record, decoded by `each`.
pub open spec fn required_record<T>(
    j: JsonView,
    f: Field,
    each: spec_fn(JsonView) -> Result<T, DecodeError>,
) -> Result<T, DecodeError> {
    if !present(j, f) {
        Err(DecodeError::MissingField(f))
    } else {
        each(member(j, f))
    }
}

/// One more result decides a run as [`collect`] says.
pub proof fn lemma_collect_step<T>(results: Seq<Result<T, DecodeError>>, i: int)
    requires
        0 <= i < results.len(),
    ensures
        collect(results.take(i + 1)) == match collect(results.take(i)) {
            Err(e) => Err(e),
            Ok(done) => match results[i] {
                Err(e) => Err(e),
                Ok(x) => Ok(done.push(x)),
            },
        },
{
    assert(results.take(i + 1).drop_last() =~= results.take(i));
}

/// A failure among the first results is the failure of the whole run.
pub proof fn lemma_collect_failure<T>(results: Seq<Result<T, DecodeError>>, i: int)
    requires
        0 <= i <= results.len(),
        collect(results.take(i)) is Err,
    ensures
        collect(results) == collect(results.take(i)),
    decreases results.len() - i,
{
    if i == results.len() {
        assert(results.take(i) =~= results);
    } else {
        lemma_collect_step(results, i);
        lemma_collect_failure(results, i + 1);
    }
}

/// A run of successes yields their values.
pub proof fn lemma_collect_success<T>(results: Seq<Result<T, DecodeError>>, values: Seq<T>)
    requires
        results.len() == values.len(),
        forall|i: int|
            0 <= i < results.len() ==> #[trigger] results[i] == Ok::<T, DecodeError>(values[i]),
    ensures
        collect(results) == Ok::<Seq<T>, DecodeError>(values),
    decreases results.len(),
{
    if results.len() == 0 {
        assert(values =~= Seq::empty());
    } else {
        lemma_collect_success(results.drop_last(), values.drop_last());
        assert(values.drop_last().push(values.last()) =~= values);
    }
}

/// What is found under the name of a written list: the list, and `null`
/// for an empty one, which is left out.
pub open spec fn list_json(items: Seq<JsonView>) -> JsonView {
    if items.len() == 0 {
        JsonView::Null
    } else {
        JsonView::List(items)
    }
}

/// A list of texts that was written reads back as the same list: the empty
/// one is left out and comes back empty.
pub proof fn lemma_text_list_round_trip(j: JsonView, f: Field, texts: Seq<Seq<char>>)
    requires
        member(j, f) == list_json(text_list_json(texts)),
    ensures
        text_list(j, f) == Ok::<Seq<Seq<char>>, DecodeError>(texts),
{
    let items = text_list_json(texts);
    assert(all_text(items));
    assert(items.map_values(|x: JsonView| x->Text_0) =~= texts);
    if texts.len() == 0 {
        assert(Seq::<JsonView>::empty().map_values(|x: JsonView| x->Text_0) =~= texts);
    }
}

/// The member of that name, where there is one.
pub(crate) fn read_member<'a>(v: &'a serde_json::Value, f: Field) -> (r: Option<
    &'a serde_json::Value,
>)
    ensures
        r is Some == present(json_view(*v), f),
        r matches Some(m) ==> json_view(*m) == member(json_view(*v), f),
{
    json_get(v, f.name())
}

/// Reads a required text member.
pub(crate) fn read_required_text(v: &serde_json::Value, f: Field) -> (r: Result<
    String,
    DecodeError,
>)
    ensures
        deep(r) == required_text(json_view(*v), f),
{
    match read_member(v, f) {
        None => Err(DecodeError::MissingField(f)),
        Some(m) => match json_as_str(m) {
            Some(s) => Ok(s.to_owned()),
            None => Err(DecodeError::InvalidField(f)),
        },
    }
}

/// Reads the integer that a value holds.
pub(crate) fn read_int(m: &serde_json::Value) -> (r: Option<i32>)
    ensures
        r == as_int(json_view(*m)),
{
    match json_as_i64(m) {
        Some(n) => if -2147483648 <= n && n <= 2147483647 {
            Some(n as i32)
        } else {
            None
        },
        None => None,
    }
}

/// Reads a required integer member.
pub(crate) fn read_required_int(v: &serde_json::Value, f: Field) -> (r: Result<i32, DecodeError>)
    ensures
        r == required_int(json_view(*v), f),
{
    match read_member(v, f) {
        None => Err(DecodeError::MissingField(f)),
        Some(m) => match read_int(m) {
            Some(n) => Ok(n),
            None => Err(DecodeError::InvalidField(f)),
        },
    }
}

/// Reads an optional text member.
pub(crate) fn read_optional_text(v: &serde_json::Value, f: Field) -> (r: Result<
    Option<String>,
    DecodeError,
>)
    ensures
        deep(r) == optional_text(json_view(*v), f),
{
    match read_member(v, f) {
        None => Ok(None),
        Some(m) => if json_is_null(m) {
            Ok(None)
        } else {
            match json_as_str(m) {
                Some(s) => Ok(Some(s.to_owned())),
                None => Err(DecodeError::InvalidField(f)),
            }
        },
    }
}

/// Reads an optional boolean member.
pub(crate) fn read_optional_flag(v: &serde_json::Value, f: Field) -> (r: Result<
    Option<bool>,
    DecodeError,
>)
    ensures
        r == optional_flag(json_view(*v), f),
{
    match read_member(v, f) {
        None => Ok(None),
        Some(m) => if json_is_null(m) {
            Ok(None)
        } else {
            match json_as_bool(m) {
                Some(b) => Ok(Some(b)),
                None => Err(DecodeError::InvalidField(f)),
            }
        },
    }
}

/// Reads an optional integer member.
pub(crate) fn read_optional_int(v: &serde_json::Value, f: Field) -> (r: Result<
    Option<i32>,
    DecodeError,
>)
    ensures
        r == optional_int(json_view(*v), f),
{
    match read_member(v, f) {
        None => Ok(None),
        Some(m) => if json_is_null(m) {
            Ok(None)
        } else {
            match read_int(m) {
                Some(n) => Ok(Some(n)),
                None => Err(DecodeError::InvalidField(f)),
            }
        },
    }
}

/// The items of a sequence member: `Ok(None)` where it is missing or `null`.
pub(crate) fn read_items<'a>(v: &'a serde_json::Value, f: Field) -> (r: Result<
    Option<&'a Vec<serde_json::Value>>,
    DecodeError,
>)
    ensures
        match r {
            Ok(Some(items)) => items_of(json_view(*v), f) == Some(views_of(items@)),
            Ok(None) => items_of(json_view(*v), f) == Some(Seq::<JsonView>::empty()),
            Err(e) => items_of(json_view(*v), f) is None && e == DecodeError::InvalidField(f),
        },
{
    match read_member(v, f) {
        None => Ok(None),
        Some(m) => if json_is_null(m) {
            Ok(None)
        } else {
            match json_as_array(m) {
                Some(items) => Ok(Some(items)),
                None => Err(DecodeError::InvalidField(f)),
            }
        },
    }
}

/// Reads a sequence of texts.
pub(crate) fn read_text_list(v: &serde_json::Value, f: Field) -> (r: Result<
    Vec<String>,
    DecodeError,
>)
    ensures
        deep(r) == text_list(json_view(*v), f),
{
    let mut out: Vec<String> = Vec::new();
    match read_items(v, f) {
        Err(e) => Err(e),
        Ok(None) => {
            proof {
                let none = Seq::<JsonView>::empty();
                assert(out.deep_view() =~= none.map_values(|x: JsonView| x->Text_0));
            }
            Ok(out)
        },
        Ok(Some(items)) => {
            let ghost views = views_of(items@);
            let mut i: usize = 0;
            while i < items.len()
                invariant
                    i <= items.len(),
                    views == views_of(items@),
                    items_of(json_view(*v), f) == Some(views),
                    out@.len() == i,
                    forall|k: int| 0 <= k < i ==> (#[trigger] views[k]) is Text,
                    forall|k: int| 0 <= k < i ==> (#[trigger] out@[k])@ == views[k]->Text_0,
                decreases items.len() - i,
            {
                match json_as_str(&items[i]) {
                    Some(s) => {
                        out.push(s.to_owned());
                    },
                    None => {
                        assert(!(views[i as int] is Text));
                        return Err(DecodeError::InvalidField(f));
                    },
                }
                i += 1;
            }
            proof {
                assert(out.deep_view() =~= views.map_values(|x: JsonView| x->Text_0));
            }
            Ok(out)
        },
    }
}

/// An object without members.
pub open spec fn empty_object() -> JsonView {
    JsonView::Object(Map::empty())
}

/// The object with one member set.
#[verifier::opaque]
pub open spec fn with(j: JsonView, f: Field, v: JsonView) -> JsonView {
    JsonView::Object(members(j).insert(f.key(), v))
}

/// The object with a member set where there is a value for it.
#[verifier::opaque]
pub open spec fn with_optional(j: JsonView, f: Field, v: Option<JsonView>) -> JsonView {
    match v {
        Some(x) => with(j, f, x),
        None => j,
    }
}

/// The object with a list member set where the list has items.
#[verifier::opaque]
pub open spec fn with_list(j: JsonView, f: Field, items: Seq<JsonView>) -> JsonView {
    if items.len() == 0 {
        j
    } else {
        with(j, f, JsonView::List(items))
    }
}

/// A text as a tree.
pub open spec fn text_json(s: Seq<char>) -> JsonView {
    JsonView::Text(s)
}

/// An integer as a tree.
pub open spec fn int_json(n: i32) -> JsonView {
    JsonView::Integer(n as int)
}

/// An optional text as a tree, where it is there.
pub open spec fn optional_text_json(s: Option<Seq<char>>) -> Option<JsonView> {
    match s {
        Some(t) => Some(JsonView::Text(t)),
        None => None,
    }
}

/// An optional boolean as a tree, where it is there.
pub open spec fn optional_flag_json(b: Option<bool>) -> Option<JsonView> {
    match b {
        Some(x) => Some(JsonView::Bool(x)),
        None => None,
    }
}

/// An optional integer as a tree, where it is there.
pub open spec fn optional_int_json(n: Option<i32>) -> Option<JsonView> {
    match n {
        Some(x) => Some(int_json(x)),
        None => None,
    }
}

/// A run of texts as trees.
pub open spec fn text_list_json(items: Seq<Seq<char>>) -> Seq<JsonView> {
    items.map_values(|s: Seq<char>| JsonView::Text(s))
}

/// Setting a member changes that member and no other.
pub broadcast proof fn lemma_member_with(j: JsonView, f: Field, v: JsonView, g: Field)
    ensures
        #[trigger] member(with(j, f, v), g) == if g == f {
            v
        } else {
            member(j, g)
        },
        present(with(j, f, v), g) == (g == f || present(j, g)),
        with(j, f, v) is Object,
{
    reveal(with);
    if g.key() == f.key() {
        g.lemma_key_injective(f);
    }
}

/// Setting a member where there is a value for it changes that member, and
/// only where there is one.
pub broadcast proof fn lemma_member_with_optional(
    j: JsonView,
    f: Field,
    v: Option<JsonView>,
    g: Field,
)
    ensures
        #[trigger] member(with_optional(j, f, v), g) == if g == f && v is Some {
            v->Some_0
        } else {
            member(j, g)
        },
        present(with_optional(j, f, v), g) == (g == f && v is Some || present(j, g)),
        j is Object ==> with_optional(j, f, v) is Object,
{
    reveal(with_optional);
    lemma_member_with(j, f, v->Some_0, g);
}

/// Setting a list member changes that member, and only where the list has
/// items.
pub broadcast proof fn lemma_member_with_list(j: JsonView, f: Field, items: Seq<JsonView>, g: Field)
    ensures
        #[trigger] member(with_list(j, f, items), g) == if g == f && items.len() > 0 {
            JsonView::List(items)
        } else {
            member(j, g)
        },
        present(with_list(j, f, items), g) == (g == f && items.len() > 0 || present(j, g)),
        j is Object ==> with_list(j, f, items) is Object,
{
    reveal(with_list);
    lemma_member_with(j, f, JsonView::List(items), g);
}

/// What setting a member does to the members of an object.
pub broadcast group group_members {
    lemma_member_with,
    lemma_member_with_optional,
    lemma_member_with_list,
}

/// Sets a text member.
pub(crate) fn put_text(obj: &mut serde_json::Value, f: Field, s: &str)
    requires
        json_view(*old(obj)) is Object,
    ensures
        json_view(*final(obj)) == with(json_view(*old(obj)), f, text_json(s@)),
        json_view(*final(obj)) is Object,
{
    put(obj, f, json_from_str(s));
}

/// Sets a member.
pub(crate) fn put(obj: &mut serde_json::Value, f: Field, value: serde_json::Value)
    requires
        json_view(*old(obj)) is Object,
    ensures
        json_view(*final(obj)) == with(json_view(*old(obj)), f, json_view(value)),
        json_view(*final(obj)) is Object,
{
    proof {
        reveal(with);
    }
    json_set(obj, f.name(), value);
}

/// Sets a member where there is a value for it.
pub(crate) fn put_optional(obj: &mut serde_json::Value, f: Field, value: Option<serde_json::Value>)
    requires
        json_view(*old(obj)) is Object,
    ensures
        json_view(*final(obj)) == with_optional(
            json_view(*old(obj)),
            f,
            match value {
                Some(v) => Some(json_view(v)),
                None => None,
            },
        ),
        json_view(*final(obj)) is Object,
{
    proof {
        reveal(with_optional);
    }
    match value {
        Some(v) => put(obj, f, v),
        None => {},
    }
}

/// Sets an integer member.
pub(crate) fn put_int(obj: &mut serde_json::Value, f: Field, n: i32)
    requires
        json_view(*old(obj)) is Object,
    ensures
        json_view(*final(obj)) == with(json_view(*old(obj)), f, int_json(n)),
        json_view(*final(obj)) is Object,
{
    put(obj, f, json_from_i32(n));
}

/// Sets a text member where there is a text.
pub(crate) fn put_optional_text(obj: &mut serde_json::Value, f: Field, s: &Option<String>)
    requires
        json_view(*old(obj)) is Object,
    ensures
        json_view(*final(obj)) == with_optional(
            json_view(*old(obj)),
            f,
            optional_text_json(s.deep_view()),
        ),
        json_view(*final(obj)) is Object,
{
    proof {
        reveal(with_optional);
    }
    match s {
        Some(t) => put(obj, f, json_from_str(t.as_str())),
        None => {},
    }
}

/// Sets a boolean member where there is a boolean.
pub(crate) fn put_optional_flag(obj: &mut serde_json::Value, f: Field, b: Option<bool>)
    requires
        json_view(*old(obj)) is Object,
    ensures
        json_view(*final(obj)) == with_optional(json_view(*old(obj)), f, optional_flag_json(b)),
        json_view(*final(obj)) is Object,
{
    proof {
        reveal(with_optional);
    }
    match b {
        Some(x) => put(obj, f, json_from_bool(x)),
        None => {},
    }
}

/// Sets an integer member where there is an integer.
pub(crate) fn put_optional_int(obj: &mut serde_json::Value, f: Field, n: Option<i32>)
    requires
        json_view(*old(obj)) is Object,
    ensures
        json_view(*final(obj)) == with_optional(json_view(*old(obj)), f, optional_int_json(n)),
        json_view(*final(obj)) is Object,
{
    proof {
        reveal(with_optional);
    }
    match n {
        Some(x) => put(obj, f, json_from_i32(x)),
        None => {},
    }
}

/// Sets a list member where the list has items.
pub(crate) fn put_list(obj: &mut serde_json::Value, f: Field, items: Vec<serde_json::Value>)
    requires
        json_view(*old(obj)) is Object,
    ensures
        json_view(*final(obj)) == with_list(json_view(*old(obj)), f, views_of(items@)),
        json_view(*final(obj)) is Object,
{
    proof {
        reveal(with_list);
    }
    if items.len() > 0 {
        put(obj, f, json_from_vec(items));
    }
}

/// Sets a member to a list of texts where there are any.
pub(crate) fn put_text_list(obj: &mut serde_json::Value, f: Field, items: &Vec<String>)
    requires
        json_view(*old(obj)) is Object,
    ensures
        json_view(*final(obj)) == with_list(
            json_view(*old(obj)),
            f,
            text_list_json(items.deep_view()),
        ),
        json_view(*final(obj)) is Object,
{
    let mut out: Vec<serde_json::Value> = Vec::new();
    let mut i: usize = 0;
    while i < items.len()
        invariant
            i <= items.len(),
            out@.len() == i,
            forall|k: int|
                0 <= k < i ==> json_view(#[trigger] out@[k]) == JsonView::Text(items@[k]@),
        decreases items.len() - i,
    {
        out.push(json_from_str(items[i].as_str()));
        i += 1;
    }
    proof {
        assert(views_of(out@) =~= text_list_json(items.deep_view()));
    }
    put_list(obj, f, out);
}

} // verus!
