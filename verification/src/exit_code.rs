//! The exit statuses that a command documents.

use crate::error::DecodeError;
use crate::field::Field;
use crate::json::{json_is_object, json_object, json_view, views_of, JsonView};
use crate::schema::{
    collect, deep, empty_object, int_json, items_of, lemma_collect_failure, lemma_collect_step,
    optional_text, optional_text_json, put_int, put_list, put_optional_text, read_items,
    read_optional_text, read_required_int, records, required_int, with, with_list, with_optional,
};
use vstd::prelude::*;

verus! {

/// One documented exit status.
#[derive(Debug, PartialEq)]
pub struct OpenCliExitCode {
    /// The exit code.
    pub code: i32,
    /// What the exit code means.
    pub description: Option<String>,
}

/// What an exit status holds, as mathematical values.
pub struct ExitCodeView {
    pub code: i32,
    pub description: Option<Seq<char>>,
}

impl DeepView for OpenCliExitCode {
    type V = ExitCodeView;

    open spec fn deep_view(&self) -> ExitCodeView {
        ExitCodeView { code: self.code, description: self.description.deep_view() }
    }
}

impl View for OpenCliExitCode {
    type V = ExitCodeView;

    open spec fn view(&self) -> ExitCodeView {
        self.deep_view()
    }
}

/// The exit status that a tree describes. `code` is required.
pub open spec fn decode_exit_code(j: JsonView) -> Result<ExitCodeView, DecodeError> {
    let code = required_int(j, Field::Code);
    let description = optional_text(j, Field::Description);
    if !(j is Object) {
        Err(DecodeError::NotAnObject)
    } else if code is Err {
        Err(code->Err_0)
    } else if description is Err {
        Err(description->Err_0)
    } else {
        Ok(ExitCodeView { code: code->Ok_0, description: description->Ok_0 })
    }
}

/// The tree that is written for an exit status.
pub open spec fn encode_exit_code(e: ExitCodeView) -> JsonView {
    let j = empty_object();
    let j = with(j, Field::Code, int_json(e.code));
    with_optional(j, Field::Description, optional_text_json(e.description))
}

impl Clone for OpenCliExitCode {
    fn clone(&self) -> (r: Self)
        ensures
            r@ == self@,
    {
        OpenCliExitCode {
            code: self.code,
            description: self.description.clone(),
        }
    }
}

impl OpenCliExitCode {
    /// Reads an exit status from a tree.
    pub fn from_value(v: &serde_json::Value) -> (r: Result<Self, DecodeError>)
        ensures
            deep(r) == decode_exit_code(json_view(*v)),
    {
        if !json_is_object(v) {
            return Err(DecodeError::NotAnObject);
        }
        let code = read_required_int(v, Field::Code)?;
        let description = read_optional_text(v, Field::Description)?;
        Ok(OpenCliExitCode { code, description })
    }

    /// Writes the exit status as a tree.
    pub fn to_value(&self) -> (r: serde_json::Value)
        ensures
            json_view(r) == encode_exit_code(self@),
    {
        let mut obj = json_object();
        put_int(&mut obj, Field::Code, self.code);
        put_optional_text(&mut obj, Field::Description, &self.description);
        obj
    }
}

/// The exit statuses under a sequence member.
pub open spec fn decode_exit_code_list(j: JsonView, f: Field) -> Result<
    Seq<ExitCodeView>,
    DecodeError,
> {
    records(items_of(j, f), f, |x: JsonView| decode_exit_code(x))
}

/// The trees that are written for a run of exit statuses.
pub open spec fn exit_code_list_json(items: Seq<ExitCodeView>) -> Seq<JsonView> {
    items.map_values(|x: ExitCodeView| encode_exit_code(x))
}

/// Reads the records under a sequence member.
pub(crate) fn read_exit_code_list(v: &serde_json::Value, f: Field) -> (r: Result<
    Vec<OpenCliExitCode>,
    DecodeError,
>)
    ensures
        deep(r) == decode_exit_code_list(json_view(*v), f),
{
    let mut out: Vec<OpenCliExitCode> = Vec::new();
    let found = read_items(v, f)?;
    match found {
        None => {
            proof {
                let none = Seq::<JsonView>::empty();
                assert(none.map_values(|x: JsonView| decode_exit_code(x)).len() == 0);
                assert(out.deep_view() =~= Seq::empty());
            }
        },
        Some(items) => {
            let ghost results = views_of(items@).map_values(|x: JsonView| decode_exit_code(x));
            let mut i: usize = 0;
            proof {
                assert(results.take(0) =~= Seq::empty());
                assert(out.deep_view() =~= Seq::empty());
            }
            while i < items.len()
                invariant
                    i <= items.len(),
                    items_of(json_view(*v), f) == Some(views_of(items@)),
                    results == views_of(items@).map_values(|x: JsonView| decode_exit_code(x)),
                    collect(results.take(i as int)) == Ok::<Seq<ExitCodeView>, DecodeError>(
                        out.deep_view(),
                    ),
                decreases items.len() - i,
            {
                let ghost before = out.deep_view();
                proof {
                    lemma_collect_step(results, i as int);
                }
                match OpenCliExitCode::from_value(&items[i]) {
                    Ok(x) => {
                        out.push(x);
                        assert(out.deep_view() =~= before.push(x.deep_view()));
                    },
                    Err(e) => {
                        proof {
                            lemma_collect_failure(results, i + 1);
                        }
                        return Err(e);
                    },
                }
                i += 1;
            }
            proof {
                assert(results.take(i as int) =~= results);
            }
        },
    }
    Ok(out)
}

/// Sets a member to the trees of the records where there are any.
pub(crate) fn put_exit_code_list(
    obj: &mut serde_json::Value,
    f: Field,
    items: &Vec<OpenCliExitCode>,
)
    requires
        json_view(*old(obj)) is Object,
    ensures
        json_view(*final(obj)) == with_list(
            json_view(*old(obj)),
            f,
            exit_code_list_json(items.deep_view()),
        ),
        json_view(*final(obj)) is Object,
{
    let mut out: Vec<serde_json::Value> = Vec::new();
    let mut i: usize = 0;
    while i < items.len()
        invariant
            i <= items.len(),
            out@.len() == i,
            forall|k: int|
                0 <= k < i ==> json_view(#[trigger] out@[k]) == encode_exit_code(items@[k]@),
        decreases items.len() - i,
    {
        out.push(items[i].to_value());
        i += 1;
    }
    proof {
        assert(views_of(out@) =~= exit_code_list_json(items.deep_view()));
    }
    put_list(obj, f, out);
}

} // verus!
