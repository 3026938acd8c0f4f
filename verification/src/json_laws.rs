//! What holds of JSON values.

use vstd::prelude::*;
#[allow(unused_imports)]
use crate::json;
#[allow(unused_imports)]
use crate::json::{Json, JsonView};
#[allow(unused_imports)]
use crate::text;

verus! {

/// A field reads back as it was set, and setting or taking out one leaves the others alone.
pub proof fn law_fields_are_apart(
    fields: Map<Seq<char>, JsonView>,
    name: Seq<char>,
    other: Seq<char>,
    value: JsonView,
)
    requires
        name != other,
    ensures
        ({
            let object = JsonView::Object(fields);
            &&& object.with(name, value).field(name) == Some(value)
            &&& object.with(name, value).field(other) == object.field(other)
            &&& object.without(name).field(name) is None
            &&& object.without(name).field(other) == object.field(other)
        }),
        JsonView::empty_object().field(name) is None,
{
}

/// A field is read as what it is: a text as a text, a number as that number, a truth as that
/// truth; and as nothing else.
pub proof fn law_fields_are_read_as_what_they_are(
    fields: Map<Seq<char>, JsonView>,
    name: Seq<char>,
    words: Seq<char>,
    truth: bool,
    n: u32,
)
    ensures
        ({
            let object = JsonView::Object(fields);
            let worded = object.with(name, JsonView::Text(words));
            let true_or_not = object.with(name, JsonView::Bool(truth));
            let numbered = object.with(name, JsonView::number(n));
            &&& json::field_text(worded, name) == Some(words)
            &&& json::field_unsigned(worded, name) is None
            &&& json::field_signed(worded, name) is None
            &&& json::field_truth(worded, name) is None
            &&& json::field_truth(true_or_not, name) == Some(truth)
            &&& json::field_text(true_or_not, name) is None
            &&& json::field_unsigned(numbered, name) == Some(n as u64)
            &&& json::field_signed(numbered, name) == Some(n as i64)
            &&& json::field_text(numbered, name) is None
            &&& json::field_truth(numbered, name) is None
        }),
        JsonView::number(n)->Number_0.decimal == text::decimal(n as nat),
{
}

/// A field of a field is read on the way that was asked for.
pub proof fn law_a_field_of_a_field_is_read_in_order(
    outer: Map<Seq<char>, JsonView>,
    inner: Map<Seq<char>, JsonView>,
    first: Seq<char>,
    second: Seq<char>,
    value: JsonView,
)
    ensures
        json::field_of_field(
            JsonView::Object(outer).with(first, JsonView::Object(inner).with(second, value)),
            first,
            second,
        ) == Some(value),
{
}

/// Nothing but an object has fields.
pub proof fn law_only_objects_have_fields(value: JsonView, name: Seq<char>)
    requires
        !(value is Object),
    ensures
        value.field(name) is None,
{
}

/// Of fields with the same name the last one counts.
pub proof fn law_the_last_field_of_a_name_counts(
    fields: Seq<(Seq<char>, JsonView)>,
    name: Seq<char>,
    value: JsonView,
    other: Seq<char>,
)
    ensures
        json::object(fields.push((name, value))).field(name) == Some(value),
        other != name ==> json::object(fields.push((name, value))).field(other) == json::object(
            fields,
        ).field(other),
{
    assert(fields.push((name, value)).drop_last() =~= fields);
}

/// A value is modelled by what it holds.
pub proof fn law_a_value_is_modelled_by_what_it_holds(
    truth: bool,
    words: String,
    items: Vec<Json>,
    i: int,
)
    requires
        0 <= i < items@.len(),
    ensures
        Json::Null@ == JsonView::Null,
        Json::Bool(truth)@ == JsonView::Bool(truth),
        Json::Text(words)@ == JsonView::Text(words@),
        Json::Array(items)@ is Array,
        Json::Array(items)@->Array_0.len() == items@.len(),
        Json::Array(items)@->Array_0[i] == items@[i]@,
{
}

} // verus!
