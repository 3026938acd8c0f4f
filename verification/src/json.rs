//! JSON values.
//!
//! [`Json`] holds a JSON value as plain data, and [`JsonView`] is its
//! mathematical model. Reading JSON text and writing it is the work of
//! `serde_json`; everything that looks into a value is verified here.

use vstd::prelude::*;
use vstd::string::*;
use crate::text;

verus! {

/// A JSON number, by what it is as each kind of number.
#[derive(Debug)]
pub struct JsonNumber {
    /// The number as an unsigned integer, where it is one.
    pub unsigned: Option<u64>,
    /// The number as a signed integer, where it is one.
    pub signed: Option<i64>,
    /// The decimal numeral of the number as a binary floating-point number,
    /// without an exponent.
    pub decimal: String,
}

/// A JSON value. Where two fields of an object have the same name, the later one
/// counts.
#[derive(Debug)]
pub enum Json {
    Null,
    Bool(bool),
    Number(JsonNumber),
    Text(String),
    Array(Vec<Json>),
    Object(Vec<(String, Json)>),
}

/// The model of a JSON number.
pub struct NumberView {
    pub unsigned: Option<u64>,
    pub signed: Option<i64>,
    pub decimal: Seq<char>,
}

/// The model of a JSON value.
pub enum JsonView {
    Null,
    Bool(bool),
    Number(NumberView),
    Text(Seq<char>),
    Array(Seq<JsonView>),
    Object(Map<Seq<char>, JsonView>),
}

impl View for JsonNumber {
    type V = NumberView;

    open spec fn view(&self) -> NumberView {
        NumberView { unsigned: self.unsigned, signed: self.signed, decimal: self.decimal@ }
    }
}

impl View for Json {
    type V = JsonView;

    open spec fn view(&self) -> JsonView {
        self.model()
    }
}

impl Json {
    /// The model of a value.
    pub open spec fn model(self) -> JsonView
        decreases self,
    {
        match self {
            Json::Null => JsonView::Null,
            Json::Bool(b) => JsonView::Bool(b),
            Json::Number(n) => JsonView::Number(n@),
            Json::Text(t) => JsonView::Text(t@),
            Json::Array(items) => JsonView::Array(item_views(items@)),
            Json::Object(fields) => object(field_views(fields@)),
        }
    }
}

/// The models of the items of an array.
pub open spec fn item_views(items: Seq<Json>) -> Seq<JsonView>
    decreases items,
{
    Seq::new(
        items.len(),
        |i: int|
            if 0 <= i < items.len() {
                items[i].model()
            } else {
                JsonView::Null
            },
    )
}

/// The names and the models of the fields of an object.
pub open spec fn field_views(fields: Seq<(String, Json)>) -> Seq<(Seq<char>, JsonView)>
    decreases fields,
{
    Seq::new(
        fields.len(),
        |i: int|
            if 0 <= i < fields.len() {
                (fields[i].0@, fields[i].1.model())
            } else {
                (Seq::empty(), JsonView::Null)
            },
    )
}

/// The names and values of a list of fields; of two with the same name, the later
/// one counts.
pub open spec fn field_map(fields: Seq<(Seq<char>, JsonView)>) -> Map<Seq<char>, JsonView>
    decreases fields.len(),
{
    if fields.len() == 0 {
        Map::empty()
    } else {
        field_map(fields.drop_last()).insert(fields.last().0, fields.last().1)
    }
}

/// The object with these fields.
pub open spec fn object(fields: Seq<(Seq<char>, JsonView)>) -> JsonView {
    JsonView::Object(field_map(fields))
}

impl JsonView {
    /// The field `name` of an object.
    pub open spec fn field(self, name: Seq<char>) -> Option<JsonView> {
        match self {
            JsonView::Object(fields) => if fields.dom().contains(name) {
                Some(fields[name])
            } else {
                None
            },
            _ => None,
        }
    }

    /// The text that the value is.
    pub open spec fn text(self) -> Option<Seq<char>> {
        match self {
            JsonView::Text(t) => Some(t),
            _ => None,
        }
    }

    /// The unsigned integer that the value is.
    pub open spec fn unsigned(self) -> Option<u64> {
        match self {
            JsonView::Number(n) => n.unsigned,
            _ => None,
        }
    }

    /// The signed integer that the value is.
    pub open spec fn signed(self) -> Option<i64> {
        match self {
            JsonView::Number(n) => n.signed,
            _ => None,
        }
    }

    /// The truth value that the value is.
    pub open spec fn truth(self) -> Option<bool> {
        match self {
            JsonView::Bool(b) => Some(b),
            _ => None,
        }
    }
}

impl JsonView {
    /// The object without fields.
    pub open spec fn empty_object() -> JsonView {
        JsonView::Object(Map::empty())
    }

    /// An object with the field `name` set to `value`; any other value as it is.
    pub open spec fn with(self, name: Seq<char>, value: JsonView) -> JsonView {
        match self {
            JsonView::Object(fields) => JsonView::Object(fields.insert(name, value)),
            other => other,
        }
    }

    /// An object without the field `name`; any other value as it is.
    pub open spec fn without(self, name: Seq<char>) -> JsonView {
        match self {
            JsonView::Object(fields) => JsonView::Object(fields.remove(name)),
            other => other,
        }
    }

    /// The number `n`.
    pub open spec fn number(n: u32) -> JsonView {
        JsonView::Number(
            NumberView {
                unsigned: Some(n as u64),
                signed: Some(n as i64),
                decimal: text::decimal(n as nat),
            },
        )
    }
}

/// The text of the field `name`.
pub open spec fn field_text(value: JsonView, name: Seq<char>) -> Option<Seq<char>> {
    match value.field(name) {
        Some(v) => v.text(),
        None => None,
    }
}

/// The unsigned integer in the field `name`.
pub open spec fn field_unsigned(value: JsonView, name: Seq<char>) -> Option<u64> {
    match value.field(name) {
        Some(v) => v.unsigned(),
        None => None,
    }
}

/// The signed integer in the field `name`.
pub open spec fn field_signed(value: JsonView, name: Seq<char>) -> Option<i64> {
    match value.field(name) {
        Some(v) => v.signed(),
        None => None,
    }
}

/// The truth value in the field `name`.
pub open spec fn field_truth(value: JsonView, name: Seq<char>) -> Option<bool> {
    match value.field(name) {
        Some(v) => v.truth(),
        None => None,
    }
}

/// The field `second` of the field `first`.
pub open spec fn field_of_field(
    value: JsonView,
    first: Seq<char>,
    second: Seq<char>,
) -> Option<JsonView> {
    match value.field(first) {
        Some(v) => v.field(second),
        None => None,
    }
}

/// The view of an optional value.
pub open spec fn option_model(value: Option<&Json>) -> Option<JsonView> {
    match value {
        Some(v) => Some(v@),
        None => None,
    }
}

/// The view of an optional borrowed text.
pub open spec fn option_text(text: Option<&str>) -> Option<Seq<char>> {
    match text {
        Some(t) => Some(t@),
        None => None,
    }
}

impl Json {
    /// The field `name` of an object; nothing for any other value.
    pub fn get(&self, name: &str) -> (r: Option<&Json>)
        ensures
            option_model(r) == self@.field(name@),
    {
        match self {
            Json::Object(fields) => {
                let ghost all = field_views(fields@);
                let mut i: usize = fields.len();
                assert(all.take(i as int) == all);
                while i > 0
                    invariant
                        i <= fields@.len() == all.len(),
                        self@ == object(all),
                        forall|k: int|
                            0 <= k < all.len() ==> #[trigger] all[k] == (
                                fields@[k].0@,
                                fields@[k].1.model(),
                            ),
                        object(all).field(name@) == object(all.take(i as int)).field(name@),
                    decreases i,
                {
                    assert(all.take(i as int).last() == all[i - 1]);
                    assert(all.take(i as int).drop_last() == all.take(i - 1));
                    if text::same_text(fields[i - 1].0.as_str(), name) {
                        return Some(&fields[i - 1].1);
                    }
                    i = i - 1;
                }
                None
            },
            _ => None,
        }
    }

    /// The text that the value is.
    pub fn as_str(&self) -> (r: Option<&str>)
        ensures
            option_text(r) == self@.text(),
    {
        match self {
            Json::Text(t) => Some(t.as_str()),
            _ => None,
        }
    }

    /// The unsigned integer that the value is.
    pub fn as_u64(&self) -> (r: Option<u64>)
        ensures
            r == self@.unsigned(),
    {
        match self {
            Json::Number(n) => n.unsigned,
            _ => None,
        }
    }

    /// The signed integer that the value is.
    pub fn as_i64(&self) -> (r: Option<i64>)
        ensures
            r == self@.signed(),
    {
        match self {
            Json::Number(n) => n.signed,
            _ => None,
        }
    }

    /// The truth value that the value is.
    pub fn as_bool(&self) -> (r: Option<bool>)
        ensures
            r == self@.truth(),
    {
        match self {
            Json::Bool(b) => Some(*b),
            _ => None,
        }
    }

    /// Whether the value is `null`.
    pub fn is_null(&self) -> (r: bool)
        ensures
            r == (self@ is Null),
    {
        matches!(self, Json::Null)
    }

    /// Whether the value is an object.
    pub fn is_object(&self) -> (r: bool)
        ensures
            r == (self@ is Object),
    {
        matches!(self, Json::Object(_))
    }

    /// A copy of the value.
    pub fn duplicate(&self) -> (r: Json)
        ensures
            r@ == self@,
        decreases *self,
    {
        match self {
            Json::Null => Json::Null,
            Json::Bool(b) => Json::Bool(*b),
            Json::Number(n) => Json::Number(
                JsonNumber {
                    unsigned: n.unsigned,
                    signed: n.signed,
                    decimal: n.decimal.clone(),
                },
            ),
            Json::Text(t) => Json::Text(t.clone()),
            Json::Array(items) => {
                let mut copy: Vec<Json> = Vec::new();
                let mut i: usize = 0;
                while i < items.len()
                    invariant
                        i <= items@.len(),
                        copy@.len() == i,
                        *self == Json::Array(*items),
                        forall|k: int| 0 <= k < i ==> copy@[k]@ == #[trigger] items@[k].model(),
                    decreases items@.len() - i,
                {
                    assert(decreases_to!(*self => self->Array_0));
                    assert(decreases_to!(*items => items@));
                    assert(decreases_to!(items@ => items@[i as int]));
                    copy.push(items[i].duplicate());
                    i = i + 1;
                }
                assert forall|k: int| 0 <= k < items@.len() implies #[trigger] item_views(copy@)[k]
                    == item_views(items@)[k] by {
                    assert(copy@[k]@ == items@[k].model());
                }
                assert(item_views(copy@) =~= item_views(items@));
                Json::Array(copy)
            },
            Json::Object(fields) => {
                let mut copy: Vec<(String, Json)> = Vec::new();
                let mut i: usize = 0;
                while i < fields.len()
                    invariant
                        i <= fields@.len(),
                        copy@.len() == i,
                        *self == Json::Object(*fields),
                        forall|k: int|
                            0 <= k < i ==> copy@[k].0@ == fields@[k].0@ && copy@[k].1@ == (
                            #[trigger] fields@[k]).1.model(),
                    decreases fields@.len() - i,
                {
                    assert(decreases_to!(*self => self->Object_0));
                    assert(decreases_to!(*fields => fields@));
                    assert(decreases_to!(fields@ => fields@[i as int]));
                    assert(decreases_to!(fields@[i as int] => fields@[i as int].1));
                    copy.push((fields[i].0.clone(), fields[i].1.duplicate()));
                    i = i + 1;
                }
                assert(field_views(copy@) =~= field_views(fields@));
                Json::Object(copy)
            },
        }
    }

    /// The object without fields.
    pub fn empty_object() -> (r: Json)
        ensures
            r@ == JsonView::empty_object(),
    {
        Json::Object(Vec::new())
    }

    /// The text `t` as a value.
    pub fn from_text(t: &str) -> (r: Json)
        ensures
            r@ == JsonView::Text(t@),
    {
        Json::Text(t.to_owned())
    }

    /// The number `n` as a value.
    pub fn from_number(n: u32) -> (r: Json)
        ensures
            r@ == JsonView::number(n),
    {
        Json::Number(
            JsonNumber {
                unsigned: Some(n as u64),
                signed: Some(n as i64),
                decimal: text::number_text(n as u64),
            },
        )
    }

    /// The value with the field `name` set to `value`, where it is an object.
    pub fn with(self, name: &str, value: Json) -> (r: Json)
        ensures
            r@ == self@.with(name@, value@),
    {
        match self {
            Json::Object(fields) => {
                let mut fields = fields;
                let ghost before = field_views(fields@);
                fields.push((name.to_owned(), value));
                assert(field_views(fields@) =~= before.push((name@, value@)));
                assert(field_views(fields@).drop_last() =~= before);
                Json::Object(fields)
            },
            other => other,
        }
    }

    /// A copy of the value without the field `name`, where it is an object.
    pub fn without(&self, name: &str) -> (r: Json)
        ensures
            r@ == self@.without(name@),
    {
        match self {
            Json::Object(fields) => {
                let ghost all = field_views(fields@);
                let mut kept: Vec<(String, Json)> = Vec::new();
                let mut i: usize = 0;
                assert(field_map(field_views(kept@)) =~= field_map(all.take(0)).remove(name@));
                while i < fields.len()
                    invariant
                        i <= fields@.len() == all.len(),
                        forall|k: int|
                            0 <= k < all.len() ==> #[trigger] all[k] == (
                                fields@[k].0@,
                                fields@[k].1.model(),
                            ),
                        field_map(field_views(kept@)) == field_map(all.take(i as int)).remove(name@),
                    decreases fields@.len() - i,
                {
                    assert(all.take(i + 1).drop_last() == all.take(i as int));
                    assert(all.take(i + 1).last() == all[i as int]);
                    let ghost before = field_views(kept@);
                    if !text::same_text(fields[i].0.as_str(), name) {
                        kept.push((fields[i].0.clone(), fields[i].1.duplicate()));
                        assert(field_views(kept@) =~= before.push(all[i as int]));
                        assert(field_views(kept@).drop_last() =~= before);
                    }
                    assert(field_map(field_views(kept@)) =~= field_map(all.take(i + 1)).remove(
                        name@,
                    ));
                    i = i + 1;
                }
                assert(all.take(i as int) == all);
                Json::Object(kept)
            },
            _ => self.duplicate(),
        }
    }

    /// The text of the field `name`.
    pub fn get_str(&self, name: &str) -> (r: Option<&str>)
        ensures
            option_text(r) == field_text(self@, name@),
    {
        match self.get(name) {
            Some(v) => v.as_str(),
            None => None,
        }
    }

    /// The unsigned integer in the field `name`.
    pub fn get_u64(&self, name: &str) -> (r: Option<u64>)
        ensures
            r == field_unsigned(self@, name@),
    {
        match self.get(name) {
            Some(v) => v.as_u64(),
            None => None,
        }
    }

    /// The signed integer in the field `name`.
    pub fn get_i64(&self, name: &str) -> (r: Option<i64>)
        ensures
            r == field_signed(self@, name@),
    {
        match self.get(name) {
            Some(v) => v.as_i64(),
            None => None,
        }
    }

    /// The truth value in the field `name`.
    pub fn get_bool(&self, name: &str) -> (r: Option<bool>)
        ensures
            r == field_truth(self@, name@),
    {
        match self.get(name) {
            Some(v) => v.as_bool(),
            None => None,
        }
    }
}

/// The value that `serde_json` reads in a text, where the text is JSON.
pub uninterp spec fn json_parsed(text: Seq<char>) -> Option<JsonView>;

/// What `serde_json` says of a text that is not JSON.
pub uninterp spec fn json_error(text: Seq<char>) -> Seq<char>;

/// The text that `serde_json` writes for a value.
pub uninterp spec fn json_written(value: JsonView) -> Seq<char>;

/// `serde_json::Value`, which only the conversions below look into.
#[verifier::external_type_specification]
#[verifier::external_body]
pub struct ExValue(serde_json::Value);

/// A `serde_json::Value` as plain data, variant by variant.
#[verifier::external_body]
fn json_of(value: serde_json::Value) -> Json {
    match value {
        serde_json::Value::Null => Json::Null,
        serde_json::Value::Bool(b) => Json::Bool(b),
        serde_json::Value::Number(n) => Json::Number(JsonNumber {
            unsigned: n.as_u64(),
            signed: n.as_i64(),
            decimal: n.as_f64().map(|x| x.to_string()).unwrap_or_default(),
        }),
        serde_json::Value::String(s) => Json::Text(s),
        serde_json::Value::Array(a) => Json::Array(a.into_iter().map(json_of).collect()),
        serde_json::Value::Object(m) => Json::Object(m.into_iter().map(|f| (f.0, json_of(f.1))).collect()),
    }
}

/// `serde_json::from_str` on a `serde_json::Value`: which texts are JSON, which value
/// each of them is, and what the error says of the others, depends on the text alone.
#[verifier::external_body]
fn read_json(text: &str) -> (r: Result<Json, String>)
    ensures
        match r {
            Ok(value) => json_parsed(text@) == Some(value@),
            Err(error) => json_parsed(text@) is None && error@ == json_error(text@),
        },
{
    match serde_json::from_str::<serde_json::Value>(text) {
        Ok(value) => Ok(json_of(value)),
        Err(error) => Err(error.to_string()),
    }
}

/// A value as a `serde_json::Value`, variant by variant.
#[verifier::external_body]
fn value_of(value: &Json) -> serde_json::Value {
    match value {
        Json::Null => serde_json::Value::Null,
        Json::Bool(b) => serde_json::Value::Bool(*b),
        Json::Number(n) => match (n.unsigned, n.signed) {
            (Some(u), _) => u.into(),
            (None, Some(i)) => i.into(),
            (None, None) => n.decimal.parse().ok().and_then(serde_json::Number::from_f64).into(),
        },
        Json::Text(t) => serde_json::Value::String(t.clone()),
        Json::Array(items) => items.iter().map(value_of).collect(),
        Json::Object(fields) => fields.iter().map(|f| (f.0.clone(), value_of(&f.1))).collect(),
    }
}

/// `serde_json::to_string` on a `serde_json::Value`: the text depends on the
/// value alone.
#[verifier::external_body]
fn json_text(value: &Json) -> (r: String)
    ensures
        r@ == json_written(value@),
{
    serde_json::to_string(&value_of(value)).unwrap_or_default()
}

/// The value in a text, where the text is JSON.
pub fn parse_json(text: &str) -> (r: Option<Json>)
    ensures
        match r {
            Some(value) => json_parsed(text@) == Some(value@),
            None => json_parsed(text@) is None,
        },
{
    match read_json(text) {
        Ok(value) => Some(value),
        Err(_) => None,
    }
}

/// The value in a text, or what is wrong with the text where it is not JSON.
pub fn parse_json_or_error(text: &str) -> (r: Result<Json, String>)
    ensures
        match r {
            Ok(value) => json_parsed(text@) == Some(value@),
            Err(error) => json_parsed(text@) is None && error@ == json_error(text@),
        },
{
    read_json(text)
}

/// The text of a value.
pub fn write_json(value: &Json) -> (r: String)
    ensures
        r@ == json_written(value@),
{
    json_text(value)
}

} // verus!
