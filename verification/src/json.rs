//! JSON documents: the library's own tree, and how one is read from text.

use vstd::prelude::*;

use crate::text::same_text;

verus! {

/// A JSON value.
#[derive(Debug)]
pub enum Json {
    Null,
    Bool(bool),
    /// A number: its value where it is an integer of 64 bits with sign, and its
    /// decimal notation.
    Number { value: Option<i64>, text: String },
    Text(String),
    Array(Vec<Json>),
    /// The members, in the order of the document tree.
    Object(Vec<(String, Json)>),
}

/// What a JSON value holds.
pub enum JsonModel {
    Null,
    Bool(bool),
    Number { value: Option<i64>, text: Seq<char> },
    Text(Seq<char>),
    Array(Seq<JsonModel>),
    Object(Seq<(Seq<char>, JsonModel)>),
}

/// The contents of `j`.
pub open spec fn json_model(j: Json) -> JsonModel
    decreases j,
{
    match j {
        Json::Null => JsonModel::Null,
        Json::Bool(b) => JsonModel::Bool(b),
        Json::Number { value, text } => JsonModel::Number { value, text: text@ },
        Json::Text(s) => JsonModel::Text(s@),
        Json::Array(items) => JsonModel::Array(
            Seq::new(
                items@.len(),
                |i: int|
                    if 0 <= i < items@.len() {
                        json_model(items@[i])
                    } else {
                        JsonModel::Null
                    },
            ),
        ),
        Json::Object(members) => JsonModel::Object(
            Seq::new(
                members@.len(),
                |i: int|
                    if 0 <= i < members@.len() {
                        (members@[i].0@, json_model(members@[i].1))
                    } else {
                        (Seq::empty(), JsonModel::Null)
                    },
            ),
        ),
    }
}

impl View for Json {
    type V = JsonModel;

    open spec fn view(&self) -> JsonModel {
        json_model(*self)
    }
}

// ---------------------------------------------------------------------------
// Looking into a document
// ---------------------------------------------------------------------------

/// The value of the first member with the name `key`, or null where there is
/// none.
pub open spec fn member_of(members: Seq<(Seq<char>, JsonModel)>, key: Seq<char>) -> JsonModel
    decreases members.len(),
{
    if members.len() == 0 {
        JsonModel::Null
    } else if members.first().0 == key {
        members.first().1
    } else {
        member_of(members.drop_first(), key)
    }
}

impl JsonModel {
    /// The member with the name `key`; null where there is none, and in what is
    /// no object.
    pub open spec fn field(self, key: Seq<char>) -> JsonModel {
        match self {
            JsonModel::Object(members) => member_of(members, key),
            _ => JsonModel::Null,
        }
    }

    /// The first item of an array; null in an empty one, and in what is no array.
    pub open spec fn head(self) -> JsonModel {
        match self {
            JsonModel::Array(items) => if items.len() > 0 {
                items[0]
            } else {
                JsonModel::Null
            },
            _ => JsonModel::Null,
        }
    }

    /// The items of an array; none in what is no array.
    pub open spec fn items(self) -> Seq<JsonModel> {
        match self {
            JsonModel::Array(items) => items,
            _ => Seq::empty(),
        }
    }

    /// The text of a text value, and `other` for anything else.
    pub open spec fn text_or(self, other: Seq<char>) -> Seq<char> {
        match self {
            JsonModel::Text(s) => s,
            _ => other,
        }
    }

    /// The integer of a number that is one, and 0 for anything else.
    pub open spec fn int_or_zero(self) -> i64 {
        match self {
            JsonModel::Number { value: Some(n), .. } => n,
            _ => 0,
        }
    }

    /// The value of a boolean, and false for anything else.
    pub open spec fn is_true(self) -> bool {
        self == JsonModel::Bool(true)
    }
}

/// What a place in a document holds, null where the place does not exist.
pub open spec fn place_model(place: Option<&Json>) -> JsonModel {
    match place {
        Some(j) => j@,
        None => JsonModel::Null,
    }
}

/// The place of the member with the name `key`.
pub fn field<'a>(place: Option<&'a Json>, key: &str) -> (r: Option<&'a Json>)
    ensures
        place_model(r) == place_model(place).field(key@),
{
    match place {
        Some(Json::Object(members)) => {
            let ghost all = place_model(place)->Object_0;
            assert(all.skip(0) == all);
            let mut i: usize = 0;
            while i < members.len()
                invariant
                    i <= members@.len(),
                    all.len() == members@.len(),
                    forall|j: int|
                        0 <= j < all.len() ==> #[trigger] all[j] == (
                            members@[j].0@,
                            members@[j].1@,
                        ),
                    place_model(place).field(key@) == member_of(all, key@),
                    member_of(all, key@) == member_of(all.skip(i as int), key@),
                decreases members@.len() - i,
            {
                assert(all[i as int] == (members@[i as int].0@, members@[i as int].1@));
                if same_text(members[i].0.as_str(), key) {
                    return Some(&members[i].1);
                }
                assert(all.skip(i as int).drop_first() == all.skip(i + 1));
                i += 1;
            }
            None
        },
        _ => None,
    }
}

/// The place of the first item.
pub fn head<'a>(place: Option<&'a Json>) -> (r: Option<&'a Json>)
    ensures
        place_model(r) == place_model(place).head(),
{
    match place {
        Some(Json::Array(items)) => if items.len() > 0 {
            Some(&items[0])
        } else {
            None
        },
        _ => None,
    }
}

/// The items of the array at a place, or `None` where no array stands there.
pub fn items<'a>(place: Option<&'a Json>) -> (r: Option<&'a Vec<Json>>)
    ensures
        match r {
            Some(v) => place_model(place).items() == Seq::new(v@.len(), |i: int| v@[i]@),
            None => place_model(place).items() == Seq::<JsonModel>::empty(),
        },
{
    match place {
        Some(Json::Array(v)) => {
            assert(place_model(place).items() == Seq::new(v@.len(), |i: int| v@[i]@));
            Some(v)
        },
        _ => None,
    }
}

/// The text at a place, or `other` where no text stands there.
pub fn text_or(place: Option<&Json>, other: &str) -> (r: String)
    ensures
        r@ == place_model(place).text_or(other@),
{
    match place {
        Some(Json::Text(s)) => s.clone(),
        _ => other.to_owned(),
    }
}

/// The integer at a place, or 0 where no integer stands there.
pub fn int_or_zero(place: Option<&Json>) -> (r: i64)
    ensures
        r == place_model(place).int_or_zero(),
{
    match place {
        Some(Json::Number { value: Some(n), .. }) => *n,
        _ => 0,
    }
}

/// Whether `true` stands at a place.
pub fn is_true(place: Option<&Json>) -> (r: bool)
    ensures
        r == place_model(place).is_true(),
{
    match place {
        Some(Json::Bool(b)) => *b,
        _ => false,
    }
}

/// A value shows what it holds: a list its items and an object its members, each
/// at its position.
pub proof fn law_value_shows_what_it_holds(
    b: bool,
    value: Option<i64>,
    text: String,
    items: Vec<Json>,
    members: Vec<(String, Json)>,
)
    ensures
        Json::Null@ == JsonModel::Null,
        Json::Bool(b)@ == JsonModel::Bool(b),
        (Json::Number { value, text })@ == (JsonModel::Number { value, text: text@ }),
        Json::Text(text)@ == JsonModel::Text(text@),
        Json::Array(items)@ is Array,
        Json::Array(items)@->Array_0.len() == items@.len(),
        forall|i: int|
            0 <= i < items@.len() ==> #[trigger] Json::Array(items)@->Array_0[i] == items@[i]@,
        Json::Object(members)@ is Object,
        Json::Object(members)@->Object_0.len() == members@.len(),
        forall|i: int|
            0 <= i < members@.len() ==> #[trigger] Json::Object(members)@->Object_0[i] == (
                members@[i].0@,
                members@[i].1@,
            ),
{
}

/// A place shows the value that stands there, and null where there is none.
pub proof fn law_place_shows_its_value(j: &Json)
    ensures
        place_model(Some(j)) == j@,
        place_model(None) == JsonModel::Null,
{
}

/// The field of a name is the value of the first member with that name, whatever
/// members come before and after.
pub proof fn law_field_is_the_first_with_its_name(
    before: Seq<(Seq<char>, JsonModel)>,
    key: Seq<char>,
    value: JsonModel,
    after: Seq<(Seq<char>, JsonModel)>,
)
    requires
        forall|i: int| 0 <= i < before.len() ==> (#[trigger] before[i]).0 != key,
    ensures
        JsonModel::Object(before.push((key, value)) + after).field(key) == value,
        JsonModel::Object(before).field(key) == JsonModel::Null,
    decreases before.len(),
{
    let whole = before.push((key, value)) + after;
    if before.len() > 0 {
        law_field_is_the_first_with_its_name(before.drop_first(), key, value, after);
        assert(whole.first() == before[0]);
        assert(whole.drop_first() == before.drop_first().push((key, value)) + after);
    } else {
        assert(whole.first() == (key, value));
    }
}

/// What is no object has no fields, what is no array has no items, and a value of
/// the wrong kind is no text, no integer and not true.
pub proof fn law_other_kinds_hold_nothing(v: JsonModel, key: Seq<char>, other: Seq<char>)
    ensures
        v !is Object ==> v.field(key) == JsonModel::Null,
        v !is Array ==> v.items() == Seq::<JsonModel>::empty() && v.head() == JsonModel::Null,
        v !is Text ==> v.text_or(other) == other,
        v !is Number ==> v.int_or_zero() == 0,
        v !is Bool ==> !v.is_true(),
{
}

/// An array has its items, of which the first is the head; a text its text, an
/// integer its value, and of the booleans only true is true.
pub proof fn law_kinds_hold_their_value(
    items: Seq<JsonModel>,
    text: Seq<char>,
    other: Seq<char>,
    n: i64,
    b: bool,
)
    ensures
        JsonModel::Array(items).items() == items,
        items.len() > 0 ==> JsonModel::Array(items).head() == items[0],
        items.len() == 0 ==> JsonModel::Array(items).head() == JsonModel::Null,
        JsonModel::Text(text).text_or(other) == text,
        (JsonModel::Number { value: Some(n), text }).int_or_zero() == n,
        (JsonModel::Number { value: None, text }).int_or_zero() == 0,
        JsonModel::Bool(b).is_true() == b,
{
}

/// What `field`, `head`, `text_or`, `int_or_zero` and `is_true` find at a place is
/// what stands there: the first member with the name, the first item, the text,
/// the integer, and true.
pub proof fn law_places_are_looked_up(
    place: Option<&Json>,
    key: &str,
    member: Option<&Json>,
    first: Option<&Json>,
    other: &str,
    text: String,
    n: i64,
    yes: bool,
    before: Seq<(Seq<char>, JsonModel)>,
    value: JsonModel,
    after: Seq<(Seq<char>, JsonModel)>,
    more: Seq<JsonModel>,
    s: Seq<char>,
    m: i64,
)
    requires
        call_ensures(field, (place, key), member),
        call_ensures(head, (place,), first),
        call_ensures(text_or, (place, other), text),
        call_ensures(int_or_zero, (place,), n),
        call_ensures(is_true, (place,), yes),
        forall|i: int| 0 <= i < before.len() ==> (#[trigger] before[i]).0 != key@,
    ensures
        place_model(place) == JsonModel::Object(before.push((key@, value)) + after)
            ==> place_model(member) == value,
        place_model(place) == JsonModel::Object(before) ==> place_model(member) == JsonModel::Null,
        place_model(place) == JsonModel::Array(seq![value] + more) ==> place_model(first) == value,
        place_model(place) == JsonModel::Text(s) ==> text@ == s,
        place_model(place) !is Text ==> text@ == other@,
        place_model(place) == (JsonModel::Number { value: Some(m), text: s }) ==> n == m,
        place_model(place) !is Number ==> n == 0,
        yes <==> place_model(place) == JsonModel::Bool(true),
{
    law_field_is_the_first_with_its_name(before, key@, value, after);
    assert((seq![value] + more)[0] == value);
}

// ---------------------------------------------------------------------------
// Reading a document
// ---------------------------------------------------------------------------

/// The document tree of `serde_json`.
#[verifier::external_type_specification]
#[verifier::external_body]
pub struct ExValue(serde_json::Value);

/// What a document tree of `serde_json` holds: its nulls, booleans, texts and
/// numbers (the integer that `Number::as_i64` gives, and the notation that it is
/// displayed in), the items of its arrays and the members of its objects.
pub uninterp spec fn value_model(v: serde_json::Value) -> JsonModel;

/// What `serde_json::from_str` makes of a text: the contents of the document, or
/// the message of the error.
pub uninterp spec fn parsed_text(s: Seq<char>) -> Result<JsonModel, Seq<char>>;

/// What `serde_json::from_reader` makes of the bytes of a reader that never
/// fails: the contents of the document, or the message of the error.
pub uninterp spec fn parsed_bytes(b: Seq<u8>) -> Result<JsonModel, Seq<char>>;

/// The topmost level of a document tree.
enum Level {
    Null,
    Bool(bool),
    Number { value: Option<i64>, text: String },
    Text(String),
    Array(Vec<serde_json::Value>),
    Object(Vec<(String, serde_json::Value)>),
}

spec fn level_model(l: Level) -> JsonModel {
    match l {
        Level::Null => JsonModel::Null,
        Level::Bool(b) => JsonModel::Bool(b),
        Level::Number { value, text } => JsonModel::Number { value, text: text@ },
        Level::Text(s) => JsonModel::Text(s@),
        Level::Array(items) => JsonModel::Array(
            Seq::new(items@.len(), |i: int| value_model(items@[i])),
        ),
        Level::Object(members) => JsonModel::Object(
            Seq::new(members@.len(), |i: int| (members@[i].0@, value_model(members@[i].1))),
        ),
    }
}

/// The variants of `serde_json::Value`, told apart: the topmost level holds what
/// the tree holds. A number is taken as what `Number::as_i64` gives and as the
/// notation that `Number` is displayed in.
#[verifier::external_body]
fn open_value(v: serde_json::Value) -> (r: Level)
    ensures
        level_model(r) == value_model(v),
{
    match v {
        serde_json::Value::Null => Level::Null,
        serde_json::Value::Bool(b) => Level::Bool(b),
        serde_json::Value::Number(n) => Level::Number { value: n.as_i64(), text: n.to_string() },
        serde_json::Value::String(s) => Level::Text(s),
        serde_json::Value::Array(items) => Level::Array(items),
        serde_json::Value::Object(members) => Level::Object(members.into_iter().collect()),
    }
}

/// `serde_json::from_str` into a document tree, with the error as its message.
#[verifier::external_body]
fn value_from_str(s: &str) -> (r: Result<serde_json::Value, String>)
    ensures
        match r {
            Ok(v) => parsed_text(s@) == Ok::<JsonModel, Seq<char>>(value_model(v)),
            Err(e) => parsed_text(s@) == Err::<JsonModel, Seq<char>>(e@),
        },
{
    serde_json::from_str(s).map_err(|e: serde_json::Error| e.to_string())
}

/// `serde_json::from_reader` on bytes in memory into a document tree, with the
/// error as its message.
#[verifier::external_body]
fn value_from_reader(b: &[u8]) -> (r: Result<serde_json::Value, String>)
    ensures
        match r {
            Ok(v) => parsed_bytes(b@) == Ok::<JsonModel, Seq<char>>(value_model(v)),
            Err(e) => parsed_bytes(b@) == Err::<JsonModel, Seq<char>>(e@),
        },
{
    serde_json::from_reader(b).map_err(|e: serde_json::Error| e.to_string())
}

fn from_value(v: serde_json::Value) -> (r: Json)
    ensures
        r@ == value_model(v),
    decreases value_model(v),
{
    let ghost whole = value_model(v);
    match open_value(v) {
        Level::Null => Json::Null,
        Level::Bool(b) => Json::Bool(b),
        Level::Number { value, text } => Json::Number { value, text },
        Level::Text(s) => Json::Text(s),
        Level::Array(items) => {
            let ghost all = items@;
            let mut out: Vec<Json> = Vec::new();
            for item in it: items
                invariant
                    it.seq() == all,
                    whole == value_model(v),
                    whole == JsonModel::Array(
                        Seq::new(all.len(), |i: int| value_model(all[i])),
                    ),
                    out@.len() == it.index(),
                    forall|i: int|
                        0 <= i < out@.len() ==> (#[trigger] out@[i])@ == value_model(all[i]),
            {
                assert(decreases_to!(whole => whole->Array_0[it.index()]));
                out.push(from_value(item));
            }
            let r: Json = Json::Array(out);
            assert(r@->Array_0 == whole->Array_0);
            r
        },
        Level::Object(members) => {
            let ghost all = members@;
            let mut out: Vec<(String, Json)> = Vec::new();
            for member in it: members
                invariant
                    it.seq() == all,
                    whole == value_model(v),
                    whole == JsonModel::Object(
                        Seq::new(all.len(), |i: int| (all[i].0@, value_model(all[i].1))),
                    ),
                    out@.len() == it.index(),
                    forall|i: int|
                        0 <= i < out@.len() ==> (#[trigger] out@[i]).0@ == all[i].0@ && out@[i].1@
                            == value_model(all[i].1),
            {
                assert(decreases_to!(whole => whole->Object_0[it.index()].1));
                let (key, value) = member;
                out.push((key, from_value(value)));
            }
            let r: Json = Json::Object(out);
            assert(r@->Object_0 == whole->Object_0);
            r
        },
    }
}

/// Reads a document from a text, with the error as its message.
pub fn json_from_str(s: &str) -> (r: Result<Json, String>)
    ensures
        match r {
            Ok(j) => parsed_text(s@) == Ok::<JsonModel, Seq<char>>(j@),
            Err(e) => parsed_text(s@) == Err::<JsonModel, Seq<char>>(e@),
        },
{
    match value_from_str(s) {
        Ok(v) => Ok(from_value(v)),
        Err(e) => Err(e),
    }
}

/// Reads a document from bytes, with the error as its message.
pub fn json_from_bytes(b: &Vec<u8>) -> (r: Result<Json, String>)
    ensures
        match r {
            Ok(j) => parsed_bytes(b@) == Ok::<JsonModel, Seq<char>>(j@),
            Err(e) => parsed_bytes(b@) == Err::<JsonModel, Seq<char>>(e@),
        },
{
    match value_from_reader(b.as_slice()) {
        Ok(v) => Ok(from_value(v)),
        Err(e) => Err(e),
    }
}

} // verus!
