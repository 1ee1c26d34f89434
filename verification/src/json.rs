//! A JSON value as the protocol reads and writes it, its mathematical
//! model, and the conversion from and to text, which serde_json performs.

use crate::error::{ErrorStatus, WebDriverError};
use crate::text::str_eq;
use serde_json::Value;
use vstd::prelude::*;

verus! {

/// A JSON number: a non-negative integer, a negative integer, or any other
/// number kept as its decimal text.
#[derive(Debug, PartialEq)]
pub enum Number {
    PosInt(u64),
    NegInt(i64),
    Float(String),
}

/// The model of a number: a mathematical integer, or the text of a
/// number that is none.
pub ghost enum NumberValue {
    Int(int),
    Float(Seq<char>),
}

impl View for Number {
    type V = NumberValue;

    open spec fn view(&self) -> NumberValue {
        match self {
            Number::PosInt(u) => NumberValue::Int(*u as int),
            Number::NegInt(i) => NumberValue::Int(*i as int),
            Number::Float(t) => NumberValue::Float(t@),
        }
    }
}

impl Clone for Number {
    fn clone(&self) -> (r: Number)
        ensures
            r@ == self@,
    {
        match self {
            Number::PosInt(u) => Number::PosInt(*u),
            Number::NegInt(i) => Number::NegInt(*i),
            Number::Float(t) => Number::Float(t.clone()),
        }
    }
}

/// A JSON value. An object keeps its members in a list; where a key occurs
/// more than once, the last occurrence counts.
#[derive(Debug, PartialEq)]
pub enum Json {
    Null,
    Bool(bool),
    Number(Number),
    String(String),
    Array(Vec<Json>),
    Object(Vec<(String, Json)>),
}

/// The model of a JSON value.
pub ghost enum JsonValue {
    Null,
    Bool(bool),
    Number(NumberValue),
    String(Seq<char>),
    Array(Seq<JsonValue>),
    Object(Seq<(Seq<char>, JsonValue)>),
}

/// The model of a value: its items and members by their own models.
pub open spec fn json_value(j: Json) -> JsonValue
    decreases j,
{
    match j {
        Json::Null => JsonValue::Null,
        Json::Bool(b) => JsonValue::Bool(b),
        Json::Number(n) => JsonValue::Number(n@),
        Json::String(s) => JsonValue::String(s@),
        Json::Array(v) => JsonValue::Array(items_value(v@)),
        Json::Object(v) => JsonValue::Object(members_value(v@)),
    }
}

/// The models of the items of an array, in order.
pub open spec fn items_value(items: Seq<Json>) -> Seq<JsonValue>
    decreases items,
{
    if items.len() == 0 {
        Seq::empty()
    } else {
        items_value(items.drop_last()).push(json_value(items.last()))
    }
}

/// The models of the members of an object, in order.
pub open spec fn members_value(members: Seq<(String, Json)>) -> Seq<(Seq<char>, JsonValue)>
    decreases members,
{
    if members.len() == 0 {
        Seq::empty()
    } else {
        members_value(members.drop_last()).push(
            (members.last().0@, json_value(members.last().1)),
        )
    }
}

impl View for Json {
    type V = JsonValue;

    open spec fn view(&self) -> JsonValue {
        json_value(*self)
    }
}

/// The value that a member list gives a key: that of the last member with
/// this key.
pub open spec fn field(members: Seq<(Seq<char>, JsonValue)>, key: Seq<char>) -> Option<JsonValue>
    decreases members.len(),
{
    if members.len() == 0 {
        None
    } else if members.last().0 == key {
        Some(members.last().1)
    } else {
        field(members.drop_last(), key)
    }
}

impl JsonValue {
    pub open spec fn get(self, key: Seq<char>) -> Option<JsonValue> {
        match self {
            JsonValue::Object(m) => field(m, key),
            _ => None,
        }
    }

    pub open spec fn as_str(self) -> Option<Seq<char>> {
        match self {
            JsonValue::String(s) => Some(s),
            _ => None,
        }
    }

    pub open spec fn as_bool(self) -> Option<bool> {
        match self {
            JsonValue::Bool(b) => Some(b),
            _ => None,
        }
    }

    pub open spec fn as_u64(self) -> Option<u64> {
        match self {
            JsonValue::Number(NumberValue::Int(n)) if 0 <= n <= u64::MAX => Some(n as u64),
            _ => None,
        }
    }

    pub open spec fn as_i64(self) -> Option<i64> {
        match self {
            JsonValue::Number(NumberValue::Int(n)) if i64::MIN <= n <= i64::MAX => Some(n as i64),
            _ => None,
        }
    }

    pub open spec fn as_array(self) -> Option<Seq<JsonValue>> {
        match self {
            JsonValue::Array(a) => Some(a),
            _ => None,
        }
    }

    pub open spec fn as_object(self) -> Option<Seq<(Seq<char>, JsonValue)>> {
        match self {
            JsonValue::Object(m) => Some(m),
            _ => None,
        }
    }

    /// The model of an integer.
    pub open spec fn integer(n: int) -> JsonValue {
        JsonValue::Number(NumberValue::Int(n))
    }
}

/// Each item's model stands at the item's index.
pub proof fn lemma_items_value(items: Seq<Json>)
    ensures
        items_value(items).len() == items.len(),
        forall|i: int| 0 <= i < items.len() ==> (#[trigger] items_value(items)[i]) == items[i]@,
    decreases items.len(),
{
    if items.len() > 0 {
        lemma_items_value(items.drop_last());
    }
}

/// Each member's model stands at the member's index.
pub proof fn lemma_members_value(members: Seq<(String, Json)>)
    ensures
        members_value(members).len() == members.len(),
        forall|i: int|
            0 <= i < members.len() ==> (#[trigger] members_value(members)[i]) == (
                members[i].0@,
                members[i].1@,
            ),
    decreases members.len(),
{
    if members.len() > 0 {
        lemma_members_value(members.drop_last());
    }
}

/// Two lists of items with the same models at each index have the same model.
pub proof fn lemma_items_value_eq(a: Seq<Json>, b: Seq<Json>)
    requires
        a.len() == b.len(),
        forall|i: int| 0 <= i < a.len() ==> a[i]@ == b[i]@,
    ensures
        items_value(a) == items_value(b),
{
    lemma_items_value(a);
    lemma_items_value(b);
    assert(items_value(a) =~= items_value(b));
}

/// Two lists of members with the same keys and models at each index have the
/// same model.
pub proof fn lemma_members_value_eq(a: Seq<(String, Json)>, b: Seq<(String, Json)>)
    requires
        a.len() == b.len(),
        forall|i: int| 0 <= i < a.len() ==> a[i].0@ == b[i].0@ && a[i].1@ == b[i].1@,
    ensures
        members_value(a) == members_value(b),
{
    lemma_members_value(a);
    lemma_members_value(b);
    assert(members_value(a) =~= members_value(b));
}

/// A lookup after one more member: the new member answers for its own key,
/// the earlier ones for every other key.
pub broadcast proof fn lemma_field_push(
    members: Seq<(Seq<char>, JsonValue)>,
    k: Seq<char>,
    v: JsonValue,
    key: Seq<char>,
)
    ensures
        #[trigger] field(members.push((k, v)), key) == if k == key {
            Some(v)
        } else {
            field(members, key)
        },
{
    assert(members.push((k, v)).drop_last() =~= members);
}

/// No key is found among no members.
pub broadcast proof fn lemma_field_empty(key: Seq<char>)
    ensures
        #[trigger] field(Seq::empty(), key) is None,
{
}

pub broadcast group group_field {
    lemma_field_push,
    lemma_field_empty,
}

impl Clone for Json {
    fn clone(&self) -> (r: Json)
        ensures
            r@ == self@,
        decreases self,
    {
        match self {
            Json::Null => Json::Null,
            Json::Bool(b) => Json::Bool(*b),
            Json::Number(n) => Json::Number(n.clone()),
            Json::String(s) => Json::String(s.clone()),
            Json::Array(v) => {
                let mut items: Vec<Json> = Vec::new();
                let mut i: usize = 0;
                while i < v.len()
                    invariant
                        *self == Json::Array(*v),
                        i <= v.len(),
                        items.len() == i,
                        forall|k: int| 0 <= k < i ==> items@[k]@ == v@[k]@,
                    decreases v.len() - i,
                {
                    assert(decreases_to!(*self => self->Array_0));
                    assert(decreases_to!(self->Array_0 => self->Array_0@));
                    assert(decreases_to!(self->Array_0@ => self->Array_0@[i as int]));
                    items.push(v[i].clone());
                    i = i + 1;
                }
                proof {
                    lemma_items_value_eq(items@, v@);
                }
                Json::Array(items)
            },
            Json::Object(v) => {
                let mut members: Vec<(String, Json)> = Vec::new();
                let mut i: usize = 0;
                while i < v.len()
                    invariant
                        *self == Json::Object(*v),
                        i <= v.len(),
                        members.len() == i,
                        forall|k: int|
                            0 <= k < i ==> members@[k].0@ == v@[k].0@ && members@[k].1@
                                == v@[k].1@,
                    decreases v.len() - i,
                {
                    assert(decreases_to!(*self => self->Object_0));
                    assert(decreases_to!(self->Object_0 => self->Object_0@));
                    assert(decreases_to!(self->Object_0@ => self->Object_0@[i as int]));
                    assert(decreases_to!(self->Object_0@[i as int] => self->Object_0@[i as int].1));
                    members.push((v[i].0.clone(), v[i].1.clone()));
                    i = i + 1;
                }
                proof {
                    lemma_members_value_eq(members@, v@);
                }
                Json::Object(members)
            },
        }
    }
}

/// Appends a member to a list of members.
pub fn push_member(members: &mut Vec<(String, Json)>, key: &str, value: Json)
    ensures
        members_value(final(members)@) == members_value(old(members)@).push((key@, value@)),
{
    members.push((crate::text::owned(key), value));
    assert(members@.drop_last() =~= old(members)@);
}

/// Appends an item to a list of items.
pub fn push_item(items: &mut Vec<Json>, value: Json)
    ensures
        items_value(final(items)@) == items_value(old(items)@).push(value@),
{
    items.push(value);
    assert(items@.drop_last() =~= old(items)@);
}

/// The value that a list of members gives a key.
pub fn lookup<'a>(members: &'a Vec<(String, Json)>, key: &str) -> (r: Option<&'a Json>)
    ensures
        match r {
            Some(j) => field(members_value(members@), key@) == Some(j@),
            None => field(members_value(members@), key@) is None,
        },
{
    let mut i: usize = members.len();
    proof {
        lemma_members_value(members@);
        assert(members_value(members@).take(i as int) == members_value(members@));
    }
    while i > 0
        invariant
            i <= members.len(),
            members_value(members@).len() == members@.len(),
            forall|k: int|
                0 <= k < members@.len() ==> (#[trigger] members_value(members@)[k]) == (
                    members@[k].0@,
                    members@[k].1@,
                ),
            field(members_value(members@), key@) == field(
                members_value(members@).take(i as int),
                key@,
            ),
        decreases i,
    {
        i = i - 1;
        assert(members_value(members@).take(i + 1).drop_last() == members_value(members@).take(
            i as int,
        ));
        assert(members_value(members@).take(i + 1).last() == members_value(members@)[i as int]);
        if str_eq(members[i].0.as_str(), key) {
            return Some(&members[i].1);
        }
    }
    None
}

/// A copy of a list of members.
pub fn clone_members(members: &Vec<(String, Json)>) -> (r: Vec<(String, Json)>)
    ensures
        members_value(r@) == members_value(members@),
{
    let mut out: Vec<(String, Json)> = Vec::new();
    let mut i: usize = 0;
    while i < members.len()
        invariant
            i <= members.len(),
            out.len() == i,
            forall|k: int|
                0 <= k < i ==> out@[k].0@ == members@[k].0@ && out@[k].1@ == members@[k].1@,
        decreases members.len() - i,
    {
        out.push((members[i].0.clone(), members[i].1.clone()));
        i = i + 1;
    }
    proof {
        lemma_members_value_eq(out@, members@);
    }
    out
}

impl Json {
    /// The JSON string with the characters of `s`.
    pub fn string(s: &str) -> (j: Json)
        ensures
            j@ == JsonValue::String(s@),
    {
        Json::String(crate::text::owned(s))
    }

    /// The JSON number `n`.
    pub fn unsigned(n: u64) -> (j: Json)
        ensures
            j@ == JsonValue::integer(n as int),
    {
        Json::Number(Number::PosInt(n))
    }

    /// The JSON number `n`.
    pub fn signed(n: i64) -> (j: Json)
        ensures
            j@ == JsonValue::integer(n as int),
    {
        Json::Number(Number::NegInt(n))
    }

    /// The value of the member `key`, if this is an object that has it.
    pub fn get(&self, key: &str) -> (r: Option<&Json>)
        ensures
            match r {
                Some(j) => self@.get(key@) == Some(j@),
                None => self@.get(key@) is None,
            },
    {
        match self {
            Json::Object(v) => lookup(v, key),
            _ => None,
        }
    }

    pub fn as_str(&self) -> (r: Option<&str>)
        ensures
            match r {
                Some(s) => self@.as_str() == Some(s@),
                None => self@.as_str() is None,
            },
    {
        match self {
            Json::String(s) => Some(s.as_str()),
            _ => None,
        }
    }

    pub fn as_bool(&self) -> (r: Option<bool>)
        ensures
            r == self@.as_bool(),
    {
        match self {
            Json::Bool(b) => Some(*b),
            _ => None,
        }
    }

    pub fn as_u64(&self) -> (r: Option<u64>)
        ensures
            r == self@.as_u64(),
    {
        match self {
            Json::Number(Number::PosInt(u)) => Some(*u),
            Json::Number(Number::NegInt(i)) => if *i >= 0 {
                Some(*i as u64)
            } else {
                None
            },
            _ => None,
        }
    }

    pub fn as_i64(&self) -> (r: Option<i64>)
        ensures
            r == self@.as_i64(),
    {
        match self {
            Json::Number(Number::PosInt(u)) => if *u <= 0x7fff_ffff_ffff_ffff {
                Some(*u as i64)
            } else {
                None
            },
            Json::Number(Number::NegInt(i)) => Some(*i),
            _ => None,
        }
    }

    /// The items, if this is an array.
    pub fn as_array(&self) -> (r: Option<&Vec<Json>>)
        ensures
            match r {
                Some(v) => self@.as_array() == Some(items_value(v@)),
                None => self@.as_array() is None,
            },
    {
        match self {
            Json::Array(v) => Some(v),
            _ => None,
        }
    }

    /// The members, if this is an object.
    pub fn as_object(&self) -> (r: Option<&Vec<(String, Json)>>)
        ensures
            match r {
                Some(v) => self@.as_object() == Some(members_value(v@)),
                None => self@.as_object() is None,
            },
    {
        match self {
            Json::Object(v) => Some(v),
            _ => None,
        }
    }

    pub fn is_null(&self) -> (r: bool)
        ensures
            r == (self@ is Null),
    {
        match self {
            Json::Null => true,
            _ => false,
        }
    }
}

impl JsonValue {
    /// The member `key` where it is there and not null.
    pub open spec fn present(self, key: Seq<char>) -> Option<JsonValue> {
        match self.get(key) {
            Some(JsonValue::Null) => None,
            other => other,
        }
    }

    pub open spec fn get_str(self, key: Seq<char>) -> Option<Seq<char>> {
        match self.get(key) {
            Some(v) => v.as_str(),
            None => None,
        }
    }

    pub open spec fn get_u64(self, key: Seq<char>) -> Option<u64> {
        match self.get(key) {
            Some(v) => v.as_u64(),
            None => None,
        }
    }

    pub open spec fn get_bool(self, key: Seq<char>) -> Option<bool> {
        match self.get(key) {
            Some(v) => v.as_bool(),
            None => None,
        }
    }
}

impl Json {
    /// The member `key` where it is there and not null.
    pub fn present(&self, key: &str) -> (r: Option<&Json>)
        ensures
            match r {
                Some(j) => self@.present(key@) == Some(j@),
                None => self@.present(key@) is None,
            },
    {
        match self.get(key) {
            Some(j) => if j.is_null() {
                None
            } else {
                Some(j)
            },
            None => None,
        }
    }

    pub fn get_str(&self, key: &str) -> (r: Option<&str>)
        ensures
            match r {
                Some(s) => self@.get_str(key@) == Some(s@),
                None => self@.get_str(key@) is None,
            },
    {
        match self.get(key) {
            Some(j) => j.as_str(),
            None => None,
        }
    }

    pub fn get_u64(&self, key: &str) -> (r: Option<u64>)
        ensures
            r == self@.get_u64(key@),
    {
        match self.get(key) {
            Some(j) => j.as_u64(),
            None => None,
        }
    }

    pub fn get_bool(&self, key: &str) -> (r: Option<bool>)
        ensures
            r == self@.get_bool(key@),
    {
        match self.get(key) {
            Some(j) => j.as_bool(),
            None => None,
        }
    }
}

/// `serde_json::Value`, carried through without a look inside.
#[verifier::external_type_specification]
#[verifier::external_body]
pub struct ExValue(serde_json::Value);

/// `serde_json::Error`, carried through without a look inside.
#[verifier::external_type_specification]
#[verifier::external_body]
pub struct ExError(serde_json::Error);

/// What `serde_json::from_str` reads from a text: the value, or nothing
/// where the text is not JSON.
pub uninterp spec fn json_parse(text: Seq<char>) -> Option<JsonValue>;

/// The text that `serde_json::to_string` writes for a value.
pub uninterp spec fn json_text(value: JsonValue) -> Seq<char>;

/// Turns a `serde_json::Value` into a `Json`, variant by variant; a number
/// is taken as `as_u64` gives it, else as `as_i64` gives it, else as the
/// text of its `Display`. Trusted; nothing is claimed of the result.
#[verifier::external_body]
fn from_value(v: serde_json::Value) -> Json {
    match v {
        Value::Null => Json::Null,
        Value::Bool(b) => Json::Bool(b),
        Value::Number(n) => Json::Number(
            match (n.as_u64(), n.as_i64()) {
                (Some(u), _) => Number::PosInt(u),
                (None, Some(i)) => Number::NegInt(i),
                (None, None) => Number::Float(n.to_string()),
            },
        ),
        Value::String(s) => Json::String(s),
        Value::Array(a) => Json::Array(a.into_iter().map(from_value).collect()),
        Value::Object(m) => Json::Object(m.into_iter().map(|(k, x)| (k, from_value(x))).collect()),
    }
}

/// Turns a `Json` into a `serde_json::Value`, variant by variant. Trusted;
/// nothing is claimed of the result.
#[verifier::external_body]
fn to_value(j: &Json) -> serde_json::Value {
    match j {
        Json::Null => Value::Null,
        Json::Bool(b) => Value::Bool(*b),
        Json::Number(n) => to_number(n),
        Json::String(s) => Value::String(s.clone()),
        Json::Array(a) => Value::Array(a.iter().map(to_value).collect()),
        Json::Object(m) => Value::Object(m.iter().map(|(k, x)| (k.clone(), to_value(x))).collect()),
    }
}

/// Turns a number into a `serde_json::Value`; a number kept as text is read
/// back by `serde_json::from_str`, and stands as null where the text is no
/// number. Trusted; nothing is claimed of the result.
#[verifier::external_body]
fn to_number(n: &Number) -> serde_json::Value {
    match n {
        Number::PosInt(u) => Value::from(*u),
        Number::NegInt(i) => Value::from(*i),
        Number::Float(t) => serde_json::from_str::<serde_json::Number>(t).map(Value::Number)
            .unwrap_or(Value::Null),
    }
}

/// Reads a text with `serde_json::from_str`. Trusted: the call succeeds
/// exactly on the texts that `json_parse` reads, and gives that value.
#[verifier::external_body]
fn read_text(text: &str) -> (r: Result<Json, serde_json::Error>)
    ensures
        match r {
            Ok(j) => json_parse(text@) == Some(j@),
            Err(_) => json_parse(text@) is None,
        },
{
    serde_json::from_str::<serde_json::Value>(text).map(from_value)
}

/// Writes a value with `serde_json::to_string`. Trusted: the result is the
/// text that `json_text` names.
#[verifier::external_body]
fn write_text(j: &Json) -> (r: String)
    ensures
        r@ == json_text(j@),
{
    serde_json::to_string(&to_value(j)).unwrap_or_default()
}

/// The message of a `serde_json::Error`, by its `Display`. Trusted; nothing
/// is claimed of the text.
#[verifier::external_body]
fn describe(e: &serde_json::Error) -> String {
    e.to_string()
}

impl Json {
    /// Reads a JSON text. A text that is not JSON is an invalid argument.
    pub fn parse(text: &str) -> (r: Result<Json, WebDriverError>)
        ensures
            match r {
                Ok(j) => json_parse(text@) == Some(j@),
                Err(e) => json_parse(text@) is None && e.status == ErrorStatus::InvalidArgument
                    && e.stacktrace is None,
            },
    {
        match read_text(text) {
            Ok(j) => Ok(j),
            Err(e) => Err(
                WebDriverError {
                    status: ErrorStatus::InvalidArgument,
                    message: describe(&e),
                    stacktrace: None,
                },
            ),
        }
    }

    /// The JSON text of this value.
    pub fn to_text(&self) -> (r: String)
        ensures
            r@ == json_text(self@),
    {
        write_text(self)
    }
}

} // verus!
