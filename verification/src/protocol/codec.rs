//! The JSON encoding of protocol values: what each type writes, what it
//! reads, and that reading what was written gives the value back.

use crate::error::{ErrorStatus, WebDriverError, WebDriverResult};
use crate::json::{
    items_value, lemma_items_value, members_value, push_item, push_member, Json, JsonValue,
    Number, NumberValue,
};
use crate::text::owned;
use vstd::prelude::*;

verus! {

/// Whether a decoder's result is the one that the model asks for: the
/// decoded value where the model has one, else an invalid argument.
pub open spec fn decoded<T: View>(r: Result<T, WebDriverError>, expected: Option<T::V>) -> bool {
    match r {
        Ok(p) => expected == Some(p@),
        Err(e) => expected is None && e.status == ErrorStatus::InvalidArgument,
    }
}

/// An invalid argument with the given message.
pub fn invalid_argument(message: &str) -> (e: WebDriverError)
    ensures
        e.status == ErrorStatus::InvalidArgument,
        e.message@ == message@,
        e.stacktrace is None,
{
    WebDriverError::new(ErrorStatus::InvalidArgument, message)
}

/// A type with a JSON form.
pub trait Codec: View + Sized {
    /// The JSON value that carries a value of this type.
    spec fn encode(v: Self::V) -> JsonValue;

    /// The value that a JSON value carries, if it carries one.
    spec fn decode(j: JsonValue) -> Option<Self::V>;

    fn to_json(&self) -> (j: Json)
        ensures
            j@ == Self::encode(self@),
    ;

    fn from_json(j: &Json) -> (r: WebDriverResult<Self>)
        ensures
            decoded(r, Self::decode(j@)),
    ;

    /// Decoding what was encoded gives the value back.
    proof fn lemma_roundtrip(v: Self::V)
        ensures
            Self::decode(Self::encode(v)) == Some(v),
    ;
}

/// The models of a sequence of values.
pub open spec fn views<T: View>(s: Seq<T>) -> Seq<T::V> {
    s.map_values(|t: T| t@)
}

/// The model of an optional value.
pub open spec fn opt_view<T: View>(o: Option<T>) -> Option<T::V> {
    match o {
        Some(t) => Some(t@),
        None => None,
    }
}

/// The array of the encoded items.
pub open spec fn encode_all<T: Codec>(s: Seq<T::V>) -> JsonValue {
    JsonValue::Array(Seq::new(s.len(), |i: int| T::encode(s[i])))
}

/// The items of an array, where every one of them decodes.
pub open spec fn decode_all<T: Codec>(j: JsonValue) -> Option<Seq<T::V>> {
    match j {
        JsonValue::Array(a) => if forall|i: int| 0 <= i < a.len() ==> T::decode(a[i]) is Some {
            Some(Seq::new(a.len(), |i: int| T::decode(a[i])->0))
        } else {
            None
        },
        _ => None,
    }
}

/// An optional value as its own encoding, or null.
pub open spec fn encode_nullable<T: Codec>(v: Option<T::V>) -> JsonValue {
    match v {
        Some(x) => T::encode(x),
        None => JsonValue::Null,
    }
}

/// The models of an optional sequence of values.
pub open spec fn opt_views<T: View>(o: Option<Vec<T>>) -> Option<Seq<T::V>> {
    match o {
        Some(v) => Some(views(v@)),
        None => None,
    }
}

/// An optional sequence as the array of its items, or null.
pub open spec fn encode_nullable_all<T: Codec>(v: Option<Seq<T::V>>) -> JsonValue {
    match v {
        Some(s) => encode_all::<T>(s),
        None => JsonValue::Null,
    }
}

/// The items of the array under `key`, each decoded, where the member is
/// there and not null; no sequence where it is missing or null.
pub open spec fn optional_all<T: Codec>(j: JsonValue, key: Seq<char>) -> Option<
    Option<Seq<T::V>>,
> {
    match j.present(key) {
        Some(v) => match decode_all::<T>(v) {
            Some(s) => Some(Some(s)),
            None => None,
        },
        None => Some(None),
    }
}

/// The members `m`, and after them the member `key` where there is a value.
pub open spec fn push_present<T: Codec>(
    m: Seq<(Seq<char>, JsonValue)>,
    key: Seq<char>,
    v: Option<T::V>,
) -> Seq<(Seq<char>, JsonValue)> {
    match v {
        Some(x) => m.push((key, T::encode(x))),
        None => m,
    }
}

/// An object with one more member, `"type"`, that holds `tag`.
pub open spec fn tagged(j: JsonValue, tag: Seq<char>) -> JsonValue {
    match j {
        JsonValue::Object(m) => JsonValue::Object(m.push(("type"@, JsonValue::String(tag)))),
        other => other,
    }
}

/// The member `key`, decoded; nothing where it is missing or does not decode.
pub open spec fn required<T: Codec>(j: JsonValue, key: Seq<char>) -> Option<T::V> {
    match j.get(key) {
        Some(v) => T::decode(v),
        None => None,
    }
}

/// The member `key`, decoded, where it is there and not null; no value
/// where it is missing or null; nothing where it is there and does not decode.
pub open spec fn optional<T: Codec>(j: JsonValue, key: Seq<char>) -> Option<Option<T::V>> {
    match j.present(key) {
        Some(v) => match T::decode(v) {
            Some(t) => Some(Some(t)),
            None => None,
        },
        None => Some(None),
    }
}

/// The items of the array under `key`, each decoded.
pub open spec fn required_all<T: Codec>(j: JsonValue, key: Seq<char>) -> Option<Seq<T::V>> {
    match j.get(key) {
        Some(v) => decode_all::<T>(v),
        None => None,
    }
}

/// Decoding an encoded sequence gives the sequence back.
pub proof fn lemma_roundtrip_all<T: Codec>(s: Seq<T::V>)
    ensures
        decode_all::<T>(encode_all::<T>(s)) == Some(s),
{
    let a = encode_all::<T>(s)->Array_0;
    assert forall|i: int| 0 <= i < a.len() implies T::decode(a[i]) == Some(s[i]) by {
        T::lemma_roundtrip(s[i]);
    }
    assert(decode_all::<T>(encode_all::<T>(s))->0 =~= s);
}

pub fn items_to_json<T: Codec>(v: &Vec<T>) -> (j: Json)
    ensures
        j@ == encode_all::<T>(views(v@)),
{
    let mut items: Vec<Json> = Vec::new();
    let mut i: usize = 0;
    while i < v.len()
        invariant
            i <= v.len(),
            items_value(items@).len() == i,
            forall|k: int| 0 <= k < i ==> (#[trigger] items_value(items@)[k]) == T::encode(v@[k]@),
        decreases v.len() - i,
    {
        push_item(&mut items, v[i].to_json());
        i = i + 1;
    }
    assert(items_value(items@) =~= encode_all::<T>(views(v@))->Array_0);
    Json::Array(items)
}

pub fn items_from_json<T: Codec>(j: &Json) -> (r: WebDriverResult<Vec<T>>)
    ensures
        match r {
            Ok(v) => decode_all::<T>(j@) == Some(views(v@)),
            Err(e) => decode_all::<T>(j@) is None && e.status == ErrorStatus::InvalidArgument,
        },
{
    match j.as_array() {
        Some(items) => {
            let mut out: Vec<T> = Vec::new();
            let mut i: usize = 0;
            proof {
                lemma_items_value(items@);
            }
            while i < items.len()
                invariant
                    i <= items.len(),
                    out.len() == i,
                    j@ == JsonValue::Array(items_value(items@)),
                    items_value(items@).len() == items.len(),
                    forall|k: int|
                        0 <= k < items.len() ==> (#[trigger] items_value(items@)[k]) == items@[k]@,
                    forall|k: int| 0 <= k < i ==> T::decode(items@[k]@) == Some(out@[k]@),
                decreases items.len() - i,
            {
                match T::from_json(&items[i]) {
                    Ok(t) => {
                        out.push(t);
                    },
                    Err(e) => {
                        assert(T::decode(items_value(items@)[i as int]) is None);
                        return Err(e);
                    },
                }
                i = i + 1;
            }
            assert forall|k: int| 0 <= k < items.len() implies T::decode(
                items_value(items@)[k],
            ) is Some by {
                assert(T::decode(items@[k]@) == Some(out@[k]@));
            }
            assert(decode_all::<T>(j@)->0 =~= views(out@));
            Ok(out)
        },
        None => Err(invalid_argument("Expected an array")),
    }
}

pub fn nullable_to_json<T: Codec>(o: &Option<T>) -> (j: Json)
    ensures
        j@ == encode_nullable::<T>(opt_view(*o)),
{
    match o {
        Some(t) => t.to_json(),
        None => Json::Null,
    }
}

pub fn nullable_items_to_json<T: Codec>(o: &Option<Vec<T>>) -> (j: Json)
    ensures
        j@ == encode_nullable_all::<T>(opt_views(*o)),
{
    match o {
        Some(v) => items_to_json::<T>(v),
        None => Json::Null,
    }
}

/// Decodes the array under `key` where the member is there and not null.
pub fn decode_optional_all<T: Codec>(j: &Json, key: &str) -> (r: WebDriverResult<Option<Vec<T>>>)
    ensures
        match r {
            Ok(o) => optional_all::<T>(j@, key@) == Some(opt_views(o)),
            Err(e) => optional_all::<T>(j@, key@) is None && e.status
                == ErrorStatus::InvalidArgument,
        },
{
    match j.present(key) {
        Some(v) => match items_from_json::<T>(v) {
            Ok(items) => Ok(Some(items)),
            Err(e) => Err(e),
        },
        None => Ok(None),
    }
}

/// Appends the member `key` where there is a value.
pub fn push_present_member<T: Codec>(
    members: &mut Vec<(String, Json)>,
    key: &str,
    value: &Option<T>,
)
    ensures
        members_value(final(members)@) == push_present::<T>(
            members_value(old(members)@),
            key@,
            opt_view(*value),
        ),
{
    match value {
        Some(t) => {
            push_member(members, key, t.to_json());
        },
        None => {},
    }
}

/// Adds the member `"type"` to an object.
pub fn with_type(j: Json, tag: &str) -> (r: Json)
    ensures
        r@ == tagged(j@, tag@),
{
    match j {
        Json::Object(members) => {
            let mut members = members;
            push_member(&mut members, "type", Json::string(tag));
            Json::Object(members)
        },
        other => other,
    }
}

/// Decodes the member `key`, which has to be there.
pub fn decode_required<T: Codec>(j: &Json, key: &str) -> (r: WebDriverResult<T>)
    ensures
        decoded(r, required::<T>(j@, key@)),
{
    match j.get(key) {
        Some(v) => T::from_json(v),
        None => Err(invalid_argument("A required member is missing")),
    }
}

/// Decodes the member `key` where it is there and not null.
pub fn decode_optional<T: Codec>(j: &Json, key: &str) -> (r: WebDriverResult<Option<T>>)
    ensures
        match r {
            Ok(o) => optional::<T>(j@, key@) == Some(opt_view(o)),
            Err(e) => optional::<T>(j@, key@) is None && e.status == ErrorStatus::InvalidArgument,
        },
{
    match j.present(key) {
        Some(v) => match T::from_json(v) {
            Ok(t) => Ok(Some(t)),
            Err(e) => Err(e),
        },
        None => Ok(None),
    }
}

/// Decodes the array under `key`, which has to be there.
pub fn decode_required_all<T: Codec>(j: &Json, key: &str) -> (r: WebDriverResult<Vec<T>>)
    ensures
        match r {
            Ok(v) => required_all::<T>(j@, key@) == Some(views(v@)),
            Err(e) => required_all::<T>(j@, key@) is None && e.status
                == ErrorStatus::InvalidArgument,
        },
{
    match j.get(key) {
        Some(v) => items_from_json::<T>(v),
        None => Err(invalid_argument("A required member is missing")),
    }
}

impl Codec for u64 {
    open spec fn encode(v: u64) -> JsonValue {
        JsonValue::integer(v as int)
    }

    open spec fn decode(j: JsonValue) -> Option<u64> {
        j.as_u64()
    }

    fn to_json(&self) -> (j: Json) {
        Json::unsigned(*self)
    }

    fn from_json(j: &Json) -> (r: WebDriverResult<u64>) {
        match j.as_u64() {
            Some(n) => Ok(n),
            None => Err(invalid_argument("Expected a non-negative integer")),
        }
    }

    proof fn lemma_roundtrip(v: u64) {
    }
}

impl Codec for i64 {
    open spec fn encode(v: i64) -> JsonValue {
        JsonValue::integer(v as int)
    }

    open spec fn decode(j: JsonValue) -> Option<i64> {
        j.as_i64()
    }

    fn to_json(&self) -> (j: Json) {
        Json::signed(*self)
    }

    fn from_json(j: &Json) -> (r: WebDriverResult<i64>) {
        match j.as_i64() {
            Some(n) => Ok(n),
            None => Err(invalid_argument("Expected an integer")),
        }
    }

    proof fn lemma_roundtrip(v: i64) {
    }
}

impl Codec for bool {
    open spec fn encode(v: bool) -> JsonValue {
        JsonValue::Bool(v)
    }

    open spec fn decode(j: JsonValue) -> Option<bool> {
        j.as_bool()
    }

    fn to_json(&self) -> (j: Json) {
        Json::Bool(*self)
    }

    fn from_json(j: &Json) -> (r: WebDriverResult<bool>) {
        match j.as_bool() {
            Some(b) => Ok(b),
            None => Err(invalid_argument("Expected a boolean")),
        }
    }

    proof fn lemma_roundtrip(v: bool) {
    }
}

impl Codec for String {
    open spec fn encode(v: Seq<char>) -> JsonValue {
        JsonValue::String(v)
    }

    open spec fn decode(j: JsonValue) -> Option<Seq<char>> {
        j.as_str()
    }

    fn to_json(&self) -> (j: Json) {
        Json::string(self.as_str())
    }

    fn from_json(j: &Json) -> (r: WebDriverResult<String>) {
        match j.as_str() {
            Some(s) => Ok(owned(s)),
            None => Err(invalid_argument("Expected a string")),
        }
    }

    proof fn lemma_roundtrip(v: Seq<char>) {
    }
}

/// A character travels as the string that holds it alone.
impl Codec for char {
    open spec fn encode(v: char) -> JsonValue {
        JsonValue::String(seq![v])
    }

    open spec fn decode(j: JsonValue) -> Option<char> {
        match j {
            JsonValue::String(s) => if s.len() == 1 {
                Some(s[0])
            } else {
                None
            },
            _ => None,
        }
    }

    fn to_json(&self) -> (j: Json) {
        let mut s = String::new();
        crate::text::push_char(&mut s, *self);
        assert(s@ =~= seq![*self]);
        Json::String(s)
    }

    fn from_json(j: &Json) -> (r: WebDriverResult<char>) {
        match j.as_str() {
            Some(s) => if s.unicode_len() == 1 {
                Ok(s.get_char(0))
            } else {
                Err(invalid_argument("Expected a single character"))
            },
            None => Err(invalid_argument("Expected a single character")),
        }
    }

    proof fn lemma_roundtrip(v: char) {
    }
}

/// Any JSON number.
impl Codec for Number {
    open spec fn encode(v: NumberValue) -> JsonValue {
        JsonValue::Number(v)
    }

    open spec fn decode(j: JsonValue) -> Option<NumberValue> {
        match j {
            JsonValue::Number(n) => Some(n),
            _ => None,
        }
    }

    fn to_json(&self) -> (j: Json) {
        Json::Number(self.clone())
    }

    fn from_json(j: &Json) -> (r: WebDriverResult<Number>) {
        match j {
            Json::Number(n) => Ok(n.clone()),
            _ => Err(invalid_argument("Expected a number")),
        }
    }

    proof fn lemma_roundtrip(v: NumberValue) {
    }
}

/// Any JSON value, as itself.
impl Codec for Json {
    open spec fn encode(v: JsonValue) -> JsonValue {
        v
    }

    open spec fn decode(j: JsonValue) -> Option<JsonValue> {
        Some(j)
    }

    fn to_json(&self) -> (j: Json) {
        self.clone()
    }

    fn from_json(j: &Json) -> (r: WebDriverResult<Json>) {
        Ok(j.clone())
    }

    proof fn lemma_roundtrip(v: JsonValue) {
    }
}

} // verus!
