//! Values shared by parameters and responses.

use crate::error::WebDriverResult;
use crate::json::{group_field, push_member, Json, JsonValue, NumberValue};
use crate::protocol::codec::{invalid_argument, Codec};
use crate::text::{owned, str_eq};
use vstd::prelude::*;

verus! {

broadcast use group_field;

/// The key under which an element reference travels.
pub const ELEMENT_KEY: &'static str = "element-6066-11e4-a52e-4f735466cecf";

/// A point in time, in seconds since the Unix epoch.
#[derive(Clone, Copy, Debug, PartialEq, Eq, Structural)]
pub struct Date(pub u64);

impl View for Date {
    type V = Date;

    open spec fn view(&self) -> Date {
        *self
    }
}

impl Date {
    pub fn new(timestamp: u64) -> (d: Date)
        ensures
            d.0 == timestamp,
    {
        Date(timestamp)
    }
}

/// A date travels as its number of seconds.
impl Codec for Date {
    open spec fn encode(v: Date) -> JsonValue {
        JsonValue::integer(v.0 as int)
    }

    open spec fn decode(j: JsonValue) -> Option<Date> {
        match j.as_u64() {
            Some(n) => Some(Date(n)),
            None => None,
        }
    }

    fn to_json(&self) -> (j: Json) {
        Json::unsigned(self.0)
    }

    fn from_json(j: &Json) -> (r: WebDriverResult<Date>) {
        match j.as_u64() {
            Some(n) => Ok(Date(n)),
            None => Err(invalid_argument("Expected a time in seconds")),
        }
    }

    proof fn lemma_roundtrip(v: Date) {
    }
}

/// A reference to an element of the page; its id is opaque to the protocol.
#[derive(Clone, Debug, PartialEq)]
pub struct WebElement {
    pub id: String,
}

pub ghost struct WebElementView {
    pub id: Seq<char>,
}

impl View for WebElement {
    type V = WebElementView;

    open spec fn view(&self) -> WebElementView {
        WebElementView { id: self.id@ }
    }
}

impl WebElement {
    pub fn new(id: String) -> (e: WebElement)
        ensures
            e.id == id,
    {
        WebElement { id: id }
    }
}

impl From<String> for WebElement {
    fn from(data: String) -> (e: WebElement) {
        WebElement { id: data }
    }
}

impl vstd::std_specs::convert::FromSpecImpl<String> for WebElement {
    open spec fn obeys_from_spec() -> bool {
        true
    }

    open spec fn from_spec(data: String) -> WebElement {
        WebElement { id: data }
    }
}

impl From<&str> for WebElement {
    fn from(data: &str) -> (e: WebElement)
        ensures
            e@.id == data@,
    {
        WebElement::new(owned(data))
    }
}

impl vstd::std_specs::convert::FromSpecImpl<&str> for WebElement {
    /// The element is stated by its view, in the `ensures` of `from`.
    open spec fn obeys_from_spec() -> bool {
        false
    }

    open spec fn from_spec(data: &str) -> WebElement {
        arbitrary()
    }
}

/// An element reference travels as the object whose one member, under
/// `ELEMENT_KEY`, is the id.
impl Codec for WebElement {
    open spec fn encode(v: WebElementView) -> JsonValue {
        JsonValue::Object(seq![(ELEMENT_KEY@, JsonValue::String(v.id))])
    }

    open spec fn decode(j: JsonValue) -> Option<WebElementView> {
        match j.get_str(ELEMENT_KEY@) {
            Some(id) => Some(WebElementView { id }),
            None => None,
        }
    }

    fn to_json(&self) -> (j: Json) {
        let mut members: Vec<(String, Json)> = Vec::new();
        push_member(&mut members, ELEMENT_KEY, Json::string(self.id.as_str()));
        Json::Object(members)
    }

    fn from_json(j: &Json) -> (r: WebDriverResult<WebElement>) {
        match j.get_str(ELEMENT_KEY) {
            Some(id) => Ok(WebElement { id: owned(id) }),
            None => Err(invalid_argument("Expected an element reference")),
        }
    }

    proof fn lemma_roundtrip(v: WebElementView) {
    }
}

/// The frame that a command switches to.
#[derive(Clone, Debug, PartialEq)]
pub enum FrameId {
    Short(u16),
    Element(WebElement),
    Null,
}

pub ghost enum FrameIdView {
    Short(u16),
    Element(WebElementView),
    Null,
}

impl View for FrameId {
    type V = FrameIdView;

    open spec fn view(&self) -> FrameIdView {
        match self {
            FrameId::Short(n) => FrameIdView::Short(*n),
            FrameId::Element(e) => FrameIdView::Element(e@),
            FrameId::Null => FrameIdView::Null,
        }
    }
}

/// A frame id travels as an integer, an element reference, or null.
impl Codec for FrameId {
    open spec fn encode(v: FrameIdView) -> JsonValue {
        match v {
            FrameIdView::Short(n) => JsonValue::integer(n as int),
            FrameIdView::Element(e) => WebElement::encode(e),
            FrameIdView::Null => JsonValue::Null,
        }
    }

    open spec fn decode(j: JsonValue) -> Option<FrameIdView> {
        match j {
            JsonValue::Null => Some(FrameIdView::Null),
            JsonValue::Number(NumberValue::Int(n)) => if 0 <= n <= u16::MAX {
                Some(FrameIdView::Short(n as u16))
            } else {
                None
            },
            JsonValue::Object(_) => match WebElement::decode(j) {
                Some(e) => Some(FrameIdView::Element(e)),
                None => None,
            },
            _ => None,
        }
    }

    fn to_json(&self) -> (j: Json) {
        match self {
            FrameId::Short(n) => Json::unsigned(*n as u64),
            FrameId::Element(e) => e.to_json(),
            FrameId::Null => Json::Null,
        }
    }

    fn from_json(j: &Json) -> (r: WebDriverResult<FrameId>) {
        match j {
            Json::Null => Ok(FrameId::Null),
            Json::Number(_) => match j.as_u64() {
                Some(n) => if n <= 0xffff {
                    Ok(FrameId::Short(n as u16))
                } else {
                    Err(invalid_argument("Frame index out of range"))
                },
                None => Err(invalid_argument("Frame index out of range")),
            },
            Json::Object(_) => match WebElement::from_json(j) {
                Ok(e) => Ok(FrameId::Element(e)),
                Err(e) => Err(e),
            },
            _ => Err(invalid_argument("Expected a frame index, an element or null")),
        }
    }

    proof fn lemma_roundtrip(v: FrameIdView) {
        if let FrameIdView::Element(e) = v {
            WebElement::lemma_roundtrip(e);
        }
    }
}

/// How a locator's value is to be read.
#[derive(Clone, Copy, Debug, PartialEq, Eq, Structural)]
pub enum LocatorStrategy {
    CSSSelector,
    LinkText,
    PartialLinkText,
    XPath,
}

impl View for LocatorStrategy {
    type V = LocatorStrategy;

    open spec fn view(&self) -> LocatorStrategy {
        *self
    }
}

impl LocatorStrategy {
    /// The string that names this strategy on the wire.
    pub open spec fn wire(self) -> Seq<char> {
        match self {
            LocatorStrategy::CSSSelector => "css selector"@,
            LocatorStrategy::LinkText => "link text"@,
            LocatorStrategy::PartialLinkText => "partial link text"@,
            LocatorStrategy::XPath => "xpath"@,
        }
    }

    /// The strategy that a wire string names.
    pub open spec fn from_wire(s: Seq<char>) -> Option<LocatorStrategy> {
        if s == "css selector"@ {
            Some(LocatorStrategy::CSSSelector)
        } else if s == "link text"@ {
            Some(LocatorStrategy::LinkText)
        } else if s == "partial link text"@ {
            Some(LocatorStrategy::PartialLinkText)
        } else if s == "xpath"@ {
            Some(LocatorStrategy::XPath)
        } else {
            None
        }
    }

    pub fn as_str(&self) -> (r: &'static str)
        ensures
            r@ == self.wire(),
    {
        match self {
            LocatorStrategy::CSSSelector => "css selector",
            LocatorStrategy::LinkText => "link text",
            LocatorStrategy::PartialLinkText => "partial link text",
            LocatorStrategy::XPath => "xpath",
        }
    }

    pub fn parse(s: &str) -> (r: Option<LocatorStrategy>)
        ensures
            r == Self::from_wire(s@),
    {
        if str_eq(s, "css selector") {
            Some(LocatorStrategy::CSSSelector)
        } else if str_eq(s, "link text") {
            Some(LocatorStrategy::LinkText)
        } else if str_eq(s, "partial link text") {
            Some(LocatorStrategy::PartialLinkText)
        } else if str_eq(s, "xpath") {
            Some(LocatorStrategy::XPath)
        } else {
            None
        }
    }
}

/// A strategy travels as its wire string.
impl Codec for LocatorStrategy {
    open spec fn encode(v: LocatorStrategy) -> JsonValue {
        JsonValue::String(v.wire())
    }

    open spec fn decode(j: JsonValue) -> Option<LocatorStrategy> {
        match j.as_str() {
            Some(s) => Self::from_wire(s),
            None => None,
        }
    }

    fn to_json(&self) -> (j: Json) {
        Json::string(self.as_str())
    }

    fn from_json(j: &Json) -> (r: WebDriverResult<LocatorStrategy>) {
        match j.as_str() {
            Some(s) => match LocatorStrategy::parse(s) {
                Some(strategy) => Ok(strategy),
                None => Err(invalid_argument("Unknown locator strategy")),
            },
            None => Err(invalid_argument("Expected a locator strategy")),
        }
    }

    proof fn lemma_roundtrip(v: LocatorStrategy) {
        reveal_strlit("css selector");
        reveal_strlit("link text");
        reveal_strlit("partial link text");
        reveal_strlit("xpath");
        assert("css selector"@.len() == 12);
        assert("link text"@.len() == 9);
        assert("partial link text"@.len() == 17);
        assert("xpath"@.len() == 5);
    }
}

/// A value that may be null on the wire.
#[derive(Clone, Debug, PartialEq)]
pub enum Nullable<T> {
    Value(T),
    Null,
}

impl<T> Nullable<T> {
    pub fn is_null(&self) -> (r: bool)
        ensures
            r == (self is Null),
    {
        match self {
            Nullable::Value(_) => false,
            Nullable::Null => true,
        }
    }

    pub fn is_value(&self) -> (r: bool)
        ensures
            r == (self is Value),
    {
        match self {
            Nullable::Value(_) => true,
            Nullable::Null => false,
        }
    }

    /// Applies `f` to the value, if there is one.
    pub fn map<F, U>(self, f: F) -> (r: Nullable<U>) where F: FnOnce(T) -> U
        requires
            self matches Nullable::Value(v) ==> f.requires((v,)),
        ensures
            match self {
                Nullable::Value(v) => r matches Nullable::Value(u) && f.ensures((v,), u),
                Nullable::Null => r is Null,
            },
    {
        match self {
            Nullable::Value(v) => Nullable::Value(f(v)),
            Nullable::Null => Nullable::Null,
        }
    }

    pub fn into_option(self) -> (r: Option<T>)
        ensures
            match self {
                Nullable::Value(v) => r == Some(v),
                Nullable::Null => r is None,
            },
    {
        match self {
            Nullable::Value(v) => Some(v),
            Nullable::Null => None,
        }
    }
}

impl<T> From<Nullable<T>> for Option<T> {
    fn from(v: Nullable<T>) -> (r: Option<T>) {
        v.into_option()
    }
}

impl<T> vstd::std_specs::convert::FromSpecImpl<Nullable<T>> for Option<T> {
    open spec fn obeys_from_spec() -> bool {
        true
    }

    open spec fn from_spec(v: Nullable<T>) -> Option<T> {
        match v {
            Nullable::Value(t) => Some(t),
            Nullable::Null => None,
        }
    }
}

} // verus!
