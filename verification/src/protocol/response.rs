//! What a command answers, and the JSON object that carries the answer.

use crate::error::WebDriverResult;
use crate::json::{group_field, json_text, push_member, Json, JsonValue, Number, NumberValue};
use crate::protocol::codec::{
    decode_optional, decode_required, decode_required_all, encode_all, items_to_json,
    lemma_roundtrip_all, opt_view, optional, push_present, push_present_member, required,
    required_all, views, Codec,
};
use crate::protocol::common::Date;
use crate::protocol::parameters::lemma_cookie_keys;
use vstd::prelude::*;

verus! {

broadcast use group_field;

/// The answer to a command.
#[derive(Clone, Debug, PartialEq)]
pub struct Response {
    pub value: ResponseValue,
}

pub ghost struct ResponseView {
    pub value: ResponseValueView,
}

impl View for Response {
    type V = ResponseView;

    open spec fn view(&self) -> ResponseView {
        ResponseView { value: self.value@ }
    }
}

/// The answers that there are.
#[derive(Clone, Debug, PartialEq)]
pub enum ResponseValue {
    Generic(Json),
    NewSession(NewSessionResponse),
    DeleteSession,
    WindowSize(WindowSizeResponse),
    WindowPosition(WindowPositionResponse),
    ElementRect(ElementRectResponse),
    Cookie(CookieResponse),
}

pub ghost enum ResponseValueView {
    Generic(JsonValue),
    NewSession(NewSessionResponseView),
    DeleteSession,
    WindowSize(WindowSizeResponse),
    WindowPosition(WindowPositionResponse),
    ElementRect(ElementRectResponseView),
    Cookie(CookieResponseView),
}

impl View for ResponseValue {
    type V = ResponseValueView;

    open spec fn view(&self) -> ResponseValueView {
        match self {
            ResponseValue::Generic(j) => ResponseValueView::Generic(j@),
            ResponseValue::NewSession(r) => ResponseValueView::NewSession(r@),
            ResponseValue::DeleteSession => ResponseValueView::DeleteSession,
            ResponseValue::WindowSize(r) => ResponseValueView::WindowSize(*r),
            ResponseValue::WindowPosition(r) => ResponseValueView::WindowPosition(*r),
            ResponseValue::ElementRect(r) => ResponseValueView::ElementRect(r@),
            ResponseValue::Cookie(r) => ResponseValueView::Cookie(r@),
        }
    }
}

impl ResponseValueView {
    /// A generic answer is its own value; the end of a session is the
    /// object without members; every other answer is its record's object.
    pub open spec fn encode(self) -> JsonValue {
        match self {
            ResponseValueView::Generic(j) => j,
            ResponseValueView::NewSession(r) => NewSessionResponse::encode(r),
            ResponseValueView::DeleteSession => JsonValue::Object(Seq::empty()),
            ResponseValueView::WindowSize(r) => WindowSizeResponse::encode(r),
            ResponseValueView::WindowPosition(r) => WindowPositionResponse::encode(r),
            ResponseValueView::ElementRect(r) => ElementRectResponse::encode(r),
            ResponseValueView::Cookie(r) => CookieResponse::encode(r),
        }
    }
}

impl ResponseView {
    /// The answer under `"value"`.
    pub open spec fn encode(self) -> JsonValue {
        JsonValue::Object(seq![("value"@, self.value.encode())])
    }
}

impl ResponseValue {
    pub fn to_json(&self) -> (j: Json)
        ensures
            j@ == self@.encode(),
    {
        match self {
            ResponseValue::Generic(j) => j.clone(),
            ResponseValue::NewSession(r) => r.to_json(),
            ResponseValue::DeleteSession => Json::Object(Vec::new()),
            ResponseValue::WindowSize(r) => r.to_json(),
            ResponseValue::WindowPosition(r) => r.to_json(),
            ResponseValue::ElementRect(r) => r.to_json(),
            ResponseValue::Cookie(r) => r.to_json(),
        }
    }
}

impl Response {
    pub fn new(value: ResponseValue) -> (r: Response)
        ensures
            r.value == value,
    {
        Response { value }
    }

    pub fn to_json(&self) -> (j: Json)
        ensures
            j@ == self@.encode(),
    {
        let mut members: Vec<(String, Json)> = Vec::new();
        push_member(&mut members, "value", self.value.to_json());
        Json::Object(members)
    }

    /// The text of the answer's JSON object.
    pub fn to_json_string(self) -> (s: String)
        ensures
            s@ == json_text(self@.encode()),
    {
        self.to_json().to_text()
    }
}

/// The session that was made, and what it can do.
#[derive(Clone, Debug, PartialEq)]
pub struct NewSessionResponse {
    pub sessionId: String,
    pub value: Json,
}

pub ghost struct NewSessionResponseView {
    pub sessionId: Seq<char>,
    pub value: JsonValue,
}

impl View for NewSessionResponse {
    type V = NewSessionResponseView;

    open spec fn view(&self) -> NewSessionResponseView {
        NewSessionResponseView { sessionId: self.sessionId@, value: self.value@ }
    }
}

impl NewSessionResponse {
    pub fn new(session_id: String, value: Json) -> (r: NewSessionResponse)
        ensures
            r.sessionId == session_id,
            r.value == value,
    {
        NewSessionResponse { value: value, sessionId: session_id }
    }
}

impl Codec for NewSessionResponse {
    open spec fn encode(v: NewSessionResponseView) -> JsonValue {
        JsonValue::Object(
            Seq::empty().push(("sessionId"@, String::encode(v.sessionId))).push(
                ("value"@, Json::encode(v.value)),
            ),
        )
    }

    open spec fn decode(j: JsonValue) -> Option<NewSessionResponseView> {
        match (required::<String>(j, "sessionId"@), required::<Json>(j, "value"@)) {
            (Some(sessionId), Some(value)) => Some(NewSessionResponseView { sessionId, value }),
            _ => None,
        }
    }

    fn to_json(&self) -> (j: Json) {
        let mut members: Vec<(String, Json)> = Vec::new();
        push_member(&mut members, "sessionId", self.sessionId.to_json());
        push_member(&mut members, "value", self.value.to_json());
        Json::Object(members)
    }

    fn from_json(j: &Json) -> (r: WebDriverResult<NewSessionResponse>) {
        let sessionId = decode_required::<String>(j, "sessionId")?;
        let value = decode_required::<Json>(j, "value")?;
        Ok(NewSessionResponse { sessionId, value })
    }

    proof fn lemma_roundtrip(v: NewSessionResponseView) {
        reveal_strlit("sessionId");
        reveal_strlit("value");
        assert("sessionId"@.len() == 9);
        assert("value"@.len() == 5);
    }
}

/// The size of the window.
#[derive(Clone, Copy, Debug, PartialEq, Eq, Structural)]
pub struct WindowSizeResponse {
    pub width: u64,
    pub height: u64,
}

impl View for WindowSizeResponse {
    type V = WindowSizeResponse;

    open spec fn view(&self) -> WindowSizeResponse {
        *self
    }
}

impl WindowSizeResponse {
    pub fn new(width: u64, height: u64) -> (r: WindowSizeResponse)
        ensures
            r == (WindowSizeResponse { width, height }),
    {
        WindowSizeResponse { width: width, height: height }
    }
}

impl Codec for WindowSizeResponse {
    open spec fn encode(v: WindowSizeResponse) -> JsonValue {
        JsonValue::Object(
            Seq::empty().push(("width"@, u64::encode(v.width))).push(
                ("height"@, u64::encode(v.height)),
            ),
        )
    }

    open spec fn decode(j: JsonValue) -> Option<WindowSizeResponse> {
        match (required::<u64>(j, "width"@), required::<u64>(j, "height"@)) {
            (Some(width), Some(height)) => Some(WindowSizeResponse { width, height }),
            _ => None,
        }
    }

    fn to_json(&self) -> (j: Json) {
        let mut members: Vec<(String, Json)> = Vec::new();
        push_member(&mut members, "width", self.width.to_json());
        push_member(&mut members, "height", self.height.to_json());
        Json::Object(members)
    }

    fn from_json(j: &Json) -> (r: WebDriverResult<WindowSizeResponse>) {
        let width = decode_required::<u64>(j, "width")?;
        let height = decode_required::<u64>(j, "height")?;
        Ok(WindowSizeResponse { width, height })
    }

    proof fn lemma_roundtrip(v: WindowSizeResponse) {
        reveal_strlit("width");
        reveal_strlit("height");
        assert("width"@.len() == 5);
        assert("height"@.len() == 6);
    }
}

/// The position of the window.
#[derive(Clone, Copy, Debug, PartialEq, Eq, Structural)]
pub struct WindowPositionResponse {
    pub x: u64,
    pub y: u64,
}

impl View for WindowPositionResponse {
    type V = WindowPositionResponse;

    open spec fn view(&self) -> WindowPositionResponse {
        *self
    }
}

impl WindowPositionResponse {
    pub fn new(x: u64, y: u64) -> (r: WindowPositionResponse)
        ensures
            r == (WindowPositionResponse { x, y }),
    {
        WindowPositionResponse { x: x, y: y }
    }
}

impl Codec for WindowPositionResponse {
    open spec fn encode(v: WindowPositionResponse) -> JsonValue {
        JsonValue::Object(
            Seq::empty().push(("x"@, u64::encode(v.x))).push(("y"@, u64::encode(v.y))),
        )
    }

    open spec fn decode(j: JsonValue) -> Option<WindowPositionResponse> {
        match (required::<u64>(j, "x"@), required::<u64>(j, "y"@)) {
            (Some(x), Some(y)) => Some(WindowPositionResponse { x, y }),
            _ => None,
        }
    }

    fn to_json(&self) -> (j: Json) {
        let mut members: Vec<(String, Json)> = Vec::new();
        push_member(&mut members, "x", self.x.to_json());
        push_member(&mut members, "y", self.y.to_json());
        Json::Object(members)
    }

    fn from_json(j: &Json) -> (r: WebDriverResult<WindowPositionResponse>) {
        let x = decode_required::<u64>(j, "x")?;
        let y = decode_required::<u64>(j, "y")?;
        Ok(WindowPositionResponse { x, y })
    }

    proof fn lemma_roundtrip(v: WindowPositionResponse) {
        reveal_strlit("x");
        reveal_strlit("y");
        assert("x"@[0] == 'x');
        assert("y"@[0] == 'y');
    }
}

/// The rectangle that an element takes up; each side is any JSON number.
#[derive(Clone, Debug, PartialEq)]
pub struct ElementRectResponse {
    pub x: Number,
    pub y: Number,
    pub width: Number,
    pub height: Number,
}

pub ghost struct ElementRectResponseView {
    pub x: NumberValue,
    pub y: NumberValue,
    pub width: NumberValue,
    pub height: NumberValue,
}

impl View for ElementRectResponse {
    type V = ElementRectResponseView;

    open spec fn view(&self) -> ElementRectResponseView {
        ElementRectResponseView {
            x: self.x@,
            y: self.y@,
            width: self.width@,
            height: self.height@,
        }
    }
}

impl ElementRectResponse {
    pub fn new(x: Number, y: Number, width: Number, height: Number) -> (r: ElementRectResponse)
        ensures
            r == (ElementRectResponse { x, y, width, height }),
    {
        ElementRectResponse { x: x, y: y, width: width, height: height }
    }
}

impl Codec for ElementRectResponse {
    open spec fn encode(v: ElementRectResponseView) -> JsonValue {
        JsonValue::Object(
            Seq::empty().push(("x"@, Number::encode(v.x))).push(("y"@, Number::encode(v.y))).push(
                ("width"@, Number::encode(v.width)),
            ).push(("height"@, Number::encode(v.height))),
        )
    }

    open spec fn decode(j: JsonValue) -> Option<ElementRectResponseView> {
        match (
            required::<Number>(j, "x"@),
            required::<Number>(j, "y"@),
            required::<Number>(j, "width"@),
            required::<Number>(j, "height"@),
        ) {
            (Some(x), Some(y), Some(width), Some(height)) => Some(
                ElementRectResponseView { x, y, width, height },
            ),
            _ => None,
        }
    }

    fn to_json(&self) -> (j: Json) {
        let mut members: Vec<(String, Json)> = Vec::new();
        push_member(&mut members, "x", self.x.to_json());
        push_member(&mut members, "y", self.y.to_json());
        push_member(&mut members, "width", self.width.to_json());
        push_member(&mut members, "height", self.height.to_json());
        Json::Object(members)
    }

    fn from_json(j: &Json) -> (r: WebDriverResult<ElementRectResponse>) {
        let x = decode_required::<Number>(j, "x")?;
        let y = decode_required::<Number>(j, "y")?;
        let width = decode_required::<Number>(j, "width")?;
        let height = decode_required::<Number>(j, "height")?;
        Ok(ElementRectResponse { x, y, width, height })
    }

    proof fn lemma_roundtrip(v: ElementRectResponseView) {
        reveal_strlit("x");
        reveal_strlit("y");
        reveal_strlit("width");
        reveal_strlit("height");
        assert("x"@.len() == 1 && "x"@[0] == 'x');
        assert("y"@.len() == 1 && "y"@[0] == 'y');
        assert("width"@.len() == 5);
        assert("height"@.len() == 6);
    }
}

/// A cookie of the page.
#[derive(Clone, Debug, PartialEq)]
pub struct Cookie {
    pub name: String,
    pub value: String,
    pub path: Option<String>,
    pub domain: Option<String>,
    pub expiry: Option<Date>,
    pub secure: bool,
    pub httpOnly: bool,
}

pub ghost struct CookieView {
    pub name: Seq<char>,
    pub value: Seq<char>,
    pub path: Option<Seq<char>>,
    pub domain: Option<Seq<char>>,
    pub expiry: Option<Date>,
    pub secure: bool,
    pub httpOnly: bool,
}

impl View for Cookie {
    type V = CookieView;

    open spec fn view(&self) -> CookieView {
        CookieView {
            name: self.name@,
            value: self.value@,
            path: opt_view(self.path),
            domain: opt_view(self.domain),
            expiry: opt_view(self.expiry),
            secure: self.secure,
            httpOnly: self.httpOnly,
        }
    }
}

impl Cookie {
    pub fn new(
        name: String,
        value: String,
        path: Option<String>,
        domain: Option<String>,
        expiry: Option<Date>,
        secure: bool,
        http_only: bool,
    ) -> (c: Cookie)
        ensures
            c == (Cookie {
                name,
                value,
                path,
                domain,
                expiry,
                secure,
                httpOnly: http_only,
            }),
    {
        Cookie {
            name: name,
            value: value,
            path: path,
            domain: domain,
            expiry: expiry,
            secure: secure,
            httpOnly: http_only,
        }
    }
}

impl Codec for Cookie {
    /// Members without a value are left out.
    open spec fn encode(v: CookieView) -> JsonValue {
        let head = Seq::empty().push(("name"@, String::encode(v.name))).push(
            ("value"@, String::encode(v.value)),
        );
        let with_path = push_present::<String>(head, "path"@, v.path);
        let with_domain = push_present::<String>(with_path, "domain"@, v.domain);
        let with_expiry = push_present::<Date>(with_domain, "expiry"@, v.expiry);
        JsonValue::Object(
            with_expiry.push(("secure"@, bool::encode(v.secure))).push(
                ("httpOnly"@, bool::encode(v.httpOnly)),
            ),
        )
    }

    open spec fn decode(j: JsonValue) -> Option<CookieView> {
        match (
            required::<String>(j, "name"@),
            required::<String>(j, "value"@),
            optional::<String>(j, "path"@),
            optional::<String>(j, "domain"@),
            optional::<Date>(j, "expiry"@),
            required::<bool>(j, "secure"@),
            required::<bool>(j, "httpOnly"@),
        ) {
            (
                Some(name),
                Some(value),
                Some(path),
                Some(domain),
                Some(expiry),
                Some(secure),
                Some(httpOnly),
            ) => Some(CookieView { name, value, path, domain, expiry, secure, httpOnly }),
            _ => None,
        }
    }

    fn to_json(&self) -> (j: Json) {
        let mut members: Vec<(String, Json)> = Vec::new();
        push_member(&mut members, "name", self.name.to_json());
        push_member(&mut members, "value", self.value.to_json());
        push_present_member::<String>(&mut members, "path", &self.path);
        push_present_member::<String>(&mut members, "domain", &self.domain);
        push_present_member::<Date>(&mut members, "expiry", &self.expiry);
        push_member(&mut members, "secure", self.secure.to_json());
        push_member(&mut members, "httpOnly", self.httpOnly.to_json());
        Json::Object(members)
    }

    fn from_json(j: &Json) -> (r: WebDriverResult<Cookie>) {
        let name = decode_required::<String>(j, "name")?;
        let value = decode_required::<String>(j, "value")?;
        let path = decode_optional::<String>(j, "path")?;
        let domain = decode_optional::<String>(j, "domain")?;
        let expiry = decode_optional::<Date>(j, "expiry")?;
        let secure = decode_required::<bool>(j, "secure")?;
        let httpOnly = decode_required::<bool>(j, "httpOnly")?;
        Ok(Cookie { name, value, path, domain, expiry, secure, httpOnly })
    }

    proof fn lemma_roundtrip(v: CookieView) {
        lemma_cookie_keys();
    }
}

/// The cookies of the page.
#[derive(Clone, Debug, PartialEq)]
pub struct CookieResponse {
    pub value: Vec<Cookie>,
}

pub ghost struct CookieResponseView {
    pub value: Seq<CookieView>,
}

impl View for CookieResponse {
    type V = CookieResponseView;

    open spec fn view(&self) -> CookieResponseView {
        CookieResponseView { value: views(self.value@) }
    }
}

impl CookieResponse {
    pub fn new(value: Vec<Cookie>) -> (r: CookieResponse)
        ensures
            r.value == value,
    {
        CookieResponse { value: value }
    }
}

impl Codec for CookieResponse {
    open spec fn encode(v: CookieResponseView) -> JsonValue {
        JsonValue::Object(seq![("value"@, encode_all::<Cookie>(v.value))])
    }

    open spec fn decode(j: JsonValue) -> Option<CookieResponseView> {
        match required_all::<Cookie>(j, "value"@) {
            Some(value) => Some(CookieResponseView { value }),
            None => None,
        }
    }

    fn to_json(&self) -> (j: Json) {
        let mut members: Vec<(String, Json)> = Vec::new();
        push_member(&mut members, "value", items_to_json::<Cookie>(&self.value));
        Json::Object(members)
    }

    fn from_json(j: &Json) -> (r: WebDriverResult<CookieResponse>) {
        let value = decode_required_all::<Cookie>(j, "value")?;
        Ok(CookieResponse { value })
    }

    proof fn lemma_roundtrip(v: CookieResponseView) {
        lemma_roundtrip_all::<Cookie>(v.value);
    }
}

} // verus!
