//! The parameter records that request bodies carry.

use crate::error::{ErrorStatus, WebDriverResult};
use crate::json::{
    clone_members, field, group_field, lookup, members_value, push_member, Json, JsonValue,
    Number, NumberValue,
};
use crate::protocol::codec::{
    decode_optional, decoded, decode_optional_all, decode_required, decode_required_all, encode_all,
    encode_nullable, encode_nullable_all, invalid_argument, items_to_json, lemma_roundtrip_all,
    nullable_items_to_json, nullable_to_json, opt_view, opt_views, optional, optional_all,
    push_present, push_present_member, required, required_all, tagged, views, with_type, Codec,
};
use crate::protocol::common::{Date, FrameId, FrameIdView, LocatorStrategy, WebElement, WebElementView};
use crate::text::str_eq;
use vstd::prelude::*;

verus! {

broadcast use group_field;

/// The capabilities that a client asks of a new session.
#[derive(Clone, Debug, PartialEq)]
pub struct NewSessionParameters {
    pub desired: Vec<(String, Json)>,
    pub required: Vec<(String, Json)>,
}

pub ghost struct NewSessionParametersView {
    pub desired: Seq<(Seq<char>, JsonValue)>,
    pub required: Seq<(Seq<char>, JsonValue)>,
}

impl View for NewSessionParameters {
    type V = NewSessionParametersView;

    open spec fn view(&self) -> NewSessionParametersView {
        NewSessionParametersView {
            desired: members_value(self.desired@),
            required: members_value(self.required@),
        }
    }
}

/// The members but those with the key `key`.
pub open spec fn without(members: Seq<(Seq<char>, JsonValue)>, key: Seq<char>) -> Seq<
    (Seq<char>, JsonValue),
>
    decreases members.len(),
{
    if members.len() == 0 {
        Seq::empty()
    } else if members.last().0 == key {
        without(members.drop_last(), key)
    } else {
        without(members.drop_last(), key).push(members.last())
    }
}

/// The capabilities under `key`: none where the member is missing, nothing
/// where it is no object.
pub open spec fn capabilities(j: JsonValue, key: Seq<char>) -> Option<Seq<(Seq<char>, JsonValue)>> {
    match j.get(key) {
        None => Some(Seq::empty()),
        Some(JsonValue::Object(m)) => Some(m),
        Some(_) => None,
    }
}

impl NewSessionParametersView {
    /// The capability `name`: the required one, else the desired one.
    pub open spec fn get(self, name: Seq<char>) -> Option<JsonValue> {
        match field(self.required, name) {
            Some(v) => Some(v),
            None => field(self.desired, name),
        }
    }

    /// These capabilities without any called `name`.
    pub open spec fn without(self, name: Seq<char>) -> NewSessionParametersView {
        NewSessionParametersView {
            desired: without(self.desired, name),
            required: without(self.required, name),
        }
    }
}

/// Takes every member with the key `name` out of a list, and hands back the
/// value that the list gave the key.
fn take_key(members: &mut Vec<(String, Json)>, name: &str) -> (r: Option<Json>)
    ensures
        members_value(final(members)@) == without(members_value(old(members)@), name@),
        match r {
            Some(j) => field(members_value(old(members)@), name@) == Some(j@),
            None => field(members_value(old(members)@), name@) is None,
        },
{
    let mut kept: Vec<(String, Json)> = Vec::new();
    let mut found: Option<Json> = None;
    let mut i: usize = 0;
    let ghost all = members_value(members@);
    proof {
        crate::json::lemma_members_value(members@);
        assert(all.take(0) =~= Seq::empty());
    }
    while i < members.len()
        invariant
            i <= members.len(),
            all == members_value(members@),
            all.len() == members@.len(),
            forall|k: int|
                0 <= k < members@.len() ==> (#[trigger] all[k]) == (members@[k].0@, members@[k].1@),
            members_value(kept@) == without(all.take(i as int), name@),
            match found {
                Some(j) => field(all.take(i as int), name@) == Some(j@),
                None => field(all.take(i as int), name@) is None,
            },
        decreases members.len() - i,
    {
        assert(all.take(i + 1).drop_last() == all.take(i as int));
        assert(all.take(i + 1).last() == all[i as int]);
        if str_eq(members[i].0.as_str(), name) {
            found = Some(members[i].1.clone());
        } else {
            push_member(&mut kept, members[i].0.as_str(), members[i].1.clone());
        }
        i = i + 1;
    }
    assert(all.take(i as int) == all);
    *members = kept;
    found
}

impl NewSessionParameters {
    /// The capability `name`: the required one, else the desired one.
    pub fn get(&self, name: &str) -> (r: Option<&Json>)
        ensures
            match r {
                Some(j) => self@.get(name@) == Some(j@),
                None => self@.get(name@) is None,
            },
    {
        match lookup(&self.required, name) {
            Some(j) => Some(j),
            None => lookup(&self.desired, name),
        }
    }

    /// Removes the capability `name` from both lists and returns what `get`
    /// would have returned.
    pub fn consume(&mut self, name: &str) -> (r: Option<Json>)
        ensures
            final(self)@ == old(self)@.without(name@),
            match r {
                Some(j) => old(self)@.get(name@) == Some(j@),
                None => old(self)@.get(name@) is None,
            },
    {
        let required = take_key(&mut self.required, name);
        let desired = take_key(&mut self.desired, name);
        if required.is_some() {
            required
        } else {
            desired
        }
    }
}

/// Reads the capabilities under `key`.
fn decode_capabilities(j: &Json, key: &str) -> (r: WebDriverResult<Vec<(String, Json)>>)
    ensures
        match r {
            Ok(m) => capabilities(j@, key@) == Some(members_value(m@)),
            Err(e) => capabilities(j@, key@) is None && e.status == ErrorStatus::InvalidArgument,
        },
{
    match j.get(key) {
        None => Ok(Vec::new()),
        Some(v) => match v.as_object() {
            Some(m) => Ok(clone_members(m)),
            None => Err(invalid_argument("Capabilities must be an object")),
        },
    }
}

impl Codec for NewSessionParameters {
    open spec fn encode(v: NewSessionParametersView) -> JsonValue {
        JsonValue::Object(
            Seq::empty().push(("desiredCapabilities"@, JsonValue::Object(v.desired))).push(
                ("requiredCapabilities"@, JsonValue::Object(v.required)),
            ),
        )
    }

    open spec fn decode(j: JsonValue) -> Option<NewSessionParametersView> {
        if j is Object {
            match (
                capabilities(j, "desiredCapabilities"@),
                capabilities(j, "requiredCapabilities"@),
            ) {
                (Some(desired), Some(required)) => Some(
                    NewSessionParametersView { desired, required },
                ),
                _ => None,
            }
        } else {
            None
        }
    }

    fn to_json(&self) -> (j: Json) {
        let mut members: Vec<(String, Json)> = Vec::new();
        push_member(&mut members, "desiredCapabilities", Json::Object(clone_members(&self.desired)));
        push_member(
            &mut members,
            "requiredCapabilities",
            Json::Object(clone_members(&self.required)),
        );
        Json::Object(members)
    }

    fn from_json(j: &Json) -> (r: WebDriverResult<NewSessionParameters>) {
        if j.as_object().is_none() {
            return Err(invalid_argument("Expected an object"));
        }
        let desired = decode_capabilities(j, "desiredCapabilities")?;
        let required = decode_capabilities(j, "requiredCapabilities")?;
        Ok(NewSessionParameters { desired, required })
    }

    proof fn lemma_roundtrip(v: NewSessionParametersView) {
        reveal_strlit("desiredCapabilities");
        reveal_strlit("requiredCapabilities");
        assert("desiredCapabilities"@.len() == 19);
        assert("requiredCapabilities"@.len() == 20);
    }
}

/// The address to navigate to.
#[derive(Clone, Debug, PartialEq)]
pub struct GetParameters {
    pub url: String,
}

pub ghost struct GetParametersView {
    pub url: Seq<char>,
}

impl View for GetParameters {
    type V = GetParametersView;

    open spec fn view(&self) -> GetParametersView {
        GetParametersView { url: self.url@ }
    }
}

impl Codec for GetParameters {
    open spec fn encode(v: GetParametersView) -> JsonValue {
        JsonValue::Object(seq![("url"@, String::encode(v.url))])
    }

    open spec fn decode(j: JsonValue) -> Option<GetParametersView> {
        match required::<String>(j, "url"@) {
            Some(url) => Some(GetParametersView { url }),
            None => None,
        }
    }

    fn to_json(&self) -> (j: Json) {
        let mut members: Vec<(String, Json)> = Vec::new();
        push_member(&mut members, "url", self.url.to_json());
        Json::Object(members)
    }

    fn from_json(j: &Json) -> (r: WebDriverResult<GetParameters>) {
        let url = decode_required::<String>(j, "url")?;
        Ok(GetParameters { url })
    }

    proof fn lemma_roundtrip(v: GetParametersView) {
    }
}

/// A timeout to set: which one, and its length in milliseconds.
#[derive(Clone, Debug, PartialEq)]
pub struct TimeoutsParameters {
    pub type_: String,
    pub ms: Number,
}

pub ghost struct TimeoutsParametersView {
    pub type_: Seq<char>,
    pub ms: NumberValue,
}

impl View for TimeoutsParameters {
    type V = TimeoutsParametersView;

    open spec fn view(&self) -> TimeoutsParametersView {
        TimeoutsParametersView { type_: self.type_@, ms: self.ms@ }
    }
}

impl Codec for TimeoutsParameters {
    open spec fn encode(v: TimeoutsParametersView) -> JsonValue {
        JsonValue::Object(
            Seq::empty().push(("type"@, String::encode(v.type_))).push(("ms"@, Number::encode(v.ms))),
        )
    }

    open spec fn decode(j: JsonValue) -> Option<TimeoutsParametersView> {
        match (required::<String>(j, "type"@), required::<Number>(j, "ms"@)) {
            (Some(type_), Some(ms)) => Some(TimeoutsParametersView { type_, ms }),
            _ => None,
        }
    }

    fn to_json(&self) -> (j: Json) {
        let mut members: Vec<(String, Json)> = Vec::new();
        push_member(&mut members, "type", self.type_.to_json());
        push_member(&mut members, "ms", self.ms.to_json());
        Json::Object(members)
    }

    fn from_json(j: &Json) -> (r: WebDriverResult<TimeoutsParameters>) {
        let type_ = decode_required::<String>(j, "type")?;
        let ms = decode_required::<Number>(j, "ms")?;
        Ok(TimeoutsParameters { type_, ms })
    }

    proof fn lemma_roundtrip(v: TimeoutsParametersView) {
        reveal_strlit("type");
        reveal_strlit("ms");
        assert("type"@.len() == 4);
        assert("ms"@.len() == 2);
    }
}

/// The size to give the window.
#[derive(Clone, Copy, Debug, PartialEq, Eq, Structural)]
pub struct WindowSizeParameters {
    pub width: u64,
    pub height: u64,
}

impl View for WindowSizeParameters {
    type V = WindowSizeParameters;

    open spec fn view(&self) -> WindowSizeParameters {
        *self
    }
}

impl Codec for WindowSizeParameters {
    open spec fn encode(v: WindowSizeParameters) -> JsonValue {
        JsonValue::Object(
            Seq::empty().push(("width"@, u64::encode(v.width))).push(
                ("height"@, u64::encode(v.height)),
            ),
        )
    }

    open spec fn decode(j: JsonValue) -> Option<WindowSizeParameters> {
        match (required::<u64>(j, "width"@), required::<u64>(j, "height"@)) {
            (Some(width), Some(height)) => Some(WindowSizeParameters { width, height }),
            _ => None,
        }
    }

    fn to_json(&self) -> (j: Json) {
        let mut members: Vec<(String, Json)> = Vec::new();
        push_member(&mut members, "width", self.width.to_json());
        push_member(&mut members, "height", self.height.to_json());
        Json::Object(members)
    }

    fn from_json(j: &Json) -> (r: WebDriverResult<WindowSizeParameters>) {
        let width = decode_required::<u64>(j, "width")?;
        let height = decode_required::<u64>(j, "height")?;
        Ok(WindowSizeParameters { width, height })
    }

    proof fn lemma_roundtrip(v: WindowSizeParameters) {
        reveal_strlit("width");
        reveal_strlit("height");
        assert("width"@.len() == 5);
        assert("height"@.len() == 6);
    }
}

/// The position to move the window to; it may lie left of or above the
/// screen's origin.
#[derive(Clone, Copy, Debug, PartialEq, Eq, Structural)]
pub struct WindowPositionParameters {
    pub x: i64,
    pub y: i64,
}

impl View for WindowPositionParameters {
    type V = WindowPositionParameters;

    open spec fn view(&self) -> WindowPositionParameters {
        *self
    }
}

impl Codec for WindowPositionParameters {
    open spec fn encode(v: WindowPositionParameters) -> JsonValue {
        JsonValue::Object(
            Seq::empty().push(("x"@, i64::encode(v.x))).push(("y"@, i64::encode(v.y))),
        )
    }

    open spec fn decode(j: JsonValue) -> Option<WindowPositionParameters> {
        match (required::<i64>(j, "x"@), required::<i64>(j, "y"@)) {
            (Some(x), Some(y)) => Some(WindowPositionParameters { x, y }),
            _ => None,
        }
    }

    fn to_json(&self) -> (j: Json) {
        let mut members: Vec<(String, Json)> = Vec::new();
        push_member(&mut members, "x", self.x.to_json());
        push_member(&mut members, "y", self.y.to_json());
        Json::Object(members)
    }

    fn from_json(j: &Json) -> (r: WebDriverResult<WindowPositionParameters>) {
        let x = decode_required::<i64>(j, "x")?;
        let y = decode_required::<i64>(j, "y")?;
        Ok(WindowPositionParameters { x, y })
    }

    proof fn lemma_roundtrip(v: WindowPositionParameters) {
        reveal_strlit("x");
        reveal_strlit("y");
        assert("x"@[0] == 'x');
        assert("y"@[0] == 'y');
    }
}

/// The window to switch to.
#[derive(Clone, Debug, PartialEq)]
pub struct SwitchToWindowParameters {
    pub handle: String,
}

pub ghost struct SwitchToWindowParametersView {
    pub handle: Seq<char>,
}

impl View for SwitchToWindowParameters {
    type V = SwitchToWindowParametersView;

    open spec fn view(&self) -> SwitchToWindowParametersView {
        SwitchToWindowParametersView { handle: self.handle@ }
    }
}

impl Codec for SwitchToWindowParameters {
    open spec fn encode(v: SwitchToWindowParametersView) -> JsonValue {
        JsonValue::Object(seq![("handle"@, String::encode(v.handle))])
    }

    open spec fn decode(j: JsonValue) -> Option<SwitchToWindowParametersView> {
        match required::<String>(j, "handle"@) {
            Some(handle) => Some(SwitchToWindowParametersView { handle }),
            None => None,
        }
    }

    fn to_json(&self) -> (j: Json) {
        let mut members: Vec<(String, Json)> = Vec::new();
        push_member(&mut members, "handle", self.handle.to_json());
        Json::Object(members)
    }

    fn from_json(j: &Json) -> (r: WebDriverResult<SwitchToWindowParameters>) {
        let handle = decode_required::<String>(j, "handle")?;
        Ok(SwitchToWindowParameters { handle })
    }

    proof fn lemma_roundtrip(v: SwitchToWindowParametersView) {
    }
}

/// How to find elements: a strategy and the value it reads.
#[derive(Clone, Debug, PartialEq)]
pub struct LocatorParameters {
    pub using: LocatorStrategy,
    pub value: String,
}

pub ghost struct LocatorParametersView {
    pub using: LocatorStrategy,
    pub value: Seq<char>,
}

impl View for LocatorParameters {
    type V = LocatorParametersView;

    open spec fn view(&self) -> LocatorParametersView {
        LocatorParametersView { using: self.using, value: self.value@ }
    }
}

impl Codec for LocatorParameters {
    open spec fn encode(v: LocatorParametersView) -> JsonValue {
        JsonValue::Object(
            Seq::empty().push(("using"@, LocatorStrategy::encode(v.using))).push(
                ("value"@, String::encode(v.value)),
            ),
        )
    }

    open spec fn decode(j: JsonValue) -> Option<LocatorParametersView> {
        match (required::<LocatorStrategy>(j, "using"@), required::<String>(j, "value"@)) {
            (Some(using), Some(value)) => Some(LocatorParametersView { using, value }),
            _ => None,
        }
    }

    fn to_json(&self) -> (j: Json) {
        let mut members: Vec<(String, Json)> = Vec::new();
        push_member(&mut members, "using", self.using.to_json());
        push_member(&mut members, "value", self.value.to_json());
        Json::Object(members)
    }

    fn from_json(j: &Json) -> (r: WebDriverResult<LocatorParameters>) {
        let using = decode_required::<LocatorStrategy>(j, "using")?;
        let value = decode_required::<String>(j, "value")?;
        Ok(LocatorParameters { using, value })
    }

    proof fn lemma_roundtrip(v: LocatorParametersView) {
        reveal_strlit("using");
        reveal_strlit("value");
        assert("using"@[0] == 'u');
        assert("value"@[0] == 'v');
        LocatorStrategy::lemma_roundtrip(v.using);
    }
}

/// The frame to switch to.
#[derive(Clone, Debug, PartialEq)]
pub struct SwitchToFrameParameters {
    pub id: FrameId,
}

pub ghost struct SwitchToFrameParametersView {
    pub id: FrameIdView,
}

impl View for SwitchToFrameParameters {
    type V = SwitchToFrameParametersView;

    open spec fn view(&self) -> SwitchToFrameParametersView {
        SwitchToFrameParametersView { id: self.id@ }
    }
}

impl Codec for SwitchToFrameParameters {
    open spec fn encode(v: SwitchToFrameParametersView) -> JsonValue {
        JsonValue::Object(seq![("id"@, FrameId::encode(v.id))])
    }

    open spec fn decode(j: JsonValue) -> Option<SwitchToFrameParametersView> {
        match required::<FrameId>(j, "id"@) {
            Some(id) => Some(SwitchToFrameParametersView { id }),
            None => None,
        }
    }

    fn to_json(&self) -> (j: Json) {
        let mut members: Vec<(String, Json)> = Vec::new();
        push_member(&mut members, "id", self.id.to_json());
        Json::Object(members)
    }

    fn from_json(j: &Json) -> (r: WebDriverResult<SwitchToFrameParameters>) {
        let id = decode_required::<FrameId>(j, "id")?;
        Ok(SwitchToFrameParameters { id })
    }

    proof fn lemma_roundtrip(v: SwitchToFrameParametersView) {
        FrameId::lemma_roundtrip(v.id);
    }
}

/// The keys to send, one character each.
#[derive(Clone, Debug, PartialEq)]
pub struct SendKeysParameters {
    pub value: Vec<char>,
}

pub ghost struct SendKeysParametersView {
    pub value: Seq<char>,
}

impl View for SendKeysParameters {
    type V = SendKeysParametersView;

    open spec fn view(&self) -> SendKeysParametersView {
        SendKeysParametersView { value: views(self.value@) }
    }
}

impl Codec for SendKeysParameters {
    open spec fn encode(v: SendKeysParametersView) -> JsonValue {
        JsonValue::Object(seq![("value"@, encode_all::<char>(v.value))])
    }

    open spec fn decode(j: JsonValue) -> Option<SendKeysParametersView> {
        match required_all::<char>(j, "value"@) {
            Some(value) => Some(SendKeysParametersView { value }),
            None => None,
        }
    }

    fn to_json(&self) -> (j: Json) {
        let mut members: Vec<(String, Json)> = Vec::new();
        push_member(&mut members, "value", items_to_json::<char>(&self.value));
        Json::Object(members)
    }

    fn from_json(j: &Json) -> (r: WebDriverResult<SendKeysParameters>) {
        let value = decode_required_all::<char>(j, "value")?;
        Ok(SendKeysParameters { value })
    }

    proof fn lemma_roundtrip(v: SendKeysParametersView) {
        lemma_roundtrip_all::<char>(v.value);
    }
}

/// A script to run in the page, with its arguments.
#[derive(Clone, Debug, PartialEq)]
pub struct JavascriptCommandParameters {
    pub script: String,
    pub args: Option<Vec<Json>>,
}

pub ghost struct JavascriptCommandParametersView {
    pub script: Seq<char>,
    pub args: Option<Seq<JsonValue>>,
}

impl View for JavascriptCommandParameters {
    type V = JavascriptCommandParametersView;

    open spec fn view(&self) -> JavascriptCommandParametersView {
        JavascriptCommandParametersView { script: self.script@, args: opt_views(self.args) }
    }
}

impl Codec for JavascriptCommandParameters {
    open spec fn encode(v: JavascriptCommandParametersView) -> JsonValue {
        JsonValue::Object(
            Seq::empty().push(("script"@, String::encode(v.script))).push(
                ("args"@, encode_nullable_all::<Json>(v.args)),
            ),
        )
    }

    open spec fn decode(j: JsonValue) -> Option<JavascriptCommandParametersView> {
        match (required::<String>(j, "script"@), optional_all::<Json>(j, "args"@)) {
            (Some(script), Some(args)) => Some(JavascriptCommandParametersView { script, args }),
            _ => None,
        }
    }

    fn to_json(&self) -> (j: Json) {
        let mut members: Vec<(String, Json)> = Vec::new();
        push_member(&mut members, "script", self.script.to_json());
        push_member(&mut members, "args", nullable_items_to_json::<Json>(&self.args));
        Json::Object(members)
    }

    fn from_json(j: &Json) -> (r: WebDriverResult<JavascriptCommandParameters>) {
        let script = decode_required::<String>(j, "script")?;
        let args = decode_optional_all::<Json>(j, "args")?;
        Ok(JavascriptCommandParameters { script, args })
    }

    proof fn lemma_roundtrip(v: JavascriptCommandParametersView) {
        reveal_strlit("script");
        reveal_strlit("args");
        assert("script"@.len() == 6);
        assert("args"@.len() == 4);
        if let Some(args) = v.args {
            lemma_roundtrip_all::<Json>(args);
        }
    }
}

/// The cookie to read, by name.
#[derive(Clone, Debug, PartialEq)]
pub struct GetNamedCookieParameters {
    pub name: Option<String>,
}

pub ghost struct GetNamedCookieParametersView {
    pub name: Option<Seq<char>>,
}

impl View for GetNamedCookieParameters {
    type V = GetNamedCookieParametersView;

    open spec fn view(&self) -> GetNamedCookieParametersView {
        GetNamedCookieParametersView { name: opt_view(self.name) }
    }
}

impl Codec for GetNamedCookieParameters {
    open spec fn encode(v: GetNamedCookieParametersView) -> JsonValue {
        JsonValue::Object(seq![("name"@, encode_nullable::<String>(v.name))])
    }

    open spec fn decode(j: JsonValue) -> Option<GetNamedCookieParametersView> {
        if j is Object {
            match optional::<String>(j, "name"@) {
                Some(name) => Some(GetNamedCookieParametersView { name }),
                None => None,
            }
        } else {
            None
        }
    }

    fn to_json(&self) -> (j: Json) {
        let mut members: Vec<(String, Json)> = Vec::new();
        push_member(&mut members, "name", nullable_to_json::<String>(&self.name));
        Json::Object(members)
    }

    fn from_json(j: &Json) -> (r: WebDriverResult<GetNamedCookieParameters>) {
        if j.as_object().is_none() {
            return Err(invalid_argument("Expected an object"));
        }
        let name = decode_optional::<String>(j, "name")?;
        Ok(GetNamedCookieParameters { name })
    }

    proof fn lemma_roundtrip(v: GetNamedCookieParametersView) {
    }
}

/// The cookie to add.
#[derive(Clone, Debug, PartialEq)]
pub struct AddCookieParameters {
    pub name: String,
    pub value: String,
    pub path: Option<String>,
    pub domain: Option<String>,
    pub expiry: Option<Date>,
    pub secure: bool,
    pub httpOnly: bool,
}

pub ghost struct AddCookieParametersView {
    pub name: Seq<char>,
    pub value: Seq<char>,
    pub path: Option<Seq<char>>,
    pub domain: Option<Seq<char>>,
    pub expiry: Option<Date>,
    pub secure: bool,
    pub httpOnly: bool,
}

impl View for AddCookieParameters {
    type V = AddCookieParametersView;

    open spec fn view(&self) -> AddCookieParametersView {
        AddCookieParametersView {
            name: self.name@,
            value: self.value@,
            path: opt_view(self.path),
            domain: opt_view(self.domain),
            expiry: opt_view(self.expiry),
            secure: self.secure,
            httpOnly: self.httpOnly,
        }
    }
}

/// The names of a cookie's members differ from each other.
pub proof fn lemma_cookie_keys()
    ensures
        "name"@ != "value"@,
        "name"@ != "path"@,
        "name"@ != "domain"@,
        "name"@ != "expiry"@,
        "name"@ != "secure"@,
        "name"@ != "httpOnly"@,
        "value"@ != "path"@,
        "value"@ != "domain"@,
        "value"@ != "expiry"@,
        "value"@ != "secure"@,
        "value"@ != "httpOnly"@,
        "path"@ != "domain"@,
        "path"@ != "expiry"@,
        "path"@ != "secure"@,
        "path"@ != "httpOnly"@,
        "domain"@ != "expiry"@,
        "domain"@ != "secure"@,
        "domain"@ != "httpOnly"@,
        "expiry"@ != "secure"@,
        "expiry"@ != "httpOnly"@,
        "secure"@ != "httpOnly"@,
{
    reveal_strlit("name");
    reveal_strlit("value");
    reveal_strlit("path");
    reveal_strlit("domain");
    reveal_strlit("expiry");
    reveal_strlit("secure");
    reveal_strlit("httpOnly");
    assert("name"@.len() == 4 && "name"@[0] == 'n');
    assert("value"@.len() == 5);
    assert("path"@.len() == 4 && "path"@[0] == 'p');
    assert("domain"@.len() == 6 && "domain"@[0] == 'd');
    assert("expiry"@.len() == 6 && "expiry"@[0] == 'e');
    assert("secure"@.len() == 6 && "secure"@[0] == 's');
    assert("httpOnly"@.len() == 8);
}

impl Codec for AddCookieParameters {
    /// Members without a value are left out.
    open spec fn encode(v: AddCookieParametersView) -> JsonValue {
        let head = Seq::empty().push(("name"@, String::encode(v.name))).push(
            ("value"@, String::encode(v.value)),
        );
        let with_path = push_present::<String>(head, "path"@, v.path);
        let with_domain = push_present::<String>(with_path, "domain"@, v.domain);
        let with_expiry = push_present::<Date>(with_domain, "expiry"@, v.expiry);
        JsonValue::Object(
            with_expiry.push(("secure"@, bool::encode(v.secure))).push(
                ("httpOnly"@, bool::encode(v.httpOnly)),
            ),
        )
    }

    open spec fn decode(j: JsonValue) -> Option<AddCookieParametersView> {
        match (
            required::<String>(j, "name"@),
            required::<String>(j, "value"@),
            optional::<String>(j, "path"@),
            optional::<String>(j, "domain"@),
            optional::<Date>(j, "expiry"@),
            required::<bool>(j, "secure"@),
            required::<bool>(j, "httpOnly"@),
        ) {
            (
                Some(name),
                Some(value),
                Some(path),
                Some(domain),
                Some(expiry),
                Some(secure),
                Some(httpOnly),
            ) => Some(
                AddCookieParametersView { name, value, path, domain, expiry, secure, httpOnly },
            ),
            _ => None,
        }
    }

    fn to_json(&self) -> (j: Json) {
        let mut members: Vec<(String, Json)> = Vec::new();
        push_member(&mut members, "name", self.name.to_json());
        push_member(&mut members, "value", self.value.to_json());
        push_present_member::<String>(&mut members, "path", &self.path);
        push_present_member::<String>(&mut members, "domain", &self.domain);
        push_present_member::<Date>(&mut members, "expiry", &self.expiry);
        push_member(&mut members, "secure", self.secure.to_json());
        push_member(&mut members, "httpOnly", self.httpOnly.to_json());
        Json::Object(members)
    }

    fn from_json(j: &Json) -> (r: WebDriverResult<AddCookieParameters>) {
        let name = decode_required::<String>(j, "name")?;
        let value = decode_required::<String>(j, "value")?;
        let path = decode_optional::<String>(j, "path")?;
        let domain = decode_optional::<String>(j, "domain")?;
        let expiry = decode_optional::<Date>(j, "expiry")?;
        let secure = decode_required::<bool>(j, "secure")?;
        let httpOnly = decode_required::<bool>(j, "httpOnly")?;
        Ok(AddCookieParameters { name, value, path, domain, expiry, secure, httpOnly })
    }

    proof fn lemma_roundtrip(v: AddCookieParametersView) {
        lemma_cookie_keys();
    }
}

/// What to take a screenshot of: an element, or the page.
#[derive(Clone, Debug, PartialEq)]
pub struct TakeScreenshotParameters {
    pub element: Option<WebElement>,
}

pub ghost struct TakeScreenshotParametersView {
    pub element: Option<WebElementView>,
}

impl View for TakeScreenshotParameters {
    type V = TakeScreenshotParametersView;

    open spec fn view(&self) -> TakeScreenshotParametersView {
        TakeScreenshotParametersView { element: opt_view(self.element) }
    }
}

impl Codec for TakeScreenshotParameters {
    open spec fn encode(v: TakeScreenshotParametersView) -> JsonValue {
        JsonValue::Object(seq![("element"@, encode_nullable::<WebElement>(v.element))])
    }

    open spec fn decode(j: JsonValue) -> Option<TakeScreenshotParametersView> {
        if j is Object {
            match optional::<WebElement>(j, "element"@) {
                Some(element) => Some(TakeScreenshotParametersView { element }),
                None => None,
            }
        } else {
            None
        }
    }

    fn to_json(&self) -> (j: Json) {
        let mut members: Vec<(String, Json)> = Vec::new();
        push_member(&mut members, "element", nullable_to_json::<WebElement>(&self.element));
        Json::Object(members)
    }

    fn from_json(j: &Json) -> (r: WebDriverResult<TakeScreenshotParameters>) {
        if j.as_object().is_none() {
            return Err(invalid_argument("Expected an object"));
        }
        let element = decode_optional::<WebElement>(j, "element")?;
        Ok(TakeScreenshotParameters { element })
    }

    proof fn lemma_roundtrip(v: TakeScreenshotParametersView) {
        if let Some(e) = v.element {
            WebElement::lemma_roundtrip(e);
        }
    }
}

/// The input sources' actions to perform.
#[derive(Clone, Debug, PartialEq)]
pub struct ActionsParameters {
    pub actions: Vec<ActionSequence>,
}

pub ghost struct ActionsParametersView {
    pub actions: Seq<ActionSequenceView>,
}

impl View for ActionsParameters {
    type V = ActionsParametersView;

    open spec fn view(&self) -> ActionsParametersView {
        ActionsParametersView { actions: views(self.actions@) }
    }
}

impl Codec for ActionsParameters {
    open spec fn encode(v: ActionsParametersView) -> JsonValue {
        JsonValue::Object(seq![("actions"@, encode_all::<ActionSequence>(v.actions))])
    }

    open spec fn decode(j: JsonValue) -> Option<ActionsParametersView> {
        match required_all::<ActionSequence>(j, "actions"@) {
            Some(actions) => Some(ActionsParametersView { actions }),
            None => None,
        }
    }

    fn to_json(&self) -> (j: Json) {
        let mut members: Vec<(String, Json)> = Vec::new();
        push_member(&mut members, "actions", items_to_json::<ActionSequence>(&self.actions));
        Json::Object(members)
    }

    fn from_json(j: &Json) -> (r: WebDriverResult<ActionsParameters>) {
        let actions = decode_required_all::<ActionSequence>(j, "actions")?;
        Ok(ActionsParameters { actions })
    }

    proof fn lemma_roundtrip(v: ActionsParametersView) {
        lemma_roundtrip_all::<ActionSequence>(v.actions);
    }
}

/// The actions of one input source, in the order of time.
#[derive(Clone, Debug, PartialEq)]
pub struct ActionSequence {
    pub id: Option<String>,
    pub actions: ActionsType,
}

pub ghost struct ActionSequenceView {
    pub id: Option<Seq<char>>,
    pub actions: ActionsTypeView,
}

impl View for ActionSequence {
    type V = ActionSequenceView;

    open spec fn view(&self) -> ActionSequenceView {
        ActionSequenceView { id: opt_view(self.id), actions: self.actions@ }
    }
}

/// The actions of a source, by the kind of the source.
#[derive(Clone, Debug, PartialEq)]
pub enum ActionsType {
    Null(Vec<NullActionItem>),
    Key(Vec<KeyActionItem>),
    Pointer(PointerActionParameters, Vec<PointerActionItem>),
}

pub ghost enum ActionsTypeView {
    Null(Seq<NullActionItem>),
    Key(Seq<KeyActionItem>),
    Pointer(PointerActionParameters, Seq<PointerActionItemView>),
}

impl View for ActionsType {
    type V = ActionsTypeView;

    open spec fn view(&self) -> ActionsTypeView {
        match self {
            ActionsType::Null(items) => ActionsTypeView::Null(views(items@)),
            ActionsType::Key(items) => ActionsTypeView::Key(views(items@)),
            ActionsType::Pointer(parameters, items) => ActionsTypeView::Pointer(
                *parameters,
                views(items@),
            ),
        }
    }
}

/// The pointer's parameters in a sequence's object: the mouse where the
/// member is missing.
pub open spec fn pointer_parameters(j: JsonValue) -> Option<PointerActionParameters> {
    match j.get("pointerType"@) {
        None => Some(PointerActionParameters { pointer_type: PointerType::Mouse }),
        Some(v) => match PointerType::decode(v) {
            Some(pointer_type) => Some(PointerActionParameters { pointer_type }),
            None => None,
        },
    }
}

/// The actions in a sequence's object whose `"type"` is `kind`.
pub open spec fn actions_of_kind(j: JsonValue, kind: Seq<char>) -> Option<ActionsTypeView> {
    if kind == "none"@ {
        match required_all::<NullActionItem>(j, "actions"@) {
            Some(items) => Some(ActionsTypeView::Null(items)),
            None => None,
        }
    } else if kind == "key"@ {
        match required_all::<KeyActionItem>(j, "actions"@) {
            Some(items) => Some(ActionsTypeView::Key(items)),
            None => None,
        }
    } else if kind == "pointer"@ {
        match (pointer_parameters(j), required_all::<PointerActionItem>(j, "actions"@)) {
            (Some(parameters), Some(items)) => Some(ActionsTypeView::Pointer(parameters, items)),
            _ => None,
        }
    } else {
        None
    }
}

/// Reads the pointer's parameters from a sequence's object.
fn decode_pointer_parameters(j: &Json) -> (r: WebDriverResult<PointerActionParameters>)
    ensures
        match r {
            Ok(p) => pointer_parameters(j@) == Some(p),
            Err(e) => pointer_parameters(j@) is None && e.status == ErrorStatus::InvalidArgument,
        },
{
    match j.get("pointerType") {
        None => Ok(PointerActionParameters { pointer_type: PointerType::Mouse }),
        Some(v) => match PointerType::from_json(v) {
            Ok(pointer_type) => Ok(PointerActionParameters { pointer_type }),
            Err(e) => Err(e),
        },
    }
}

/// Reads the actions of a sequence's object whose `"type"` is `kind`.
fn decode_actions_of_kind(j: &Json, kind: &str) -> (r: WebDriverResult<ActionsType>)
    ensures
        decoded(r, actions_of_kind(j@, kind@)),
{
    if str_eq(kind, "none") {
        let items = decode_required_all::<NullActionItem>(j, "actions")?;
        Ok(ActionsType::Null(items))
    } else if str_eq(kind, "key") {
        let items = decode_required_all::<KeyActionItem>(j, "actions")?;
        Ok(ActionsType::Key(items))
    } else if str_eq(kind, "pointer") {
        let parameters = decode_pointer_parameters(j)?;
        let items = decode_required_all::<PointerActionItem>(j, "actions")?;
        Ok(ActionsType::Pointer(parameters, items))
    } else {
        Err(invalid_argument("Unknown kind of action sequence"))
    }
}

impl Codec for ActionSequence {
    /// The id, the kind of the source under `"type"`, for a pointer its
    /// parameters, and the actions.
    open spec fn encode(v: ActionSequenceView) -> JsonValue {
        let head = Seq::empty().push(("id"@, encode_nullable::<String>(v.id)));
        match v.actions {
            ActionsTypeView::Null(items) => JsonValue::Object(
                head.push(("type"@, JsonValue::String("none"@))).push(
                    ("actions"@, encode_all::<NullActionItem>(items)),
                ),
            ),
            ActionsTypeView::Key(items) => JsonValue::Object(
                head.push(("type"@, JsonValue::String("key"@))).push(
                    ("actions"@, encode_all::<KeyActionItem>(items)),
                ),
            ),
            ActionsTypeView::Pointer(parameters, items) => JsonValue::Object(
                head.push(("type"@, JsonValue::String("pointer"@))).push(
                    ("pointerType"@, PointerType::encode(parameters.pointer_type)),
                ).push(("actions"@, encode_all::<PointerActionItem>(items))),
            ),
        }
    }

    open spec fn decode(j: JsonValue) -> Option<ActionSequenceView> {
        match (optional::<String>(j, "id"@), j.get_str("type"@)) {
            (Some(id), Some(kind)) => match actions_of_kind(j, kind) {
                Some(actions) => Some(ActionSequenceView { id, actions }),
                None => None,
            },
            _ => None,
        }
    }

    fn to_json(&self) -> (j: Json) {
        let mut members: Vec<(String, Json)> = Vec::new();
        push_member(&mut members, "id", nullable_to_json::<String>(&self.id));
        match &self.actions {
            ActionsType::Null(items) => {
                push_member(&mut members, "type", Json::string("none"));
                push_member(&mut members, "actions", items_to_json::<NullActionItem>(items));
            },
            ActionsType::Key(items) => {
                push_member(&mut members, "type", Json::string("key"));
                push_member(&mut members, "actions", items_to_json::<KeyActionItem>(items));
            },
            ActionsType::Pointer(parameters, items) => {
                push_member(&mut members, "type", Json::string("pointer"));
                push_member(&mut members, "pointerType", parameters.pointer_type.to_json());
                push_member(&mut members, "actions", items_to_json::<PointerActionItem>(items));
            },
        }
        Json::Object(members)
    }

    fn from_json(j: &Json) -> (r: WebDriverResult<ActionSequence>) {
        let id = decode_optional::<String>(j, "id")?;
        match j.get_str("type") {
            Some(kind) => {
                let actions = decode_actions_of_kind(j, kind)?;
                Ok(ActionSequence { id, actions })
            },
            None => Err(invalid_argument("An action sequence needs a type")),
        }
    }

    proof fn lemma_roundtrip(v: ActionSequenceView) {
        reveal_strlit("id");
        reveal_strlit("type");
        reveal_strlit("actions");
        reveal_strlit("pointerType");
        reveal_strlit("none");
        reveal_strlit("key");
        reveal_strlit("pointer");
        assert("id"@.len() == 2);
        assert("type"@.len() == 4);
        assert("actions"@.len() == 7);
        assert("pointerType"@.len() == 11);
        assert("none"@.len() == 4);
        assert("key"@.len() == 3);
        assert("pointer"@.len() == 7);
        match v.actions {
            ActionsTypeView::Null(items) => {
                lemma_roundtrip_all::<NullActionItem>(items);
            },
            ActionsTypeView::Key(items) => {
                lemma_roundtrip_all::<KeyActionItem>(items);
            },
            ActionsTypeView::Pointer(parameters, items) => {
                PointerType::lemma_roundtrip(parameters.pointer_type);
                lemma_roundtrip_all::<PointerActionItem>(items);
            },
        }
    }
}

/// The kind of a pointer.
#[derive(Clone, Copy, Debug, PartialEq, Eq, Structural)]
pub enum PointerType {
    Mouse,
    Pen,
    Touch,
}

impl View for PointerType {
    type V = PointerType;

    open spec fn view(&self) -> PointerType {
        *self
    }
}

impl Default for PointerType {
    fn default() -> (r: PointerType)
        ensures
            r == PointerType::Mouse,
    {
        PointerType::Mouse
    }
}

impl PointerType {
    /// The string that names this kind on the wire.
    pub open spec fn wire(self) -> Seq<char> {
        match self {
            PointerType::Mouse => "mouse"@,
            PointerType::Pen => "pen"@,
            PointerType::Touch => "touch"@,
        }
    }

    /// The kind that a wire string names.
    pub open spec fn from_wire(s: Seq<char>) -> Option<PointerType> {
        if s == "mouse"@ {
            Some(PointerType::Mouse)
        } else if s == "pen"@ {
            Some(PointerType::Pen)
        } else if s == "touch"@ {
            Some(PointerType::Touch)
        } else {
            None
        }
    }
}

impl Codec for PointerType {
    open spec fn encode(v: PointerType) -> JsonValue {
        JsonValue::String(v.wire())
    }

    open spec fn decode(j: JsonValue) -> Option<PointerType> {
        match j.as_str() {
            Some(s) => Self::from_wire(s),
            None => None,
        }
    }

    fn to_json(&self) -> (j: Json) {
        match self {
            PointerType::Mouse => Json::string("mouse"),
            PointerType::Pen => Json::string("pen"),
            PointerType::Touch => Json::string("touch"),
        }
    }

    fn from_json(j: &Json) -> (r: WebDriverResult<PointerType>) {
        match j.as_str() {
            Some(s) => if str_eq(s, "mouse") {
                Ok(PointerType::Mouse)
            } else if str_eq(s, "pen") {
                Ok(PointerType::Pen)
            } else if str_eq(s, "touch") {
                Ok(PointerType::Touch)
            } else {
                Err(invalid_argument("Unknown pointer type"))
            },
            None => Err(invalid_argument("Expected a pointer type")),
        }
    }

    proof fn lemma_roundtrip(v: PointerType) {
        reveal_strlit("mouse");
        reveal_strlit("pen");
        reveal_strlit("touch");
        assert("mouse"@.len() == 5 && "mouse"@[0] == 'm');
        assert("pen"@.len() == 3);
        assert("touch"@.len() == 5 && "touch"@[0] == 't');
    }
}

/// What a pointer source says of itself.
#[derive(Clone, Copy, Debug, PartialEq, Eq, Structural)]
pub struct PointerActionParameters {
    pub pointer_type: PointerType,
}

impl Default for PointerActionParameters {
    fn default() -> (r: PointerActionParameters)
        ensures
            r.pointer_type == PointerType::Mouse,
    {
        PointerActionParameters { pointer_type: PointerType::Mouse }
    }
}

/// The member `"type"` of an action's object is `tag`.
pub open spec fn has_type(j: JsonValue, tag: Seq<char>) -> bool {
    j.get_str("type"@) == Some(tag)
}

/// Whether the member `"type"` of an action's object is `tag`.
fn check_type(j: &Json, tag: &str) -> (r: bool)
    ensures
        r == has_type(j@, tag@),
{
    match j.get_str("type") {
        Some(t) => str_eq(t, tag),
        None => false,
    }
}

/// An action of a source that has no device.
#[derive(Clone, Copy, Debug, PartialEq, Eq, Structural)]
pub enum NullActionItem {
    General(GeneralAction),
}

impl View for NullActionItem {
    type V = NullActionItem;

    open spec fn view(&self) -> NullActionItem {
        *self
    }
}

impl Codec for NullActionItem {
    open spec fn encode(v: NullActionItem) -> JsonValue {
        match v {
            NullActionItem::General(g) => GeneralAction::encode(g),
        }
    }

    open spec fn decode(j: JsonValue) -> Option<NullActionItem> {
        match GeneralAction::decode(j) {
            Some(g) => Some(NullActionItem::General(g)),
            None => None,
        }
    }

    fn to_json(&self) -> (j: Json) {
        match self {
            NullActionItem::General(g) => g.to_json(),
        }
    }

    fn from_json(j: &Json) -> (r: WebDriverResult<NullActionItem>) {
        let g = GeneralAction::from_json(j)?;
        Ok(NullActionItem::General(g))
    }

    proof fn lemma_roundtrip(v: NullActionItem) {
        match v {
            NullActionItem::General(g) => GeneralAction::lemma_roundtrip(g),
        }
    }
}

/// An action of a keyboard.
#[derive(Clone, Copy, Debug, PartialEq, Eq, Structural)]
pub enum KeyActionItem {
    General(GeneralAction),
    Key(KeyAction),
}

impl View for KeyActionItem {
    type V = KeyActionItem;

    open spec fn view(&self) -> KeyActionItem {
        *self
    }
}

impl Codec for KeyActionItem {
    open spec fn encode(v: KeyActionItem) -> JsonValue {
        match v {
            KeyActionItem::General(g) => GeneralAction::encode(g),
            KeyActionItem::Key(k) => KeyAction::encode(k),
        }
    }

    open spec fn decode(j: JsonValue) -> Option<KeyActionItem> {
        if has_type(j, "pause"@) {
            match GeneralAction::decode(j) {
                Some(g) => Some(KeyActionItem::General(g)),
                None => None,
            }
        } else {
            match KeyAction::decode(j) {
                Some(k) => Some(KeyActionItem::Key(k)),
                None => None,
            }
        }
    }

    fn to_json(&self) -> (j: Json) {
        match self {
            KeyActionItem::General(g) => g.to_json(),
            KeyActionItem::Key(k) => k.to_json(),
        }
    }

    fn from_json(j: &Json) -> (r: WebDriverResult<KeyActionItem>) {
        if check_type(j, "pause") {
            let g = GeneralAction::from_json(j)?;
            Ok(KeyActionItem::General(g))
        } else {
            let k = KeyAction::from_json(j)?;
            Ok(KeyActionItem::Key(k))
        }
    }

    proof fn lemma_roundtrip(v: KeyActionItem) {
        lemma_action_tags();
        match v {
            KeyActionItem::General(g) => GeneralAction::lemma_roundtrip(g),
            KeyActionItem::Key(k) => KeyAction::lemma_roundtrip(k),
        }
    }
}

/// An action of a pointer.
#[derive(Clone, Debug, PartialEq)]
pub enum PointerActionItem {
    General(GeneralAction),
    Pointer(PointerAction),
}

pub ghost enum PointerActionItemView {
    General(GeneralAction),
    Pointer(PointerActionView),
}

impl View for PointerActionItem {
    type V = PointerActionItemView;

    open spec fn view(&self) -> PointerActionItemView {
        match self {
            PointerActionItem::General(g) => PointerActionItemView::General(*g),
            PointerActionItem::Pointer(p) => PointerActionItemView::Pointer(p@),
        }
    }
}

impl Codec for PointerActionItem {
    open spec fn encode(v: PointerActionItemView) -> JsonValue {
        match v {
            PointerActionItemView::General(g) => GeneralAction::encode(g),
            PointerActionItemView::Pointer(p) => PointerAction::encode(p),
        }
    }

    open spec fn decode(j: JsonValue) -> Option<PointerActionItemView> {
        if has_type(j, "pause"@) {
            match GeneralAction::decode(j) {
                Some(g) => Some(PointerActionItemView::General(g)),
                None => None,
            }
        } else {
            match PointerAction::decode(j) {
                Some(p) => Some(PointerActionItemView::Pointer(p)),
                None => None,
            }
        }
    }

    fn to_json(&self) -> (j: Json) {
        match self {
            PointerActionItem::General(g) => g.to_json(),
            PointerActionItem::Pointer(p) => p.to_json(),
        }
    }

    fn from_json(j: &Json) -> (r: WebDriverResult<PointerActionItem>) {
        if check_type(j, "pause") {
            let g = GeneralAction::from_json(j)?;
            Ok(PointerActionItem::General(g))
        } else {
            let p = PointerAction::from_json(j)?;
            Ok(PointerActionItem::Pointer(p))
        }
    }

    proof fn lemma_roundtrip(v: PointerActionItemView) {
        lemma_action_tags();
        match v {
            PointerActionItemView::General(g) => GeneralAction::lemma_roundtrip(g),
            PointerActionItemView::Pointer(p) => PointerAction::lemma_roundtrip(p),
        }
    }
}

/// The tags of the actions differ from each other, and `"type"` from the
/// names of the actions' other members.
pub proof fn lemma_action_tags()
    ensures
        "pause"@ != "keyUp"@,
        "pause"@ != "keyDown"@,
        "pause"@ != "pointerUp"@,
        "pause"@ != "pointerDown"@,
        "pause"@ != "pointerMove"@,
        "pause"@ != "pointerCancel"@,
        "keyUp"@ != "keyDown"@,
        "pointerUp"@ != "pointerDown"@,
        "pointerUp"@ != "pointerMove"@,
        "pointerUp"@ != "pointerCancel"@,
        "pointerDown"@ != "pointerMove"@,
        "pointerDown"@ != "pointerCancel"@,
        "pointerMove"@ != "pointerCancel"@,
        "type"@ != "duration"@,
        "type"@ != "value"@,
        "type"@ != "button"@,
        "type"@ != "element"@,
        "type"@ != "x"@,
        "type"@ != "y"@,
        "duration"@ != "element"@,
        "duration"@ != "x"@,
        "duration"@ != "y"@,
        "element"@ != "x"@,
        "element"@ != "y"@,
        "x"@ != "y"@,
{
    reveal_strlit("pause");
    reveal_strlit("keyUp");
    reveal_strlit("keyDown");
    reveal_strlit("pointerUp");
    reveal_strlit("pointerDown");
    reveal_strlit("pointerMove");
    reveal_strlit("pointerCancel");
    reveal_strlit("type");
    reveal_strlit("duration");
    reveal_strlit("value");
    reveal_strlit("button");
    reveal_strlit("element");
    reveal_strlit("x");
    reveal_strlit("y");
    assert("pause"@.len() == 5 && "pause"@[0] == 'p');
    assert("keyUp"@.len() == 5 && "keyUp"@[0] == 'k');
    assert("keyDown"@.len() == 7);
    assert("pointerUp"@.len() == 9);
    assert("pointerDown"@.len() == 11 && "pointerDown"@[7] == 'D');
    assert("pointerMove"@.len() == 11 && "pointerMove"@[7] == 'M');
    assert("pointerCancel"@.len() == 13);
    assert("type"@.len() == 4);
    assert("duration"@.len() == 8);
    assert("value"@.len() == 5);
    assert("button"@.len() == 6);
    assert("element"@.len() == 7);
    assert("x"@.len() == 1 && "x"@[0] == 'x');
    assert("y"@.len() == 1 && "y"@[0] == 'y');
}

/// An action that every kind of source has.
#[derive(Clone, Copy, Debug, PartialEq, Eq, Structural)]
pub enum GeneralAction {
    Pause(PauseAction),
}

impl View for GeneralAction {
    type V = GeneralAction;

    open spec fn view(&self) -> GeneralAction {
        *self
    }
}

impl Codec for GeneralAction {
    open spec fn encode(v: GeneralAction) -> JsonValue {
        match v {
            GeneralAction::Pause(p) => tagged(PauseAction::encode(p), "pause"@),
        }
    }

    open spec fn decode(j: JsonValue) -> Option<GeneralAction> {
        if has_type(j, "pause"@) {
            match PauseAction::decode(j) {
                Some(p) => Some(GeneralAction::Pause(p)),
                None => None,
            }
        } else {
            None
        }
    }

    fn to_json(&self) -> (j: Json) {
        match self {
            GeneralAction::Pause(p) => with_type(p.to_json(), "pause"),
        }
    }

    fn from_json(j: &Json) -> (r: WebDriverResult<GeneralAction>) {
        if check_type(j, "pause") {
            let p = PauseAction::from_json(j)?;
            Ok(GeneralAction::Pause(p))
        } else {
            Err(invalid_argument("Unknown action"))
        }
    }

    proof fn lemma_roundtrip(v: GeneralAction) {
        lemma_action_tags();
    }
}

/// Doing nothing for a while, in milliseconds.
#[derive(Clone, Copy, Debug, PartialEq, Eq, Structural)]
pub struct PauseAction {
    pub duration: u64,
}

impl View for PauseAction {
    type V = PauseAction;

    open spec fn view(&self) -> PauseAction {
        *self
    }
}

impl Codec for PauseAction {
    open spec fn encode(v: PauseAction) -> JsonValue {
        JsonValue::Object(seq![("duration"@, u64::encode(v.duration))])
    }

    open spec fn decode(j: JsonValue) -> Option<PauseAction> {
        match required::<u64>(j, "duration"@) {
            Some(duration) => Some(PauseAction { duration }),
            None => None,
        }
    }

    fn to_json(&self) -> (j: Json) {
        let mut members: Vec<(String, Json)> = Vec::new();
        push_member(&mut members, "duration", self.duration.to_json());
        Json::Object(members)
    }

    fn from_json(j: &Json) -> (r: WebDriverResult<PauseAction>) {
        let duration = decode_required::<u64>(j, "duration")?;
        Ok(PauseAction { duration })
    }

    proof fn lemma_roundtrip(v: PauseAction) {
    }
}

/// A key going up or down.
#[derive(Clone, Copy, Debug, PartialEq, Eq, Structural)]
pub enum KeyAction {
    Up(KeyUpAction),
    Down(KeyDownAction),
}

impl View for KeyAction {
    type V = KeyAction;

    open spec fn view(&self) -> KeyAction {
        *self
    }
}

impl Codec for KeyAction {
    open spec fn encode(v: KeyAction) -> JsonValue {
        match v {
            KeyAction::Up(a) => tagged(KeyUpAction::encode(a), "keyUp"@),
            KeyAction::Down(a) => tagged(KeyDownAction::encode(a), "keyDown"@),
        }
    }

    open spec fn decode(j: JsonValue) -> Option<KeyAction> {
        if has_type(j, "keyUp"@) {
            match KeyUpAction::decode(j) {
                Some(a) => Some(KeyAction::Up(a)),
                None => None,
            }
        } else if has_type(j, "keyDown"@) {
            match KeyDownAction::decode(j) {
                Some(a) => Some(KeyAction::Down(a)),
                None => None,
            }
        } else {
            None
        }
    }

    fn to_json(&self) -> (j: Json) {
        match self {
            KeyAction::Up(a) => with_type(a.to_json(), "keyUp"),
            KeyAction::Down(a) => with_type(a.to_json(), "keyDown"),
        }
    }

    fn from_json(j: &Json) -> (r: WebDriverResult<KeyAction>) {
        if check_type(j, "keyUp") {
            let a = KeyUpAction::from_json(j)?;
            Ok(KeyAction::Up(a))
        } else if check_type(j, "keyDown") {
            let a = KeyDownAction::from_json(j)?;
            Ok(KeyAction::Down(a))
        } else {
            Err(invalid_argument("Unknown key action"))
        }
    }

    proof fn lemma_roundtrip(v: KeyAction) {
        lemma_action_tags();
    }
}

/// The key that goes up.
#[derive(Clone, Copy, Debug, PartialEq, Eq, Structural)]
pub struct KeyUpAction {
    pub value: char,
}

impl View for KeyUpAction {
    type V = KeyUpAction;

    open spec fn view(&self) -> KeyUpAction {
        *self
    }
}

impl Codec for KeyUpAction {
    open spec fn encode(v: KeyUpAction) -> JsonValue {
        JsonValue::Object(seq![("value"@, char::encode(v.value))])
    }

    open spec fn decode(j: JsonValue) -> Option<KeyUpAction> {
        match required::<char>(j, "value"@) {
            Some(value) => Some(KeyUpAction { value }),
            None => None,
        }
    }

    fn to_json(&self) -> (j: Json) {
        let mut members: Vec<(String, Json)> = Vec::new();
        push_member(&mut members, "value", self.value.to_json());
        Json::Object(members)
    }

    fn from_json(j: &Json) -> (r: WebDriverResult<KeyUpAction>) {
        let value = decode_required::<char>(j, "value")?;
        Ok(KeyUpAction { value })
    }

    proof fn lemma_roundtrip(v: KeyUpAction) {
    }
}

/// The key that goes down.
#[derive(Clone, Copy, Debug, PartialEq, Eq, Structural)]
pub struct KeyDownAction {
    pub value: char,
}

impl View for KeyDownAction {
    type V = KeyDownAction;

    open spec fn view(&self) -> KeyDownAction {
        *self
    }
}

impl Codec for KeyDownAction {
    open spec fn encode(v: KeyDownAction) -> JsonValue {
        JsonValue::Object(seq![("value"@, char::encode(v.value))])
    }

    open spec fn decode(j: JsonValue) -> Option<KeyDownAction> {
        match required::<char>(j, "value"@) {
            Some(value) => Some(KeyDownAction { value }),
            None => None,
        }
    }

    fn to_json(&self) -> (j: Json) {
        let mut members: Vec<(String, Json)> = Vec::new();
        push_member(&mut members, "value", self.value.to_json());
        Json::Object(members)
    }

    fn from_json(j: &Json) -> (r: WebDriverResult<KeyDownAction>) {
        let value = decode_required::<char>(j, "value")?;
        Ok(KeyDownAction { value })
    }

    proof fn lemma_roundtrip(v: KeyDownAction) {
    }
}

/// What a pointer does.
#[derive(Clone, Debug, PartialEq)]
pub enum PointerAction {
    Up(PointerUpAction),
    Down(PointerDownAction),
    Move(PointerMoveAction),
    Cancel,
}

pub ghost enum PointerActionView {
    Up(PointerUpAction),
    Down(PointerDownAction),
    Move(PointerMoveActionView),
    Cancel,
}

impl View for PointerAction {
    type V = PointerActionView;

    open spec fn view(&self) -> PointerActionView {
        match self {
            PointerAction::Up(a) => PointerActionView::Up(*a),
            PointerAction::Down(a) => PointerActionView::Down(*a),
            PointerAction::Move(a) => PointerActionView::Move(a@),
            PointerAction::Cancel => PointerActionView::Cancel,
        }
    }
}

impl Codec for PointerAction {
    open spec fn encode(v: PointerActionView) -> JsonValue {
        match v {
            PointerActionView::Up(a) => tagged(PointerUpAction::encode(a), "pointerUp"@),
            PointerActionView::Down(a) => tagged(PointerDownAction::encode(a), "pointerDown"@),
            PointerActionView::Move(a) => tagged(PointerMoveAction::encode(a), "pointerMove"@),
            PointerActionView::Cancel => tagged(
                JsonValue::Object(Seq::empty()),
                "pointerCancel"@,
            ),
        }
    }

    open spec fn decode(j: JsonValue) -> Option<PointerActionView> {
        if has_type(j, "pointerUp"@) {
            match PointerUpAction::decode(j) {
                Some(a) => Some(PointerActionView::Up(a)),
                None => None,
            }
        } else if has_type(j, "pointerDown"@) {
            match PointerDownAction::decode(j) {
                Some(a) => Some(PointerActionView::Down(a)),
                None => None,
            }
        } else if has_type(j, "pointerMove"@) {
            match PointerMoveAction::decode(j) {
                Some(a) => Some(PointerActionView::Move(a)),
                None => None,
            }
        } else if has_type(j, "pointerCancel"@) {
            Some(PointerActionView::Cancel)
        } else {
            None
        }
    }

    fn to_json(&self) -> (j: Json) {
        match self {
            PointerAction::Up(a) => with_type(a.to_json(), "pointerUp"),
            PointerAction::Down(a) => with_type(a.to_json(), "pointerDown"),
            PointerAction::Move(a) => with_type(a.to_json(), "pointerMove"),
            PointerAction::Cancel => with_type(Json::Object(Vec::new()), "pointerCancel"),
        }
    }

    fn from_json(j: &Json) -> (r: WebDriverResult<PointerAction>) {
        if check_type(j, "pointerUp") {
            let a = PointerUpAction::from_json(j)?;
            Ok(PointerAction::Up(a))
        } else if check_type(j, "pointerDown") {
            let a = PointerDownAction::from_json(j)?;
            Ok(PointerAction::Down(a))
        } else if check_type(j, "pointerMove") {
            let a = PointerMoveAction::from_json(j)?;
            Ok(PointerAction::Move(a))
        } else if check_type(j, "pointerCancel") {
            Ok(PointerAction::Cancel)
        } else {
            Err(invalid_argument("Unknown pointer action"))
        }
    }

    proof fn lemma_roundtrip(v: PointerActionView) {
        lemma_action_tags();
        if let PointerActionView::Move(a) = v {
            PointerMoveAction::lemma_roundtrip(a);
            if let Some(e) = a.element {
                WebElement::lemma_roundtrip(e);
            }
        }
    }
}

/// The button that goes up.
#[derive(Clone, Copy, Debug, PartialEq, Eq, Structural)]
pub struct PointerUpAction {
    pub button: u64,
}

impl View for PointerUpAction {
    type V = PointerUpAction;

    open spec fn view(&self) -> PointerUpAction {
        *self
    }
}

impl Codec for PointerUpAction {
    open spec fn encode(v: PointerUpAction) -> JsonValue {
        JsonValue::Object(seq![("button"@, u64::encode(v.button))])
    }

    open spec fn decode(j: JsonValue) -> Option<PointerUpAction> {
        match required::<u64>(j, "button"@) {
            Some(button) => Some(PointerUpAction { button }),
            None => None,
        }
    }

    fn to_json(&self) -> (j: Json) {
        let mut members: Vec<(String, Json)> = Vec::new();
        push_member(&mut members, "button", self.button.to_json());
        Json::Object(members)
    }

    fn from_json(j: &Json) -> (r: WebDriverResult<PointerUpAction>) {
        let button = decode_required::<u64>(j, "button")?;
        Ok(PointerUpAction { button })
    }

    proof fn lemma_roundtrip(v: PointerUpAction) {
    }
}

/// The button that goes down.
#[derive(Clone, Copy, Debug, PartialEq, Eq, Structural)]
pub struct PointerDownAction {
    pub button: u64,
}

impl View for PointerDownAction {
    type V = PointerDownAction;

    open spec fn view(&self) -> PointerDownAction {
        *self
    }
}

impl Codec for PointerDownAction {
    open spec fn encode(v: PointerDownAction) -> JsonValue {
        JsonValue::Object(seq![("button"@, u64::encode(v.button))])
    }

    open spec fn decode(j: JsonValue) -> Option<PointerDownAction> {
        match required::<u64>(j, "button"@) {
            Some(button) => Some(PointerDownAction { button }),
            None => None,
        }
    }

    fn to_json(&self) -> (j: Json) {
        let mut members: Vec<(String, Json)> = Vec::new();
        push_member(&mut members, "button", self.button.to_json());
        Json::Object(members)
    }

    fn from_json(j: &Json) -> (r: WebDriverResult<PointerDownAction>) {
        let button = decode_required::<u64>(j, "button")?;
        Ok(PointerDownAction { button })
    }

    proof fn lemma_roundtrip(v: PointerDownAction) {
    }
}

/// Where a pointer moves, and how long the move takes.
#[derive(Clone, Debug, PartialEq)]
pub struct PointerMoveAction {
    pub duration: Option<u64>,
    pub element: Option<WebElement>,
    pub x: Option<i64>,
    pub y: Option<i64>,
}

pub ghost struct PointerMoveActionView {
    pub duration: Option<u64>,
    pub element: Option<WebElementView>,
    pub x: Option<i64>,
    pub y: Option<i64>,
}

impl View for PointerMoveAction {
    type V = PointerMoveActionView;

    open spec fn view(&self) -> PointerMoveActionView {
        PointerMoveActionView {
            duration: opt_view(self.duration),
            element: opt_view(self.element),
            x: opt_view(self.x),
            y: opt_view(self.y),
        }
    }
}

impl Codec for PointerMoveAction {
    /// Members without a value are left out.
    open spec fn encode(v: PointerMoveActionView) -> JsonValue {
        let with_duration = push_present::<u64>(Seq::empty(), "duration"@, v.duration);
        let with_element = push_present::<WebElement>(with_duration, "element"@, v.element);
        let with_x = push_present::<i64>(with_element, "x"@, v.x);
        JsonValue::Object(push_present::<i64>(with_x, "y"@, v.y))
    }

    open spec fn decode(j: JsonValue) -> Option<PointerMoveActionView> {
        if j is Object {
            match (
                optional::<u64>(j, "duration"@),
                optional::<WebElement>(j, "element"@),
                optional::<i64>(j, "x"@),
                optional::<i64>(j, "y"@),
            ) {
                (Some(duration), Some(element), Some(x), Some(y)) => Some(
                    PointerMoveActionView { duration, element, x, y },
                ),
                _ => None,
            }
        } else {
            None
        }
    }

    fn to_json(&self) -> (j: Json) {
        let mut members: Vec<(String, Json)> = Vec::new();
        push_present_member::<u64>(&mut members, "duration", &self.duration);
        push_present_member::<WebElement>(&mut members, "element", &self.element);
        push_present_member::<i64>(&mut members, "x", &self.x);
        push_present_member::<i64>(&mut members, "y", &self.y);
        Json::Object(members)
    }

    fn from_json(j: &Json) -> (r: WebDriverResult<PointerMoveAction>) {
        if j.as_object().is_none() {
            return Err(invalid_argument("Expected an object"));
        }
        let duration = decode_optional::<u64>(j, "duration")?;
        let element = decode_optional::<WebElement>(j, "element")?;
        let x = decode_optional::<i64>(j, "x")?;
        let y = decode_optional::<i64>(j, "y")?;
        Ok(PointerMoveAction { duration, element, x, y })
    }

    proof fn lemma_roundtrip(v: PointerMoveActionView) {
        lemma_action_tags();
        if let Some(e) = v.element {
            WebElement::lemma_roundtrip(e);
        }
    }
}

} // verus!
