use webdriver::error::ErrorStatus;
use webdriver::json::{Json, Number};
use webdriver::protocol::codec::{
    decode_optional, decode_required, items_from_json, items_to_json, with_type, Codec,
};
use webdriver::protocol::common::{
    Date, FrameId, LocatorStrategy, WebElement, ELEMENT_KEY,
};
use webdriver::protocol::parameters::{
    ActionSequence, ActionsParameters, ActionsType, AddCookieParameters, GeneralAction,
    GetNamedCookieParameters, GetParameters, JavascriptCommandParameters, KeyAction,
    KeyActionItem, KeyDownAction, KeyUpAction, LocatorParameters, NewSessionParameters,
    NullActionItem, PauseAction, PointerAction, PointerActionItem, PointerActionParameters,
    PointerDownAction, PointerMoveAction, PointerType, PointerUpAction, SendKeysParameters,
    SwitchToFrameParameters, SwitchToWindowParameters, TakeScreenshotParameters,
    TimeoutsParameters, WindowPositionParameters, WindowSizeParameters,
};
use webdriver::protocol::response::{
    Cookie, CookieResponse, ElementRectResponse, NewSessionResponse, Response, ResponseValue,
    WindowPositionResponse, WindowSizeResponse,
};

fn round_trip<T: Codec + PartialEq + std::fmt::Debug>(value: T) {
    let json = value.to_json();
    assert_eq!(T::from_json(&json).unwrap(), value);
    let text = json.to_text();
    assert_eq!(T::from_json(&Json::parse(&text).unwrap()).unwrap(), value);
}

fn decode<T: Codec>(text: &str) -> Result<T, ErrorStatus> {
    T::from_json(&Json::parse(text).unwrap()).map_err(|e| e.status)
}

fn element(id: &str) -> WebElement {
    WebElement::new(id.to_string())
}

#[test]
fn element_key_is_the_mandated_one() {
    assert_eq!(ELEMENT_KEY, "element-6066-11e4-a52e-4f735466cecf");
    assert_eq!(
        element("e1").to_json().to_text(),
        r#"{"element-6066-11e4-a52e-4f735466cecf":"e1"}"#
    );
    assert_eq!(
        element("e1").to_json(),
        Json::Object(vec![(ELEMENT_KEY.to_string(), Json::string("e1"))])
    );
}

#[test]
fn element_decodes_only_under_its_key() {
    assert_eq!(
        decode::<WebElement>(r#"{"element-6066-11e4-a52e-4f735466cecf":"e1"}"#),
        Ok(element("e1"))
    );
    assert_eq!(decode::<WebElement>(r#"{"ELEMENT":"e1"}"#), Err(ErrorStatus::InvalidArgument));
    assert_eq!(
        decode::<WebElement>(r#"{"element-6066-11e4-a52e-4f735466cecf":7}"#),
        Err(ErrorStatus::InvalidArgument)
    );
    assert_eq!(decode::<WebElement>(r#""e1""#), Err(ErrorStatus::InvalidArgument));
}

#[test]
fn element_id_round_trips_byte_for_byte() {
    round_trip(element(""));
    round_trip(element("a \"b\" \\ \u{1F600} \n"));
}

#[test]
fn date_is_its_seconds() {
    assert_eq!(Date::new(17), Date(17));
    assert_eq!(Date(17).to_json(), Json::unsigned(17));
    assert_eq!(decode::<Date>("17"), Ok(Date(17)));
    assert_eq!(decode::<Date>("-1"), Err(ErrorStatus::InvalidArgument));
    round_trip(Date(u64::MAX));
}

#[test]
fn frame_id_forms() {
    assert_eq!(decode::<FrameId>("null"), Ok(FrameId::Null));
    assert_eq!(decode::<FrameId>("3"), Ok(FrameId::Short(3)));
    assert_eq!(decode::<FrameId>("65535"), Ok(FrameId::Short(65535)));
    assert_eq!(decode::<FrameId>("65536"), Err(ErrorStatus::InvalidArgument));
    assert_eq!(decode::<FrameId>("-1"), Err(ErrorStatus::InvalidArgument));
    assert_eq!(decode::<FrameId>("1.5"), Err(ErrorStatus::InvalidArgument));
    assert_eq!(decode::<FrameId>(r#""top""#), Err(ErrorStatus::InvalidArgument));
    assert_eq!(
        decode::<FrameId>(r#"{"element-6066-11e4-a52e-4f735466cecf":"e1"}"#),
        Ok(FrameId::Element(element("e1")))
    );
    assert_eq!(decode::<FrameId>(r#"{}"#), Err(ErrorStatus::InvalidArgument));
    assert_eq!(FrameId::Short(3).to_json().to_text(), "3");
    assert_eq!(FrameId::Null.to_json().to_text(), "null");
    round_trip(FrameId::Null);
    round_trip(FrameId::Short(0));
    round_trip(FrameId::Element(element("x")));
}

#[test]
fn switch_to_frame_bodies() {
    assert_eq!(
        decode::<SwitchToFrameParameters>(r#"{"id": null}"#),
        Ok(SwitchToFrameParameters { id: FrameId::Null })
    );
    assert_eq!(
        decode::<SwitchToFrameParameters>(r#"{"id": 3}"#),
        Ok(SwitchToFrameParameters { id: FrameId::Short(3) })
    );
    assert_eq!(
        decode::<SwitchToFrameParameters>(
            r#"{"id": {"element-6066-11e4-a52e-4f735466cecf":"e1"}}"#
        ),
        Ok(SwitchToFrameParameters { id: FrameId::Element(element("e1")) })
    );
    assert_eq!(decode::<SwitchToFrameParameters>("{}"), Err(ErrorStatus::InvalidArgument));
    round_trip(SwitchToFrameParameters { id: FrameId::Short(9) });
}

#[test]
fn locator_strategy_wire_strings() {
    let all = [
        (LocatorStrategy::CSSSelector, "css selector"),
        (LocatorStrategy::LinkText, "link text"),
        (LocatorStrategy::PartialLinkText, "partial link text"),
        (LocatorStrategy::XPath, "xpath"),
    ];
    for (strategy, wire) in all.iter() {
        assert_eq!(strategy.as_str(), *wire);
        assert_eq!(LocatorStrategy::parse(wire), Some(*strategy));
        assert_eq!(strategy.to_json(), Json::string(wire));
        round_trip(*strategy);
    }
    assert_eq!(LocatorStrategy::parse("id"), None);
    assert_eq!(decode::<LocatorStrategy>(r#""css""#), Err(ErrorStatus::InvalidArgument));
    assert_eq!(decode::<LocatorStrategy>("1"), Err(ErrorStatus::InvalidArgument));
}

#[test]
fn locator_parameters() {
    assert_eq!(
        decode::<LocatorParameters>(r##"{"using":"css selector","value":"#x"}"##),
        Ok(LocatorParameters { using: LocatorStrategy::CSSSelector, value: "#x".to_string() })
    );
    assert_eq!(
        decode::<LocatorParameters>(r#"{"using":"xpath"}"#),
        Err(ErrorStatus::InvalidArgument)
    );
    assert_eq!(
        LocatorParameters { using: LocatorStrategy::XPath, value: "//a".to_string() }
            .to_json()
            .to_text(),
        r#"{"using":"xpath","value":"//a"}"#
    );
    round_trip(LocatorParameters { using: LocatorStrategy::LinkText, value: String::new() });
}

#[test]
fn new_session_parameters() {
    let both = decode::<NewSessionParameters>(
        r#"{"desiredCapabilities": {"a": 1}, "requiredCapabilities": {"b": true}}"#,
    )
    .unwrap();
    assert_eq!(both.desired, vec![("a".to_string(), Json::unsigned(1))]);
    assert_eq!(both.required, vec![("b".to_string(), Json::Bool(true))]);
    let none = decode::<NewSessionParameters>("{}").unwrap();
    assert_eq!(none, NewSessionParameters { desired: vec![], required: vec![] });
    assert_eq!(
        decode::<NewSessionParameters>(r#"{"desiredCapabilities": {}, "requiredCapabilities": {}}"#),
        Ok(NewSessionParameters { desired: vec![], required: vec![] })
    );
    assert_eq!(
        decode::<NewSessionParameters>(r#"{"desiredCapabilities": 1}"#),
        Err(ErrorStatus::InvalidArgument)
    );
    assert_eq!(decode::<NewSessionParameters>("[]"), Err(ErrorStatus::InvalidArgument));
    assert_eq!(
        both.to_json().to_text(),
        r#"{"desiredCapabilities":{"a":1},"requiredCapabilities":{"b":true}}"#
    );
    round_trip(both);
}

#[test]
fn capabilities_get_prefers_required() {
    let parameters = NewSessionParameters {
        desired: vec![
            ("browser".to_string(), Json::string("d")),
            ("only_desired".to_string(), Json::unsigned(1)),
        ],
        required: vec![("browser".to_string(), Json::string("r"))],
    };
    assert_eq!(parameters.get("browser"), Some(&Json::string("r")));
    assert_eq!(parameters.get("only_desired"), Some(&Json::unsigned(1)));
    assert_eq!(parameters.get("missing"), None);
}

#[test]
fn capabilities_consume_removes_from_both() {
    let mut parameters = NewSessionParameters {
        desired: vec![
            ("browser".to_string(), Json::string("d")),
            ("other".to_string(), Json::unsigned(1)),
        ],
        required: vec![("browser".to_string(), Json::string("r"))],
    };
    assert_eq!(parameters.consume("browser"), Some(Json::string("r")));
    assert_eq!(parameters.desired, vec![("other".to_string(), Json::unsigned(1))]);
    assert_eq!(parameters.required, vec![]);
    assert_eq!(parameters.consume("browser"), None);
    assert_eq!(parameters.consume("other"), Some(Json::unsigned(1)));
    assert_eq!(parameters.desired, vec![]);
}

#[test]
fn simple_records_round_trip() {
    round_trip(GetParameters { url: "http://example.org/".to_string() });
    round_trip(TimeoutsParameters {
        type_: "implicit".to_string(),
        ms: Number::Float("1000.5".to_string()),
    });
    round_trip(TimeoutsParameters { type_: "script".to_string(), ms: Number::PosInt(30000) });
    round_trip(WindowSizeParameters { width: 800, height: 600 });
    round_trip(WindowPositionParameters { x: -10, y: 20 });
    round_trip(SwitchToWindowParameters { handle: "w1".to_string() });
    round_trip(SendKeysParameters { value: vec!['a', '\u{E007}', 'ß'] });
    round_trip(SendKeysParameters { value: vec![] });
    round_trip(JavascriptCommandParameters { script: "return 1".to_string(), args: None });
    round_trip(JavascriptCommandParameters {
        script: "return arguments[0]".to_string(),
        args: Some(vec![Json::unsigned(1), Json::Array(vec![Json::string("x")])]),
    });
    round_trip(GetNamedCookieParameters { name: None });
    round_trip(GetNamedCookieParameters { name: Some("sid".to_string()) });
    round_trip(TakeScreenshotParameters { element: None });
    round_trip(TakeScreenshotParameters { element: Some(element("e")) });
}

#[test]
fn simple_records_exact_encodings() {
    assert_eq!(
        GetParameters { url: "u".to_string() }.to_json().to_text(),
        r#"{"url":"u"}"#
    );
    assert_eq!(
        TimeoutsParameters { type_: "implicit".to_string(), ms: Number::PosInt(5) }
            .to_json()
            .to_text(),
        r#"{"ms":5,"type":"implicit"}"#
    );
    assert_eq!(
        WindowSizeParameters { width: 1, height: 2 }.to_json().to_text(),
        r#"{"height":2,"width":1}"#
    );
    assert_eq!(
        WindowPositionParameters { x: -1, y: 2 }.to_json().to_text(),
        r#"{"x":-1,"y":2}"#
    );
    assert_eq!(
        SendKeysParameters { value: vec!['a', 'b'] }.to_json().to_text(),
        r#"{"value":["a","b"]}"#
    );
    assert_eq!(
        JavascriptCommandParameters { script: "s".to_string(), args: None }.to_json().to_text(),
        r#"{"args":null,"script":"s"}"#
    );
    assert_eq!(
        GetNamedCookieParameters { name: None }.to_json().to_text(),
        r#"{"name":null}"#
    );
    assert_eq!(
        TakeScreenshotParameters { element: None }.to_json().to_text(),
        r#"{"element":null}"#
    );
}

#[test]
fn simple_records_reject_wrong_shapes() {
    assert_eq!(decode::<GetParameters>("{}"), Err(ErrorStatus::InvalidArgument));
    assert_eq!(decode::<GetParameters>(r#"{"url": 1}"#), Err(ErrorStatus::InvalidArgument));
    assert_eq!(
        decode::<TimeoutsParameters>(r#"{"type": "x", "ms": "1"}"#),
        Err(ErrorStatus::InvalidArgument)
    );
    assert_eq!(
        decode::<WindowSizeParameters>(r#"{"width": -1, "height": 1}"#),
        Err(ErrorStatus::InvalidArgument)
    );
    assert_eq!(
        decode::<WindowSizeParameters>(r#"{"width": 1}"#),
        Err(ErrorStatus::InvalidArgument)
    );
    assert_eq!(
        decode::<WindowPositionParameters>(r#"{"x": 1.5, "y": 1}"#),
        Err(ErrorStatus::InvalidArgument)
    );
    assert_eq!(
        decode::<SendKeysParameters>(r#"{"value": ["ab"]}"#),
        Err(ErrorStatus::InvalidArgument)
    );
    assert_eq!(
        decode::<SendKeysParameters>(r#"{"value": "a"}"#),
        Err(ErrorStatus::InvalidArgument)
    );
    assert_eq!(
        decode::<JavascriptCommandParameters>(r#"{"script": "s", "args": 1}"#),
        Err(ErrorStatus::InvalidArgument)
    );
    assert_eq!(decode::<GetNamedCookieParameters>("1"), Err(ErrorStatus::InvalidArgument));
    assert_eq!(
        decode::<GetNamedCookieParameters>("{}"),
        Ok(GetNamedCookieParameters { name: None })
    );
    assert_eq!(
        decode::<TakeScreenshotParameters>(r#"{"element": 1}"#),
        Err(ErrorStatus::InvalidArgument)
    );
}

#[test]
fn window_position_takes_negative_coordinates() {
    assert_eq!(
        decode::<WindowPositionParameters>(r#"{"x": -5, "y": -7}"#),
        Ok(WindowPositionParameters { x: -5, y: -7 })
    );
}

#[test]
fn cookie_leaves_out_what_it_has_not() {
    let bare = AddCookieParameters {
        name: "n".to_string(),
        value: "v".to_string(),
        path: None,
        domain: None,
        expiry: None,
        secure: false,
        httpOnly: true,
    };
    assert_eq!(
        bare.to_json().to_text(),
        r#"{"httpOnly":true,"name":"n","secure":false,"value":"v"}"#
    );
    round_trip(bare);
    let full = AddCookieParameters {
        name: "n".to_string(),
        value: "v".to_string(),
        path: Some("/".to_string()),
        domain: Some("example.org".to_string()),
        expiry: Some(Date(1700000000)),
        secure: true,
        httpOnly: false,
    };
    assert_eq!(
        full.to_json().to_text(),
        r#"{"domain":"example.org","expiry":1700000000,"httpOnly":false,"name":"n","path":"/","secure":true,"value":"v"}"#
    );
    round_trip(full);
    assert_eq!(
        decode::<AddCookieParameters>(
            r#"{"name":"n","value":"v","path":null,"secure":false,"httpOnly":false}"#
        )
        .unwrap()
        .path,
        None
    );
    assert_eq!(
        decode::<AddCookieParameters>(r#"{"name":"n","value":"v","secure":false}"#),
        Err(ErrorStatus::InvalidArgument)
    );
    assert_eq!(
        decode::<AddCookieParameters>(
            r#"{"name":"n","value":"v","expiry":"soon","secure":false,"httpOnly":false}"#
        ),
        Err(ErrorStatus::InvalidArgument)
    );
}

#[test]
fn pointer_types() {
    let all = [(PointerType::Mouse, "mouse"), (PointerType::Pen, "pen"), (PointerType::Touch, "touch")];
    for (kind, wire) in all.iter() {
        assert_eq!(kind.to_json(), Json::string(wire));
        round_trip(*kind);
    }
    assert_eq!(decode::<PointerType>(r#""finger""#), Err(ErrorStatus::InvalidArgument));
    assert_eq!(PointerType::default(), PointerType::Mouse);
    assert_eq!(PointerActionParameters::default().pointer_type, PointerType::Mouse);
}

#[test]
fn action_items_exact_encodings() {
    assert_eq!(
        GeneralAction::Pause(PauseAction { duration: 5 }).to_json().to_text(),
        r#"{"duration":5,"type":"pause"}"#
    );
    assert_eq!(
        KeyAction::Up(KeyUpAction { value: 'a' }).to_json().to_text(),
        r#"{"type":"keyUp","value":"a"}"#
    );
    assert_eq!(
        KeyAction::Down(KeyDownAction { value: 'b' }).to_json().to_text(),
        r#"{"type":"keyDown","value":"b"}"#
    );
    assert_eq!(
        PointerAction::Up(PointerUpAction { button: 1 }).to_json().to_text(),
        r#"{"button":1,"type":"pointerUp"}"#
    );
    assert_eq!(
        PointerAction::Down(PointerDownAction { button: 0 }).to_json().to_text(),
        r#"{"button":0,"type":"pointerDown"}"#
    );
    assert_eq!(PointerAction::Cancel.to_json().to_text(), r#"{"type":"pointerCancel"}"#);
    assert_eq!(
        PointerAction::Move(PointerMoveAction {
            duration: Some(100),
            element: None,
            x: Some(10),
            y: Some(20),
        })
        .to_json()
        .to_text(),
        r#"{"duration":100,"type":"pointerMove","x":10,"y":20}"#
    );
    assert_eq!(
        PointerAction::Move(PointerMoveAction {
            duration: None,
            element: Some(element("e")),
            x: None,
            y: None,
        })
        .to_json()
        .to_text(),
        r#"{"element":{"element-6066-11e4-a52e-4f735466cecf":"e"},"type":"pointerMove"}"#
    );
    assert_eq!(
        with_type(Json::Object(vec![]), "t"),
        Json::Object(vec![("type".to_string(), Json::string("t"))])
    );
    assert_eq!(with_type(Json::Null, "t"), Json::Null);
}

#[test]
fn action_items_round_trip() {
    round_trip(PauseAction { duration: 0 });
    round_trip(KeyUpAction { value: 'x' });
    round_trip(KeyDownAction { value: 'x' });
    round_trip(PointerUpAction { button: 2 });
    round_trip(PointerDownAction { button: 2 });
    round_trip(NullActionItem::General(GeneralAction::Pause(PauseAction { duration: 1 })));
    round_trip(KeyActionItem::General(GeneralAction::Pause(PauseAction { duration: 1 })));
    round_trip(KeyActionItem::Key(KeyAction::Up(KeyUpAction { value: 'k' })));
    round_trip(KeyActionItem::Key(KeyAction::Down(KeyDownAction { value: '\u{E008}' })));
    round_trip(PointerActionItem::General(GeneralAction::Pause(PauseAction { duration: 1 })));
    round_trip(PointerActionItem::Pointer(PointerAction::Cancel));
    round_trip(PointerActionItem::Pointer(PointerAction::Up(PointerUpAction { button: 0 })));
    round_trip(PointerActionItem::Pointer(PointerAction::Down(PointerDownAction { button: 0 })));
    round_trip(PointerActionItem::Pointer(PointerAction::Move(PointerMoveAction {
        duration: None,
        element: None,
        x: None,
        y: None,
    })));
    round_trip(PointerActionItem::Pointer(PointerAction::Move(PointerMoveAction {
        duration: Some(1),
        element: Some(element("e")),
        x: Some(-1),
        y: Some(i64::MAX),
    })));
}

#[test]
fn action_items_reject_unknown_types() {
    assert_eq!(decode::<GeneralAction>(r#"{"type":"wait","duration":1}"#), Err(ErrorStatus::InvalidArgument));
    assert_eq!(decode::<GeneralAction>(r#"{"duration":1}"#), Err(ErrorStatus::InvalidArgument));
    assert_eq!(decode::<GeneralAction>(r#"{"type":"pause"}"#), Err(ErrorStatus::InvalidArgument));
    assert_eq!(decode::<KeyAction>(r#"{"type":"keyUp","value":"ab"}"#), Err(ErrorStatus::InvalidArgument));
    assert_eq!(decode::<KeyActionItem>(r#"{"type":"pointerUp","button":1}"#), Err(ErrorStatus::InvalidArgument));
    assert_eq!(decode::<NullActionItem>(r#"{"type":"keyUp","value":"a"}"#), Err(ErrorStatus::InvalidArgument));
    assert_eq!(decode::<PointerAction>(r#"{"type":"pointerUp","button":-1}"#), Err(ErrorStatus::InvalidArgument));
    assert_eq!(decode::<PointerAction>(r#"{"type":"pointerMove","x":"1"}"#), Err(ErrorStatus::InvalidArgument));
    assert_eq!(decode::<PointerActionItem>(r#"{"type":"keyDown","value":"a"}"#), Err(ErrorStatus::InvalidArgument));
    assert_eq!(decode::<PointerMoveAction>("[]"), Err(ErrorStatus::InvalidArgument));
}

fn pointer_sequence() -> ActionSequence {
    ActionSequence {
        id: Some("mouse1".to_string()),
        actions: ActionsType::Pointer(
            PointerActionParameters { pointer_type: PointerType::Mouse },
            vec![
                PointerActionItem::Pointer(PointerAction::Move(PointerMoveAction {
                    duration: Some(100),
                    element: None,
                    x: Some(10),
                    y: Some(20),
                })),
                PointerActionItem::Pointer(PointerAction::Down(PointerDownAction { button: 0 })),
            ],
        ),
    }
}

#[test]
fn pointer_sequence_round_trips_byte_equal() {
    let text = r#"{"actions":[{"actions":[{"duration":100,"type":"pointerMove","x":10,"y":20},{"button":0,"type":"pointerDown"}],"id":"mouse1","pointerType":"mouse","type":"pointer"}]}"#;
    let decoded = decode::<ActionsParameters>(text).unwrap();
    assert_eq!(decoded, ActionsParameters { actions: vec![pointer_sequence()] });
    assert_eq!(decoded.to_json().to_text(), text);
    round_trip(decoded);
}

#[test]
fn action_sequences_of_each_kind() {
    let none = ActionSequence {
        id: None,
        actions: ActionsType::Null(vec![NullActionItem::General(GeneralAction::Pause(
            PauseAction { duration: 3 },
        ))]),
    };
    assert_eq!(
        none.to_json().to_text(),
        r#"{"actions":[{"duration":3,"type":"pause"}],"id":null,"type":"none"}"#
    );
    round_trip(none);
    let key = ActionSequence {
        id: Some("kbd".to_string()),
        actions: ActionsType::Key(vec![
            KeyActionItem::Key(KeyAction::Down(KeyDownAction { value: 'a' })),
            KeyActionItem::General(GeneralAction::Pause(PauseAction { duration: 1 })),
            KeyActionItem::Key(KeyAction::Up(KeyUpAction { value: 'a' })),
        ]),
    };
    assert_eq!(
        key.to_json().to_text(),
        r#"{"actions":[{"type":"keyDown","value":"a"},{"duration":1,"type":"pause"},{"type":"keyUp","value":"a"}],"id":"kbd","type":"key"}"#
    );
    round_trip(key);
    let touch = ActionSequence {
        id: Some("finger".to_string()),
        actions: ActionsType::Pointer(
            PointerActionParameters { pointer_type: PointerType::Touch },
            vec![],
        ),
    };
    round_trip(touch);
    round_trip(pointer_sequence());
    round_trip(ActionsParameters { actions: vec![] });
}

#[test]
fn action_sequence_defaults_and_errors() {
    assert_eq!(
        decode::<ActionSequence>(r#"{"type":"pointer","actions":[]}"#),
        Ok(ActionSequence {
            id: None,
            actions: ActionsType::Pointer(
                PointerActionParameters { pointer_type: PointerType::Mouse },
                vec![]
            ),
        })
    );
    assert_eq!(
        decode::<ActionSequence>(r#"{"type":"pointer","pointerType":"pen","actions":[]}"#)
            .unwrap()
            .actions,
        ActionsType::Pointer(PointerActionParameters { pointer_type: PointerType::Pen }, vec![])
    );
    assert_eq!(
        decode::<ActionSequence>(r#"{"type":"wheel","actions":[]}"#),
        Err(ErrorStatus::InvalidArgument)
    );
    assert_eq!(decode::<ActionSequence>(r#"{"actions":[]}"#), Err(ErrorStatus::InvalidArgument));
    assert_eq!(decode::<ActionSequence>(r#"{"type":"key"}"#), Err(ErrorStatus::InvalidArgument));
    assert_eq!(
        decode::<ActionSequence>(r#"{"type":"key","actions":[{"type":"pointerCancel"}]}"#),
        Err(ErrorStatus::InvalidArgument)
    );
    assert_eq!(
        decode::<ActionSequence>(r#"{"id":7,"type":"none","actions":[]}"#),
        Err(ErrorStatus::InvalidArgument)
    );
    assert_eq!(decode::<ActionsParameters>("{}"), Err(ErrorStatus::InvalidArgument));
}

#[test]
fn primitive_codecs() {
    round_trip(0u64);
    round_trip(u64::MAX);
    round_trip(i64::MIN);
    round_trip(i64::MAX);
    round_trip(true);
    round_trip("text".to_string());
    round_trip('c');
    round_trip(Number::Float("0.25".to_string()));
    round_trip(Json::Array(vec![Json::Null]));
    assert_eq!('c'.to_json(), Json::string("c"));
    assert_eq!(decode::<char>(r#""""#), Err(ErrorStatus::InvalidArgument));
    assert_eq!(decode::<u64>("-1"), Err(ErrorStatus::InvalidArgument));
    assert_eq!(decode::<i64>("9223372036854775808"), Err(ErrorStatus::InvalidArgument));
    assert_eq!(decode::<bool>("0"), Err(ErrorStatus::InvalidArgument));
    assert_eq!(decode::<String>("0"), Err(ErrorStatus::InvalidArgument));
    assert_eq!(decode::<Number>(r#""1""#), Err(ErrorStatus::InvalidArgument));
}

#[test]
fn codec_helpers() {
    let object = Json::parse(r#"{"a": 1, "b": null, "c": "x"}"#).unwrap();
    assert_eq!(decode_required::<u64>(&object, "a").unwrap(), 1);
    assert!(decode_required::<u64>(&object, "missing").is_err());
    assert!(decode_required::<u64>(&object, "c").is_err());
    assert_eq!(decode_optional::<u64>(&object, "a").unwrap(), Some(1));
    assert_eq!(decode_optional::<u64>(&object, "b").unwrap(), None);
    assert_eq!(decode_optional::<u64>(&object, "missing").unwrap(), None);
    assert!(decode_optional::<u64>(&object, "c").is_err());
    assert_eq!(items_to_json::<u64>(&vec![1, 2]).to_text(), "[1,2]");
    assert_eq!(items_from_json::<u64>(&Json::parse("[1,2]").unwrap()).unwrap(), vec![1, 2]);
    assert!(items_from_json::<u64>(&Json::parse("[1,-2]").unwrap()).is_err());
    assert!(items_from_json::<u64>(&Json::parse("1").unwrap()).is_err());
}

#[test]
fn responses_exact_encodings() {
    let new_session = Response::new(ResponseValue::NewSession(NewSessionResponse::new(
        "s1".to_string(),
        Json::Object(vec![]),
    )));
    assert_eq!(new_session.to_json_string(), r#"{"value":{"sessionId":"s1","value":{}}}"#);
    assert_eq!(Response::new(ResponseValue::DeleteSession).to_json_string(), r#"{"value":{}}"#);
    assert_eq!(ResponseValue::DeleteSession.to_json().to_text(), "{}");
    assert_eq!(
        Response::new(ResponseValue::Generic(Json::string("title"))).to_json_string(),
        r#"{"value":"title"}"#
    );
    assert_eq!(
        ResponseValue::WindowSize(WindowSizeResponse::new(800, 600)).to_json().to_text(),
        r#"{"height":600,"width":800}"#
    );
    assert_eq!(
        ResponseValue::WindowPosition(WindowPositionResponse::new(1, 2)).to_json().to_text(),
        r#"{"x":1,"y":2}"#
    );
    assert_eq!(
        ResponseValue::ElementRect(ElementRectResponse::new(
            Number::Float("1.5".to_string()),
            Number::PosInt(2),
            Number::Float("30.25".to_string()),
            Number::PosInt(4),
        ))
        .to_json()
        .to_text(),
        r#"{"height":4,"width":30.25,"x":1.5,"y":2}"#
    );
    let cookie = Cookie::new("n".to_string(), "v".to_string(), None, None, Some(Date(5)), true, false);
    assert_eq!(
        ResponseValue::Cookie(CookieResponse::new(vec![cookie])).to_json().to_text(),
        r#"{"value":[{"expiry":5,"httpOnly":false,"name":"n","secure":true,"value":"v"}]}"#
    );
}

#[test]
fn response_records_round_trip() {
    round_trip(NewSessionResponse::new("s".to_string(), Json::Null));
    round_trip(WindowSizeResponse::new(1, 2));
    round_trip(WindowPositionResponse::new(3, 4));
    round_trip(ElementRectResponse::new(
        Number::PosInt(1),
        Number::NegInt(-2),
        Number::Float("3.5".to_string()),
        Number::PosInt(4),
    ));
    round_trip(Cookie::new(
        "n".to_string(),
        "v".to_string(),
        Some("/".to_string()),
        Some("d".to_string()),
        None,
        false,
        true,
    ));
    round_trip(CookieResponse::new(vec![]));
}

#[test]
fn constructors_keep_their_arguments() {
    assert_eq!(WebElement::new("e".to_string()).id, "e");
    assert_eq!(WindowSizeResponse::new(1, 2), WindowSizeResponse { width: 1, height: 2 });
    assert_eq!(WindowPositionResponse::new(1, 2), WindowPositionResponse { x: 1, y: 2 });
    let cookie = Cookie::new(
        "n".to_string(),
        "v".to_string(),
        Some("p".to_string()),
        Some("d".to_string()),
        Some(Date(9)),
        true,
        false,
    );
    assert_eq!(cookie.name, "n");
    assert_eq!(cookie.value, "v");
    assert_eq!(cookie.path, Some("p".to_string()));
    assert_eq!(cookie.domain, Some("d".to_string()));
    assert_eq!(cookie.expiry, Some(Date(9)));
    assert!(cookie.secure);
    assert!(!cookie.httpOnly);
    assert_eq!(CookieResponse::new(vec![cookie.clone()]).value, vec![cookie]);
    let made = NewSessionResponse::new("s1".to_string(), Json::Bool(true));
    assert_eq!(made.sessionId, "s1");
    assert_eq!(made.value, Json::Bool(true));
}
