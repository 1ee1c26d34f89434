use webdriver::protocol::common::{Nullable, WebElement};

#[test]
fn test_nullable_map() {
    let mut test = Nullable::Value(21);

    assert_eq!(test.map(|x| x << 1), Nullable::Value(42));

    test = Nullable::Null;

    assert_eq!(test.map(|x| x << 1), Nullable::Null);
}

#[test]
fn test_nullable_into() {
    let test: Option<i32> = Nullable::Value(42).into();

    assert_eq!(test, Some(42));
}

#[test]
fn nullable_kinds() {
    let value = Nullable::Value("x");
    let null: Nullable<&str> = Nullable::Null;
    assert!(value.is_value());
    assert!(!value.is_null());
    assert!(null.is_null());
    assert!(!null.is_value());
    assert_eq!(value.into_option(), Some("x"));
    assert_eq!(null.into_option(), None);
    let none: Option<&str> = Nullable::Null.into();
    assert_eq!(none, None);
}

#[test]
fn element_from_strings() {
    assert_eq!(WebElement::from("e1"), WebElement::new("e1".to_string()));
    assert_eq!(WebElement::from("e2".to_string()).id, "e2");
    let converted: WebElement = "e3".into();
    assert_eq!(converted.id, "e3");
}
