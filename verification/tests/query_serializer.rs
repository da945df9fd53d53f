use subsonic_types::request::query::ser::{QuerySerializer, SerValue};

#[test]
fn keys_and_values() {
    let mut s = QuerySerializer::new();
    s.serialize_key_value("id", &SerValue::Str("a b".to_string()))
        .unwrap();
    s.serialize_key_value("count", &SerValue::Unsigned(10)).unwrap();
    s.serialize_key_value("flag", &SerValue::Bool(true)).unwrap();
    assert_eq!(s.into_query(), "id=a%20b&count=10&flag=true");
}

#[test]
fn absent_value_takes_the_key_back() {
    let mut s = QuerySerializer::new();
    s.serialize_key_value("a", &SerValue::Unsigned(1)).unwrap();
    s.serialize_key_value("b", &SerValue::Absent).unwrap();
    s.serialize_key_value("c", &SerValue::Unsigned(3)).unwrap();
    assert_eq!(s.into_query(), "a=1&c=3");

    let mut s = QuerySerializer::new();
    s.serialize_key_value("only", &SerValue::Absent).unwrap();
    assert_eq!(s.into_query(), "");
}

#[test]
fn sequences_repeat_the_key() {
    let mut s = QuerySerializer::new();
    s.serialize_key("id");
    s.serialize_seq();
    s.serialize_element(&SerValue::Str("1".to_string())).unwrap();
    s.serialize_element(&SerValue::Str("2".to_string())).unwrap();
    s.end().unwrap();
    assert_eq!(s.into_query(), "id=1&id=2");

    let mut s = QuerySerializer::new();
    s.serialize_key_value("x", &SerValue::Unsigned(5)).unwrap();
    s.serialize_key("empty");
    s.serialize_seq();
    s.end().unwrap();
    assert_eq!(s.into_query(), "x=5");
}

#[test]
fn serializer_errors() {
    let mut s = QuerySerializer::new();
    assert_eq!(
        s.erase_last_key().unwrap_err().to_string(),
        "no last key while erasing last key"
    );
    assert_eq!(s.serialize_last_key().unwrap_err().to_string(), "no last key");
    assert_eq!(
        s.serialize_seq_value(&SerValue::Unit).unwrap_err().to_string(),
        "no last key"
    );
}
