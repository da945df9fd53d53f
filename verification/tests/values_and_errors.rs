use subsonic_types::attrs::{
    string_to_camel_case, AttrName, ContainerAttr, FieldAttr, Meta, Version as AttrVersion,
};
use std::time::Duration;
use subsonic_types::common::{Format, Milliseconds, Seconds, Version};
use subsonic_types::deser::{BoolVisitor, IntegerVisitor, MaybeSerialize, StringVisitor};
use subsonic_types::obj::{Constraint, Error as ObjError};
use subsonic_types::response::{Error, ErrorCode};

#[test]
fn error_codes_and_numbers() {
    for n in [0u32, 10, 20, 30, 40, 41, 50, 60, 70, 7, 99, 1000] {
        assert_eq!(ErrorCode::from_u32(n).to_u32(), n);
        let c: ErrorCode = n.into();
        let back: u32 = c.into();
        assert_eq!(back, n);
    }
    assert_eq!(ErrorCode::from_u32(40), ErrorCode::WrongUsernameOrPassword);
    assert_eq!(ErrorCode::from_u32(41), ErrorCode::TokenAuthenticationNotSupported);
    assert_eq!(ErrorCode::from_u32(42), ErrorCode::Other(42));
    // An `Other` code holding a named number does not come back as itself.
    assert_eq!(ErrorCode::from_u32(ErrorCode::Other(10).to_u32()), ErrorCode::RequiredParameterMissing);
}

#[test]
fn error_text() {
    assert_eq!(Error::new(ErrorCode::DataNotFound).to_string(), "70");
    assert_eq!(
        Error::with_message(ErrorCode::RequiredParameterMissing, "missing id").to_string(),
        "10: missing id"
    );
    let e = Error::custom("boom");
    assert_eq!(e.code, ErrorCode::Generic);
    assert_eq!(e.message, Some("boom".to_string()));
    let e = Error::custom_with_code(ErrorCode::Other(99), "x");
    assert_eq!(e.to_string(), "99: x");
}

#[test]
fn camel_case_edges() {
    assert_eq!(string_to_camel_case("_foo"), "fOo");
    assert_eq!(string_to_camel_case("a__b"), "aB");
    assert_eq!(string_to_camel_case(""), "");
    assert_eq!(string_to_camel_case("max_bit_rate"), "maxBitRate");
}

#[test]
fn constraint_allows() {
    let v1 = Version::new(1, 10, 2);
    let c = Constraint::new();
    assert!(c.allow(Format::Xml, Version::new(1, 0, 0)));
    let c = Constraint::new().with_version(v1);
    assert!(!c.allow(Format::Json, Version::new(1, 10, 1)));
    assert!(c.allow(Format::Json, Version::new(1, 10, 2)));
    assert!(c.allow(Format::Json, Version::new(2, 0, 0)));
    let c = c.with_format(Format::Xml);
    assert!(!c.allow(Format::Json, Version::new(2, 0, 0)));
    assert!(c.allow(Format::Xml, Version::new(2, 0, 0)));
}

#[test]
fn obj_errors() {
    assert_eq!(
        ObjError::invalid_value("id", "bad").to_string(),
        "invalid value for id: bad"
    );
    assert_eq!(ObjError::custom("m").to_string(), "m");
}

#[test]
fn xml_visitors() {
    assert_eq!(BoolVisitor.visit_str("1"), Ok(true));
    assert_eq!(BoolVisitor.visit_str("false"), Ok(false));
    assert_eq!(
        BoolVisitor.visit_str("yes"),
        Err("expected \"true\" or \"false\" or \"1\" or \"0\"".to_string())
    );
    assert_eq!(
        StringVisitor.visit_map(Some(("$value".to_string(), "t".to_string()))),
        Ok("t".to_string())
    );
    assert_eq!(
        StringVisitor.visit_map(Some(("x".to_string(), "t".to_string()))),
        Err("expected a map with a single key \"$text\" or \"$value\"".to_string())
    );
    assert!(StringVisitor.visit_map(None).is_err());
    assert_eq!(
        BoolVisitor.visit_map(Some(("$text".to_string(), "0".to_string()))),
        Ok(false)
    );
    assert_eq!(IntegerVisitor.visit_str("-42"), Ok(-42));
    assert_eq!(
        IntegerVisitor.visit_str("abc"),
        Err("abc".parse::<i64>().unwrap_err().to_string())
    );
    assert_eq!(
        IntegerVisitor.visit_map(Some(("$text".to_string(), "+7".to_string()))),
        Ok(7)
    );
}

#[test]
fn maybe_serialize() {
    assert!(MaybeSerialize::<u32>::none().is_none());
    assert!(!MaybeSerialize::serialize(3u32).is_none());
    assert!(subsonic_types::deser::is_none::<u32>(&None));
}

#[test]
fn attribute_versions() {
    assert_eq!(
        AttrVersion::parse("1.10.2"),
        Some(AttrVersion {
            major: 1,
            minor: 10,
            patch: 2
        })
    );
    assert_eq!(AttrVersion::parse("1.2"), None);
    assert_eq!(AttrVersion::parse("1.2.300"), None);
    assert!(AttrVersion::parse("1.2.3.4").is_some());
    assert!(AttrName::new("rename").matches("rename"));
    assert!(!AttrName::new("rename").matches("flatten"));
}

#[test]
fn field_attributes() {
    let metas = vec![
        Meta::Path("attribute".to_string()),
        Meta::NameValue {
            path: "since".to_string(),
            lit: Some("1.14.0".to_string()),
        },
    ];
    let a = FieldAttr::from_attrs(&metas).unwrap();
    assert!(a.attribute && !a.flatten && !a.choice);
    assert_eq!(
        a.since,
        Some(AttrVersion {
            major: 1,
            minor: 14,
            patch: 0
        })
    );
    let metas = vec![
        Meta::Path("choice".to_string()),
        Meta::NameValue {
            path: "rename".to_string(),
            lit: Some("x".to_string()),
        },
    ];
    assert_eq!(
        FieldAttr::from_attrs(&metas).unwrap_err(),
        "Choice fields cannot have flatten, attribute, value or rename attributes"
    );
    let metas = vec![Meta::NameValue {
        path: "since".to_string(),
        lit: Some("one".to_string()),
    }];
    assert_eq!(FieldAttr::from_attrs(&metas).unwrap_err(), "Invalid version");
    let metas = vec![Meta::Path("bogus".to_string())];
    assert_eq!(
        FieldAttr::from_attrs(&metas).unwrap_err(),
        "Invalid subsonic attribute"
    );
    let metas = vec![Meta::Path("bogus".to_string()), Meta::Path("serde".to_string())];
    assert!(ContainerAttr::from_attrs(&metas).serde);
    assert!(!ContainerAttr::from_attrs(&vec![]).serde);
    let q = subsonic_types::attrs::query::FieldAttr::from_attrs(&vec![Meta::NameValue {
        path: "rename".to_string(),
        lit: Some("type".to_string()),
    }])
    .unwrap();
    assert_eq!(q.rename, Some("type".to_string()));
}

#[test]
fn durations() {
    assert_eq!(Milliseconds::new(1500).to_duration(), Duration::from_millis(1500));
    assert_eq!(Seconds::new(7).into_duration(), Duration::from_secs(7));
    let d: Duration = Milliseconds::from(20u64).into();
    assert_eq!(d, Duration::from_millis(20));
}
