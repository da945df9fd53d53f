use subsonic_types::codec::{
    fields_from_pairs, fields_to_pairs, FieldKind, FieldSpec, FieldValue, Scalar, ScalarKind,
};
use subsonic_types::query::{parse_query, to_query_string};

fn nested_schema() -> Vec<FieldSpec> {
    vec![
        FieldSpec {
            key: "field_d",
            kind: FieldKind::Required(ScalarKind::U32),
        },
        FieldSpec {
            key: "field_e",
            kind: FieldKind::Optional(ScalarKind::Text),
        },
    ]
}

fn read_nested(query: &str) -> (u32, Option<String>) {
    let fields = fields_from_pairs(&nested_schema(), &parse_query(query)).unwrap();
    let field_d = match &fields[0] {
        FieldValue::Required(Scalar::U32(n)) => *n,
        other => panic!("unexpected field_d: {:?}", other),
    };
    let field_e = match &fields[1] {
        FieldValue::Optional(Some(Scalar::Text(s))) => Some(s.clone()),
        FieldValue::Optional(None) => None,
        other => panic!("unexpected field_e: {:?}", other),
    };
    (field_d, field_e)
}

#[test]
fn query_test_nested() {
    let (field_d, field_e) = read_nested("field_d=3&field_e=4");
    assert_eq!(field_d, 3);
    assert_eq!(field_e, Some("4".to_string()));

    let (field_d, field_e) = read_nested("field_d=3");
    assert_eq!(field_d, 3);
    assert_eq!(field_e, None);

    let (field_d, field_e) = read_nested("field_d=3&field_e=");
    assert_eq!(field_d, 3);
    assert_eq!(field_e, Some("".to_string()));

    let fields = vec![
        FieldValue::Required(Scalar::U32(3)),
        FieldValue::Optional(Some(Scalar::Text("4".to_string()))),
    ];
    let query = to_query_string(&fields_to_pairs(&nested_schema(), &fields));
    assert_eq!(query, "field_d=3&field_e=4");
}

#[test]
fn mod_test_nested() {
    let (field_d, field_e) = read_nested("field_d=3&field_e=4");
    assert_eq!(field_d, 3);
    assert_eq!(field_e, Some("4".to_string()));

    let (field_d, field_e) = read_nested("field_d=3");
    assert_eq!(field_d, 3);
    assert_eq!(field_e, None);

    let (field_d, field_e) = read_nested("field_d=3&field_e=");
    assert_eq!(field_d, 3);
    assert_eq!(field_e, Some("".to_string()));
}
