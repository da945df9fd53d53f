use subsonic_types::query::{parse_query, to_query_string, QueryBuilderString, QueryIter, QueryPair};
use subsonic_types::request::query::{
    query_to_query_map, CowDeserializer, QueryError, QueryMapValue, ValueDeserializer,
};

#[test]
fn builder_writes_no_leading_ampersand() {
    let mut b = QueryBuilderString::new();
    b.emit_key("");
    b.emit_key("a");
    b.emit("b", Some("1 2"));
    b.emit("c", None);
    assert_eq!(b.into_query(), "a&b=1%202&c");
}

#[test]
fn pairs_roundtrip_through_text() {
    let pairs = vec![
        QueryPair {
            key: "k".to_string(),
            value: Some("v w".to_string()),
        },
        QueryPair {
            key: "flag".to_string(),
            value: None,
        },
    ];
    let q = to_query_string(&pairs);
    assert_eq!(q, "k=v%20w&flag");
    assert_eq!(parse_query(&q), pairs);
}

#[test]
fn query_iter_reads_part_by_part() {
    let mut it = QueryIter::new("a=1&&b");
    assert_eq!(
        it.next(),
        Some(QueryPair {
            key: "a".to_string(),
            value: Some("1".to_string())
        })
    );
    assert_eq!(it.next(), None);
    assert_eq!(
        it.next(),
        Some(QueryPair {
            key: "b".to_string(),
            value: None
        })
    );
    assert_eq!(it.next(), None);
    assert_eq!(it.next(), None);
}

#[test]
fn query_map_groups_values() {
    let m = query_to_query_map("a=1&b&a=2&a=3&c=x%3Dy=z").unwrap();
    assert_eq!(
        m,
        vec![
            (
                "a".to_string(),
                QueryMapValue::Many(vec!["1".to_string(), "2".to_string(), "3".to_string()])
            ),
            ("b".to_string(), QueryMapValue::Missing),
            ("c=x=y".to_string(), QueryMapValue::Single("z".to_string())),
        ]
    );
    let m = query_to_query_map("k&k").unwrap();
    assert_eq!(m, vec![("k".to_string(), QueryMapValue::Missing)]);
    let m = query_to_query_map("").unwrap();
    assert_eq!(m, vec![("".to_string(), QueryMapValue::Missing)]);
}

#[test]
fn query_map_errors() {
    assert_eq!(
        query_to_query_map("a=1&a").unwrap_err(),
        QueryError::new("found key-only kv when a kv already exists")
    );
    assert_eq!(
        query_to_query_map("a=1&a=2&a").unwrap_err().to_string(),
        "found key-only kv when a kv already exists"
    );
    assert_eq!(
        query_to_query_map("a&a=1").unwrap_err().to_string(),
        "found kv when a key-only kv already exists"
    );
}

#[test]
fn values_are_handed_out_in_order() {
    let mut d = ValueDeserializer::new(QueryMapValue::Many(vec!["1".to_string(), "2".to_string()]));
    assert_eq!(d.next_element(), Ok(Some(Some("1".to_string()))));
    assert_eq!(d.next_element(), Ok(Some(Some("2".to_string()))));
    assert_eq!(d.next_element(), Ok(None));
    let mut d = ValueDeserializer::new(QueryMapValue::Missing);
    assert_eq!(d.next_element(), Ok(Some(None)));
    assert_eq!(d.next_element(), Ok(None));
    let mut d = ValueDeserializer::new(QueryMapValue::Many(vec![]));
    assert_eq!(
        d.next_element().unwrap_err().to_string(),
        "next_element_seed called with no more values"
    );
}

#[test]
fn query_map_values_as_booleans() {
    assert_eq!(CowDeserializer::new(None).deserialize_bool(), Ok(true));
    assert_eq!(CowDeserializer::new(Some("0".to_string())).deserialize_bool(), Ok(false));
    assert_eq!(CowDeserializer::new(Some("true".to_string())).deserialize_bool(), Ok(true));
    assert_eq!(
        CowDeserializer::new(Some("maybe".to_string()))
            .deserialize_bool()
            .unwrap_err()
            .to_string(),
        "invalid boolean: 'maybe'"
    );
}
