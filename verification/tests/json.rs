use hiven_rs::json::{find, Json, Lookup};

#[test]
fn texts_are_read_as_documents() {
    assert_eq!(Json::parse("null"), Some(Json::Null));
    assert_eq!(Json::parse(" true "), Some(Json::Bool(true)));
    assert_eq!(Json::parse("18446744073709551615"), Some(Json::Integer(u64::MAX)));
    assert_eq!(Json::parse("-1"), Some(Json::OtherNumber));
    assert_eq!(Json::parse("2.5"), Some(Json::OtherNumber));
    assert_eq!(Json::parse("\"a\\nb\""), Some(Json::Text("a\nb".to_string())));
    assert_eq!(
        Json::parse("[1, [], {}]"),
        Some(Json::Array(vec![Json::Integer(1), Json::Array(vec![]), Json::Object(vec![])]))
    );
    assert_eq!(Json::parse("{\"op\":3"), None);
    assert_eq!(Json::parse("nul"), None);
    assert_eq!(Json::parse(""), None);
}

#[test]
fn members_keep_the_order_in_which_they_were_written() {
    assert_eq!(
        Json::parse("{\"z\":1,\"a\":2,\"m\":{\"y\":null,\"b\":false}}"),
        Some(Json::Object(vec![
            ("z".to_string(), Json::Integer(1)),
            ("a".to_string(), Json::Integer(2)),
            (
                "m".to_string(),
                Json::Object(vec![
                    ("y".to_string(), Json::Null),
                    ("b".to_string(), Json::Bool(false)),
                ])
            ),
        ]))
    );
}

#[test]
fn documents_are_written_as_texts() {
    assert_eq!(Json::Null.render(), "null");
    assert_eq!(Json::Bool(false).render(), "false");
    assert_eq!(Json::Integer(30000).render(), "30000");
    assert_eq!(Json::Text("a\"b".to_string()).render(), "\"a\\\"b\"");
    assert_eq!(Json::Array(vec![Json::Integer(1), Json::Null]).render(), "[1,null]");
    let object = Json::object(vec![
        ("z".to_string(), Json::Integer(1)),
        ("a".to_string(), Json::Array(vec![])),
    ]);
    assert_eq!(object.render(), "{\"z\":1,\"a\":[]}");
}

#[test]
fn written_documents_are_read_back() {
    let document = Json::Object(vec![
        ("op".to_string(), Json::Integer(2)),
        ("d".to_string(), Json::Object(vec![("token".to_string(), Json::Text("t".to_string()))])),
        ("list".to_string(), Json::Array(vec![Json::Bool(true), Json::Null])),
    ]);
    assert_eq!(Json::parse(&document.render()), Some(document));
}

#[test]
fn members_are_looked_up_by_key() {
    let members = vec![
        ("a".to_string(), Json::Integer(1)),
        ("b".to_string(), Json::Integer(2)),
        ("a".to_string(), Json::Integer(3)),
    ];
    assert!(matches!(find(&members, "b"), Lookup::Found(Json::Integer(2))));
    assert!(matches!(find(&members, "a"), Lookup::Repeated));
    assert!(matches!(find(&members, "c"), Lookup::Missing));
    assert!(matches!(find(&vec![], "a"), Lookup::Missing));
}
