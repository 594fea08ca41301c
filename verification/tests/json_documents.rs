use dementia::json::{Json, Member};

#[test]
fn parse_reads_an_object_in_key_order() {
    let doc = Json::parse(br#"{"b": [1, "x", null], "a": true}"#).unwrap();
    match &doc {
        Json::Object(members) => {
            assert_eq!(members.len(), 2);
            assert_eq!(members[0].key, "a");
            assert!(matches!(members[0].value, Json::Bool(true)));
            assert_eq!(members[1].key, "b");
        }
        _ => panic!("not an object"),
    }
    let items = doc.get("b").unwrap().as_array().unwrap();
    assert_eq!(items.len(), 3);
    assert!(matches!(&items[0], Json::Number(n) if n == "1"));
    assert_eq!(items[1].as_str(), Some("x"));
    assert!(matches!(items[2], Json::Null));
}

#[test]
fn parse_rejects_what_is_not_json() {
    assert!(Json::parse(b"{\"a\": ").is_none());
    assert!(Json::parse(b"").is_none());
    assert!(Json::parse(&[0xff, 0xfe]).is_none());
}

#[test]
fn get_finds_the_first_member_of_a_name() {
    let doc = Json::Object(vec![
        Member { key: "k".to_string(), value: Json::Text("one".to_string()) },
        Member { key: "k".to_string(), value: Json::Text("two".to_string()) },
    ]);
    assert_eq!(doc.get_str("k"), Some("one"));
    assert!(doc.get("missing").is_none());
    assert!(Json::Null.get("k").is_none());
}

#[test]
fn parse_keeps_one_member_of_a_name() {
    let doc = Json::parse(br#"{"k": 1, "k": 2}"#).unwrap();
    assert_eq!(
        doc,
        Json::Object(vec![Member { key: "k".to_string(), value: Json::Number("2".to_string()) }])
    );
}

#[test]
fn parse_reads_every_kind_of_value() {
    assert_eq!(Json::parse(b"null"), Some(Json::Null));
    assert_eq!(Json::parse(b" false "), Some(Json::Bool(false)));
    assert_eq!(Json::parse(b"-12"), Some(Json::Number("-12".to_string())));
    assert_eq!(Json::parse(b"1.5"), Some(Json::Number("1.5".to_string())));
    assert_eq!(Json::parse(br#""a\nb""#), Some(Json::Text("a\nb".to_string())));
    assert_eq!(Json::parse(b"[[]]"), Some(Json::Array(vec![Json::Array(vec![])])));
    assert_eq!(Json::parse(b"{}"), Some(Json::Object(vec![])));
    assert_eq!(Json::parse(b"{} {}"), None);
}

#[test]
fn accessors_tell_the_kinds_apart() {
    let text = Json::Text("t".to_string());
    assert_eq!(text.as_str(), Some("t"));
    assert!(text.as_array().is_none());
    assert!(text.as_object().is_none());
    let array = Json::Array(vec![Json::Null]);
    assert_eq!(array.as_array(), Some(&vec![Json::Null]));
    assert!(array.as_str().is_none());
    let object = Json::parse(br#"{"n": 3, "s": "x"}"#).unwrap();
    assert_eq!(object.as_object().unwrap().len(), 2);
    assert_eq!(object.get_str("s"), Some("x"));
    assert_eq!(object.get_str("n"), None);
    assert_eq!(object.get("n"), Some(&Json::Number("3".to_string())));
}
