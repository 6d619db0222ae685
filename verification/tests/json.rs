use csv_light_editor::json::{Json, JsonNumber};

fn text(s: &str) -> Json {
    Json::Text(s.to_string())
}

#[test]
fn parse_reads_every_kind_of_value() {
    let doc = Json::parse("{\"b\": [1, -2, 1.5, \"x\", true, null], \"a\": {}}").unwrap();
    let items = doc.get("b").unwrap().as_array().unwrap();
    assert_eq!(items.len(), 6);
    assert_eq!(items[0].as_u64(), Some(1));
    assert_eq!(items[1].as_u64(), None);
    assert_eq!(items[2].as_u64(), None);
    assert_eq!(items[3].as_str(), Some("x"));
    assert_eq!(items[3].as_u64(), None);
    assert!(matches!(items[4], Json::Bool(true)));
    assert!(matches!(items[5], Json::Null));
    match &items[1] {
        Json::Number(n) => assert_eq!(n.text, "-2"),
        _ => panic!("not a number"),
    }
    match &items[2] {
        Json::Number(n) => assert_eq!(n.text, "1.5"),
        _ => panic!("not a number"),
    }
    assert!(doc.get("a").unwrap().as_array().is_none());
    assert!(doc.get("c").is_none());
    assert!(items[0].get("a").is_none());
    assert_eq!(doc.text_of("b"), None);
    assert_eq!(doc.unsigned_of("b"), None);
}

#[test]
fn parse_refuses_what_is_no_json() {
    assert!(Json::parse("{").is_none());
    assert!(Json::parse("").is_none());
    assert!(Json::parse("processing row 1").is_none());
    assert!(Json::parse("{\"a\": 1} trailing").is_none());
    assert!(Json::parse(" 42 ").is_some());
}

#[test]
fn text_is_written_compact_and_pretty() {
    let doc = Json::parse("{\"b\": [1, -2, 1.5, \"x\"], \"a\": null}").unwrap();
    assert_eq!(doc.to_text().unwrap(), "{\"a\":null,\"b\":[1,-2,1.5,\"x\"]}");
    assert_eq!(
        doc.to_pretty_text().unwrap(),
        "{\n  \"a\": null,\n  \"b\": [\n    1,\n    -2,\n    1.5,\n    \"x\"\n  ]\n}"
    );
}

#[test]
fn a_document_built_by_hand_is_written() {
    let doc = Json::Object(vec![
        ("name".to_string(), text("a \"b\"\n")),
        (
            "n".to_string(),
            Json::Number(JsonNumber { unsigned: Some(18446744073709551615), text: "18446744073709551615".to_string() }),
        ),
        ("list".to_string(), Json::Array(vec![Json::Bool(false), Json::Null])),
    ]);
    assert_eq!(
        doc.to_text().unwrap(),
        "{\"list\":[false,null],\"n\":18446744073709551615,\"name\":\"a \\\"b\\\"\\n\"}"
    );
    assert_eq!(Json::empty_object().to_text().unwrap(), "{}");
}

#[test]
fn get_finds_the_first_member_of_a_name() {
    let doc = Json::Object(vec![
        ("k".to_string(), text("first")),
        ("k".to_string(), text("second")),
        ("n".to_string(), Json::Number(JsonNumber { unsigned: Some(3), text: "3".to_string() })),
    ]);
    assert_eq!(doc.text_of("k"), Some("first"));
    assert_eq!(doc.unsigned_of("n"), Some(3));
    assert_eq!(doc.unsigned_of("k"), None);
}

#[test]
fn duplicate_copies_the_whole_document() {
    let source = "{\"a\":[1,{\"b\":\"c\"},[]],\"d\":1.25e-7,\"e\":true}";
    let doc = Json::parse(source).unwrap();
    let copy = doc.duplicate();
    assert_eq!(copy.to_text().unwrap(), doc.to_text().unwrap());
    assert_eq!(copy.to_text().unwrap(), source);
}
