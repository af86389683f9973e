use gfycat_transfer::json::text_entry;
use gfycat_transfer::json::Json;

fn text(s: &str) -> Json {
    Json::Text(s.to_string())
}

#[test]
fn parse_reads_every_kind_of_value() {
    let doc = Json::parse(br#"{"a":null,"b":true,"c":12,"d":"x","e":[1,"y"],"f":{"g":false}}"#).unwrap();
    let expected = Json::Record(vec![
        ("a".to_string(), Json::Null),
        ("b".to_string(), Json::Bool(true)),
        ("c".to_string(), Json::Number(Some(12))),
        ("d".to_string(), text("x")),
        ("e".to_string(), Json::List(vec![Json::Number(Some(1)), text("y")])),
        ("f".to_string(), Json::Record(vec![("g".to_string(), Json::Bool(false))])),
    ]);
    assert_eq!(doc, expected);
}

#[test]
fn parse_keeps_the_order_of_members() {
    let doc = Json::parse(br#"{"z":1,"a":2,"m":3}"#).unwrap();
    match doc {
        Json::Record(members) => {
            let keys: Vec<&str> = members.iter().map(|m| m.0.as_str()).collect();
            assert_eq!(keys, vec!["z", "a", "m"]);
        }
        other => panic!("not an object: {:?}", other),
    }
}

#[test]
fn parse_rejects_what_is_no_json() {
    assert_eq!(Json::parse(b""), None);
    assert_eq!(Json::parse(b"{"), None);
    assert_eq!(Json::parse(b"{\"a\":1} trailing"), None);
    assert_eq!(Json::parse(&[0xff, 0xfe]), None);
}

#[test]
fn numbers_are_naturals_or_nothing() {
    assert_eq!(Json::parse(b"0"), Some(Json::Number(Some(0))));
    assert_eq!(Json::parse(b"18446744073709551615"), Some(Json::Number(Some(u64::MAX))));
    assert_eq!(Json::parse(b"-1"), Some(Json::Number(None)));
    assert_eq!(Json::parse(b"1.5"), Some(Json::Number(None)));
    assert_eq!(Json::parse(b"3600.0"), Some(Json::Number(None)));
    assert_eq!(Json::parse(b"18446744073709551616"), Some(Json::Number(None)));
}

#[test]
fn member_finds_a_key_and_the_later_of_two() {
    let doc = Json::Record(vec![
        ("k".to_string(), text("first")),
        ("other".to_string(), Json::Null),
        ("k".to_string(), text("second")),
    ]);
    assert_eq!(doc.member(&"k".to_string()), Some(&text("second")));
    assert_eq!(doc.member(&"other".to_string()), Some(&Json::Null));
    assert_eq!(doc.member(&"missing".to_string()), None);
    assert_eq!(text("k").member(&"k".to_string()), None);
    assert_eq!(Json::List(vec![]).member(&"k".to_string()), None);
}

#[test]
fn accessors_tell_the_kinds_apart() {
    assert_eq!(text("x").as_text(), Some(&"x".to_string()));
    assert_eq!(Json::Null.as_text(), None);
    assert_eq!(Json::Number(Some(7)).as_text(), None);
    assert_eq!(Json::Number(Some(7)).as_natural(), Some(7));
    assert_eq!(Json::Number(None).as_natural(), None);
    assert_eq!(text("7").as_natural(), None);
    assert_eq!(Json::List(vec![Json::Null]).as_list(), Some(&vec![Json::Null]));
    assert_eq!(Json::Record(vec![]).as_list(), None);
}

#[test]
fn to_text_is_compact_json() {
    let doc = Json::Record(vec![
        ("a".to_string(), text("x\"y")),
        ("b".to_string(), Json::List(vec![Json::Number(Some(3)), Json::Bool(false), Json::Null])),
    ]);
    assert_eq!(doc.to_text(), r#"{"a":"x\"y","b":[3,false,null]}"#);
}

#[test]
fn to_pretty_text_indents_by_two() {
    let doc = Json::List(vec![Json::Record(vec![("a".to_string(), text("x"))])]);
    assert_eq!(doc.to_pretty_text(), "[\n  {\n    \"a\": \"x\"\n  }\n]");
    assert_eq!(Json::List(vec![]).to_pretty_text(), "[]");
}

#[test]
fn a_number_that_is_no_natural_is_written_as_null() {
    assert_eq!(Json::Number(None).to_text(), "null");
    assert_eq!(Json::Number(Some(42)).to_text(), "42");
}

#[test]
fn text_round_trips_through_parse() {
    let doc = Json::Record(vec![
        ("title".to_string(), text("caf\u{e9} \n \"quoted\" \\ / \u{1f600}")),
        ("n".to_string(), Json::Number(Some(65535))),
    ]);
    assert_eq!(Json::parse(doc.to_text().as_bytes()), Some(doc));
}

#[test]
fn text_entry_pairs_key_and_string() {
    let entry = text_entry("key", &"value".to_string());
    assert_eq!(entry, ("key".to_string(), text("value")));
}
