use wxorca_agents::json::{find_member, member, put_member, Json};

fn render_pretty(j: &Json) -> String {
    j.to_pretty_string()
}

fn parse(text: &str) -> Option<Json> {
    Json::from_text(text)
}

fn sample() -> Json {
    Json::object5(
        "name",
        Json::text("n"),
        "count",
        Json::Int(-3),
        "ratio",
        Json::Number("0.25".to_string()),
        "flags",
        Json::List(vec![Json::Bool(true), Json::Null]),
        "inner",
        Json::object1("k", Json::text("v")),
    )
}

#[test]
fn accessors_read_by_kind() {
    let j = sample();
    assert_eq!(j.text_at("name"), Some("n"));
    assert_eq!(j.text_at("count"), None);
    assert_eq!(j.text_at("missing"), None);
    assert_eq!(j.get("count").unwrap().as_int(), Some(-3));
    assert_eq!(j.get("count").unwrap().as_flag(), None);
    assert_eq!(j.get("flags").unwrap().as_list().unwrap().len(), 2);
    assert_eq!(j.get("flags").unwrap().as_list().unwrap()[0].as_flag(), Some(true));
    assert_eq!(j.get("flags").unwrap().as_texts(), None);
    assert_eq!(j.get("inner").unwrap().text_at("k"), Some("v"));
    assert!(j.get("name").unwrap().get("anything").is_none());
    assert!(Json::Null.get("name").is_none());
    assert_eq!(Json::text("t").as_text(), Some("t"));
    assert_eq!(Json::Int(1).as_text(), None);
    assert_eq!(Json::Int(1).as_list().map(|l| l.len()), None);
    assert_eq!(
        Json::texts(&vec!["a".to_string(), "b".to_string()]).as_texts(),
        Some(vec!["a".to_string(), "b".to_string()])
    );
    assert_eq!(Json::List(vec![]).as_texts(), Some(vec![]));
}

#[test]
fn lookup_finds_the_first_member() {
    let j = Json::Object(vec![member("k", Json::Int(1)), member("k", Json::Int(2))]);
    assert_eq!(j.get("k").unwrap().as_int(), Some(1));
    let members = vec![member("a", Json::Int(1)), member("b", Json::Int(2))];
    assert_eq!(find_member(&members, "b").unwrap().as_int(), Some(2));
    assert!(find_member(&members, "c").is_none());
}

#[test]
fn put_replaces_or_appends() {
    let mut members = vec![member("a", Json::Int(1)), member("b", Json::Int(2))];
    put_member(&mut members, "a", Json::Int(10));
    assert_eq!(members.len(), 2);
    assert_eq!(members[0].0, "a");
    assert_eq!(members[0].1.as_int(), Some(10));
    put_member(&mut members, "c", Json::Int(3));
    assert_eq!(members.len(), 3);
    assert_eq!(members[2].0, "c");
    assert_eq!(find_member(&members, "b").unwrap().as_int(), Some(2));
}

#[test]
fn clone_copies_the_whole_value() {
    let j = sample();
    let copy = j.clone();
    assert_eq!(render_pretty(&copy), render_pretty(&j));
    assert_eq!(copy.get("inner").unwrap().text_at("k"), Some("v"));
}

#[test]
fn values_are_written_as_indented_text() {
    assert_eq!(render_pretty(&Json::Null), "null");
    assert_eq!(render_pretty(&Json::Bool(false)), "false");
    assert_eq!(render_pretty(&Json::Int(-42)), "-42");
    assert_eq!(render_pretty(&Json::text("a \"b\"\n")), "\"a \\\"b\\\"\\n\"");
    assert_eq!(render_pretty(&Json::List(vec![])), "[]");
    assert_eq!(render_pretty(&Json::Object(vec![])), "{}");
    assert_eq!(
        render_pretty(&sample()),
        "{\n  \"name\": \"n\",\n  \"count\": -3,\n  \"ratio\": 0.25,\n  \"flags\": [\n    true,\n    null\n  ],\n  \"inner\": {\n    \"k\": \"v\"\n  }\n}"
    );
    // A literal that is no number is written as null.
    assert_eq!(render_pretty(&Json::Number("abc".to_string())), "null");
}

#[test]
fn text_is_read_into_values() {
    assert!(parse("").is_none());
    assert!(parse("{").is_none());
    assert!(parse("[1, 2,]").is_none());
    assert!(matches!(parse("null"), Some(Json::Null)));
    assert_eq!(parse("true").unwrap().as_flag(), Some(true));
    assert_eq!(parse(" 17 ").unwrap().as_int(), Some(17));
    assert_eq!(parse("-9223372036854775808").unwrap().as_int(), Some(i64::MIN));
    match parse("0.5") {
        Some(Json::Number(literal)) => assert_eq!(literal, "0.5"),
        _ => panic!("a fraction is kept as its literal"),
    }
    match parse("18446744073709551615") {
        Some(Json::Number(literal)) => assert_eq!(literal, "18446744073709551615"),
        _ => panic!("a number beyond 64 bits with sign is kept as its literal"),
    }
    assert_eq!(parse("\"a\\u0041\"").unwrap().as_text(), Some("aA"));
    let value = parse("{\"b\": [1, \"x\"], \"a\": {\"c\": null}}").unwrap();
    match &value {
        Json::Object(members) => {
            // The members keep the order in which they were written.
            assert_eq!(members[0].0, "b");
            assert_eq!(members[1].0, "a");
        }
        _ => panic!("an object is read as an object"),
    }
    assert_eq!(value.get("b").unwrap().as_list().unwrap()[1].as_text(), Some("x"));
    assert!(matches!(value.get("a").unwrap().get("c"), Some(Json::Null)));
}

#[test]
fn written_text_reads_back() {
    let text = render_pretty(&sample());
    let back = parse(&text).unwrap();
    assert_eq!(render_pretty(&back), text);
    assert_eq!(back.text_at("name"), Some("n"));
    match back.get("ratio") {
        Some(Json::Number(literal)) => assert_eq!(literal, "0.25"),
        _ => panic!("the fraction comes back as its literal"),
    }
}
