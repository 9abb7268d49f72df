use storyline::json::{parse, Json, Malformed, Member};

fn member(name: &str, value: Json) -> Member {
    Member { name: name.to_string(), value }
}

fn text(value: &str) -> Json {
    Json::Text(value.to_string())
}

fn number(digits: &str) -> Json {
    Json::Number(digits.to_string())
}

#[test]
fn parse_reads_scalars() {
    assert_eq!(parse(b"null"), Ok(Json::Null));
    assert_eq!(parse(b"true"), Ok(Json::Bool(true)));
    assert_eq!(parse(b"false"), Ok(Json::Bool(false)));
    assert_eq!(parse(b" \"a\\nb\" "), Ok(text("a\nb")));
    assert_eq!(parse(b"\"caf\\u00e9\""), Ok(text("caf\u{e9}")));
}

#[test]
fn parse_keeps_numbers_as_text() {
    assert_eq!(parse(b"0"), Ok(number("0")));
    assert_eq!(parse(b"1000"), Ok(number("1000")));
    assert_eq!(parse(b"-12"), Ok(number("-12")));
    assert_eq!(parse(b"0.7"), Ok(number("0.7")));
    assert_eq!(parse(b"18446744073709551615"), Ok(number("18446744073709551615")));
}

#[test]
fn parse_reads_arrays_in_order() {
    assert_eq!(parse(b"[]"), Ok(Json::Array(vec![])));
    assert_eq!(
        parse(b"[1, \"two\", [null], {}]"),
        Ok(Json::Array(vec![
            number("1"),
            text("two"),
            Json::Array(vec![Json::Null]),
            Json::Object(vec![]),
        ]))
    );
}

#[test]
fn parse_reads_objects() {
    assert_eq!(parse(b"{}"), Ok(Json::Object(vec![])));
    assert_eq!(
        parse(b"{\"a\": {\"b\": [true]}}"),
        Ok(Json::Object(vec![member(
            "a",
            Json::Object(vec![member("b", Json::Array(vec![Json::Bool(true)]))])
        )]))
    );
}

#[test]
fn parse_reads_every_member_of_an_object() {
    let parsed = parse(b"{\"model\": \"m\", \"id\": 7, \"choices\": []}").unwrap();
    assert_eq!(parsed.member("model"), Some(&text("m")));
    assert_eq!(parsed.member("id"), Some(&number("7")));
    assert_eq!(parsed.member("choices"), Some(&Json::Array(vec![])));
    assert_eq!(parsed.member("other"), None);
    match parsed {
        Json::Object(members) => assert_eq!(members.len(), 3),
        other => panic!("no object: {:?}", other),
    }
}

#[test]
fn parse_keeps_the_last_of_two_members_with_one_name() {
    let parsed = parse(b"{\"a\": 1, \"a\": 2}").unwrap();
    assert_eq!(parsed, Json::Object(vec![member("a", number("2"))]));
}

#[test]
fn parse_refuses_what_is_no_document() {
    assert_eq!(parse(b""), Err(Malformed));
    assert_eq!(parse(b"   "), Err(Malformed));
    assert_eq!(parse(b"<html></html>"), Err(Malformed));
    assert_eq!(parse(b"{\"choices\":"), Err(Malformed));
    assert_eq!(parse(b"{} {}"), Err(Malformed));
    assert_eq!(parse(b"{'a': 1}"), Err(Malformed));
    assert_eq!(parse(b"\"\xff\""), Err(Malformed));
}

#[test]
fn member_finds_the_first_of_that_name() {
    let object = Json::Object(vec![
        member("a", number("1")),
        member("b", number("2")),
        member("a", number("3")),
    ]);
    assert_eq!(object.member("a"), Some(&number("1")));
    assert_eq!(object.member("b"), Some(&number("2")));
    assert_eq!(object.member("c"), None);
    assert_eq!(object.member(""), None);
}

#[test]
fn member_is_none_on_what_is_no_object() {
    assert_eq!(Json::Null.member("a"), None);
    assert_eq!(text("a").member("a"), None);
    assert_eq!(Json::Array(vec![text("a")]).member("a"), None);
    assert_eq!(Json::Array(vec![text("a")]).member("0"), None);
}

#[test]
fn element_finds_the_item_at_an_index() {
    let array = Json::Array(vec![text("x"), Json::Null, Json::Bool(false)]);
    assert_eq!(array.element(0), Some(&text("x")));
    assert_eq!(array.element(1), Some(&Json::Null));
    assert_eq!(array.element(2), Some(&Json::Bool(false)));
    assert_eq!(array.element(3), None);
    assert_eq!(array.element(usize::MAX), None);
}

#[test]
fn element_is_none_on_what_is_no_array() {
    assert_eq!(Json::Null.element(0), None);
    assert_eq!(text("abc").element(0), None);
    assert_eq!(Json::Object(vec![member("0", Json::Null)]).element(0), None);
}

#[test]
fn text_is_the_characters_of_a_string_only() {
    assert_eq!(text("").text(), Some(""));
    assert_eq!(text("Title: X").text(), Some("Title: X"));
    assert_eq!(number("1").text(), None);
    assert_eq!(Json::Null.text(), None);
    assert_eq!(Json::Bool(true).text(), None);
    assert_eq!(Json::Array(vec![text("a")]).text(), None);
    assert_eq!(Json::Object(vec![]).text(), None);
}
