use storyline::json::{Json, Member};
use storyline::reply::{content, read_reply, reply_of, NO_CONTENT};

fn object(members: Vec<(&str, Json)>) -> Json {
    Json::Object(
        members
            .into_iter()
            .map(|(name, value)| Member { name: name.to_string(), value })
            .collect(),
    )
}

fn reply_with(message: Json) -> Json {
    object(vec![("choices", Json::Array(vec![object(vec![("message", message)])]))])
}

fn idea(text: &str) -> Json {
    Json::Text(text.to_string())
}

#[test]
fn story_idea_is_returned_verbatim() {
    let body = b"{\"choices\":[{\"message\":\
        {\"content\":\"Title: X\\nGenre: Y\\nPremise: Z\\nTwist: W\"}}]}";
    assert_eq!(
        read_reply(body),
        Some("Title: X\nGenre: Y\nPremise: Z\nTwist: W".to_string())
    );
}

#[test]
fn missing_content_gives_the_fallback() {
    let body = b"{\"choices\":[{\"message\":{}}]}";
    assert_eq!(read_reply(body), Some("No content returned".to_string()));
    assert_eq!(NO_CONTENT, "No content returned");
}

#[test]
fn body_that_is_no_json_gives_nothing() {
    assert_eq!(read_reply(b""), None);
    assert_eq!(read_reply(b"Title: X"), None);
    assert_eq!(read_reply(b"{\"choices\":[{\"message\":{\"content\":\"Title"), None);
}

#[test]
fn reply_is_read_among_other_members() {
    let body = b"{\"id\":\"1\",\"choices\":[\
        {\"index\":0,\"message\":{\"role\":\"assistant\",\"content\":\"Title: A\"},\
        \"finish_reason\":\"stop\"},\
        {\"message\":{\"content\":\"Title: B\"}}],\
        \"usage\":{\"total_tokens\":9}}";
    assert_eq!(read_reply(body), Some("Title: A".to_string()));
}

#[test]
fn idea_is_not_checked_for_its_four_fields() {
    assert_eq!(
        read_reply(b"{\"choices\":[{\"message\":{\"content\":\"\"}}]}"),
        Some(String::new())
    );
    assert_eq!(
        read_reply(b"{\"choices\":[{\"message\":{\"content\":\"no fields at all\"}}]}"),
        Some("no fields at all".to_string())
    );
}

#[test]
fn content_that_is_no_string_gives_the_fallback() {
    for body in [
        &b"{\"choices\":[{\"message\":{\"content\":null}}]}"[..],
        b"{\"choices\":[{\"message\":{\"content\":42}}]}",
        b"{\"choices\":[{\"message\":{\"content\":[\"Title: X\"]}}]}",
        b"{\"choices\":[{\"message\":{\"content\":{\"text\":\"Title: X\"}}}]}",
        b"{\"choices\":[{\"message\":\"Title: X\"}]}",
        b"{\"choices\":[{}]}",
        b"{\"choices\":[]}",
        b"{\"choices\":{\"0\":{\"message\":{\"content\":\"Title: X\"}}}}",
        b"{\"choices\":null}",
        b"{}",
        b"[]",
        b"[{\"message\":{\"content\":\"Title: X\"}}]",
        b"null",
        b"\"Title: X\"",
    ] {
        assert_eq!(read_reply(body), Some("No content returned".to_string()));
    }
}

#[test]
fn content_follows_choices_first_message_content() {
    assert_eq!(
        content(&reply_with(object(vec![("content", idea("Title: X"))]))),
        Some("Title: X")
    );
    assert_eq!(content(&reply_with(object(vec![]))), None);
    assert_eq!(content(&reply_with(object(vec![("content", Json::Null)]))), None);
    assert_eq!(content(&reply_with(Json::Null)), None);
    assert_eq!(content(&object(vec![("choices", Json::Array(vec![]))])), None);
    assert_eq!(content(&object(vec![])), None);
    assert_eq!(content(&Json::Null), None);
}

#[test]
fn content_is_taken_from_the_first_choice() {
    let first = object(vec![("message", object(vec![("content", idea("first"))]))]);
    let second = object(vec![("message", object(vec![("content", idea("second"))]))]);
    let doc = object(vec![("choices", Json::Array(vec![first, second]))]);
    assert_eq!(content(&doc), Some("first"));
    let without = object(vec![("message", object(vec![]))]);
    let with = object(vec![("message", object(vec![("content", idea("second"))]))]);
    let doc = object(vec![("choices", Json::Array(vec![without, with]))]);
    assert_eq!(content(&doc), None);
}

#[test]
fn reply_of_returns_the_idea_or_the_fallback() {
    let doc =
        reply_with(object(vec![("content", idea("Title: X\nGenre: Y\nPremise: Z\nTwist: W"))]));
    assert_eq!(reply_of(&doc), "Title: X\nGenre: Y\nPremise: Z\nTwist: W");
    assert_eq!(reply_of(&reply_with(object(vec![]))), "No content returned");
    assert_eq!(reply_of(&Json::Bool(true)), "No content returned");
}
