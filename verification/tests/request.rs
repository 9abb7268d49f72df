use storyline::invocation::Invocation;
use storyline::json::{Json, Member};
use storyline::prompt::build_prompt;
use storyline::request::{
    build_request, request_body, API_URL, CONTENT_TYPE, MAX_COMPLETION_TOKENS, MODEL, TEMPERATURE,
};

fn member(name: &str, value: Json) -> Member {
    Member { name: name.to_string(), value }
}

fn text(value: &str) -> Json {
    Json::Text(value.to_string())
}

fn expected_body(prompt: &str, model: &str, include_reasoning: bool) -> Json {
    Json::Object(vec![
        member("model", text(model)),
        member(
            "messages",
            Json::Array(vec![Json::Object(vec![
                member("role", text("user")),
                member("content", text(prompt)),
            ])]),
        ),
        member("max_completion_tokens", Json::Number("1000".to_string())),
        member("temperature", Json::Number("0.7".to_string())),
        member("include_reasoning", Json::Bool(include_reasoning)),
    ])
}

#[test]
fn request_constants_are_fixed() {
    assert_eq!(API_URL, "https://ai.hackclub.com/chat/completions");
    assert_eq!(CONTENT_TYPE, "application/json");
    assert_eq!(MODEL, "openai/gpt-oss-120B");
    assert_eq!(MAX_COMPLETION_TOKENS, 1000);
    assert_eq!(TEMPERATURE, "0.7");
}

#[test]
fn request_body_has_the_fixed_shape() {
    assert_eq!(
        request_body("Tell me a story", "m-1", false),
        expected_body("Tell me a story", "m-1", false)
    );
    assert_eq!(request_body("", "", true), expected_body("", "", true));
}

#[test]
fn request_body_holds_one_user_message_with_the_prompt() {
    let body = request_body("line one\n\"quoted\"", MODEL, true);
    let messages = body.member("messages").unwrap();
    assert_eq!(messages.element(1), None);
    let message = messages.element(0).unwrap();
    assert_eq!(message.member("role").unwrap().text(), Some("user"));
    assert_eq!(message.member("content").unwrap().text(), Some("line one\n\"quoted\""));
    assert_eq!(body.member("model").unwrap().text(), Some("openai/gpt-oss-120B"));
    assert_eq!(body.member("include_reasoning"), Some(&Json::Bool(true)));
}

#[test]
fn request_goes_to_the_fixed_address() {
    let request = build_request("p", "m", false);
    assert_eq!(request.url, "https://ai.hackclub.com/chat/completions");
    assert_eq!(request.content_type, "application/json");
    assert_eq!(request.body, expected_body("p", "m", false));
}

#[test]
fn invocation_asks_the_fixed_model_with_its_prompt() {
    let invocation = Invocation { genre: "horror".to_string(), twist: 2, include_reasoning: true };
    let request = invocation.request();
    assert_eq!(request.url, API_URL);
    assert_eq!(request.body, expected_body(&build_prompt("horror", 2), MODEL, true));
    let request = Invocation::default().request();
    assert_eq!(request.body, expected_body(&build_prompt("any", 1), "openai/gpt-oss-120B", false));
}
