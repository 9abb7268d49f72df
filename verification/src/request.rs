//! The one request that a query sends.

use crate::json::{lemma_array_view, lemma_object_view, Json, JsonValue, Member, MemberValue};
use crate::text::{decimal, decimal_digits};
use vstd::prelude::*;

verus! {

/// Where the request goes.
pub const API_URL: &'static str = "https://ai.hackclub.com/chat/completions";

/// The `Content-Type` that the request declares.
pub const CONTENT_TYPE: &'static str = "application/json";

/// The model that is asked.
pub const MODEL: &'static str = "openai/gpt-oss-120B";

/// The most tokens that the model may answer with.
pub const MAX_COMPLETION_TOKENS: usize = 1000;

/// The sampling temperature, as the decimal that stands in the body.
pub const TEMPERATURE: &'static str = "0.7";

/// A POST request, ready to be sent.
#[derive(Debug, PartialEq, Eq)]
pub struct Request {
    pub url: String,
    pub content_type: String,
    pub body: Json,
}

/// The one message of the conversation: the prompt, said by the user.
pub open spec fn message_document(prompt: Seq<char>) -> JsonValue {
    JsonValue::Object(
        seq![
            MemberValue { name: "role"@, value: JsonValue::Text("user"@) },
            MemberValue { name: "content"@, value: JsonValue::Text(prompt) },
        ],
    )
}

/// The request body: the model, the conversation of one message, the token limit, the
/// temperature and the reasoning flag.
pub open spec fn request_document(
    prompt: Seq<char>,
    model: Seq<char>,
    include_reasoning: bool,
) -> JsonValue {
    JsonValue::Object(
        seq![
            MemberValue { name: "model"@, value: JsonValue::Text(model) },
            MemberValue {
                name: "messages"@,
                value: JsonValue::Array(seq![message_document(prompt)]),
            },
            MemberValue {
                name: "max_completion_tokens"@,
                value: JsonValue::Number(decimal_digits(MAX_COMPLETION_TOKENS as nat)),
            },
            MemberValue { name: "temperature"@, value: JsonValue::Number(TEMPERATURE@) },
            MemberValue { name: "include_reasoning"@, value: JsonValue::Bool(include_reasoning) },
        ],
    )
}

fn named(name: &str, value: Json) -> (member: Member)
    ensures
        member.name@ == name@,
        member.value == value,
{
    Member { name: name.to_owned(), value }
}

fn message(prompt: &str) -> (json: Json)
    ensures
        json@ == message_document(prompt@),
{
    let mut members: Vec<Member> = Vec::new();
    members.push(named("role", Json::Text("user".to_owned())));
    members.push(named("content", Json::Text(prompt.to_owned())));
    proof {
        lemma_object_view(members);
        assert(Json::Object(members)@->Object_0 =~= message_document(prompt@)->Object_0);
    }
    Json::Object(members)
}

/// Builds the request body for `prompt`.
pub fn request_body(prompt: &str, model: &str, include_reasoning: bool) -> (body: Json)
    ensures
        body@ == request_document(prompt@, model@, include_reasoning),
{
    let mut messages: Vec<Json> = Vec::new();
    messages.push(message(prompt));
    proof {
        lemma_array_view(messages);
        assert(Json::Array(messages)@->Array_0 =~= seq![message_document(prompt@)]);
    }
    let mut members: Vec<Member> = Vec::new();
    members.push(named("model", Json::Text(model.to_owned())));
    members.push(named("messages", Json::Array(messages)));
    members.push(named("max_completion_tokens", Json::Number(decimal(MAX_COMPLETION_TOKENS))));
    members.push(named("temperature", Json::Number(TEMPERATURE.to_owned())));
    members.push(named("include_reasoning", Json::Bool(include_reasoning)));
    proof {
        lemma_object_view(members);
        assert(Json::Object(members)@->Object_0 =~= request_document(
            prompt@,
            model@,
            include_reasoning,
        )->Object_0);
    }
    Json::Object(members)
}

/// Builds the request that asks `model` for an answer to `prompt`.
pub fn build_request(prompt: &str, model: &str, include_reasoning: bool) -> (request: Request)
    ensures
        request.url@ == API_URL@,
        request.content_type@ == CONTENT_TYPE@,
        request.body@ == request_document(prompt@, model@, include_reasoning),
{
    Request {
        url: API_URL.to_owned(),
        content_type: CONTENT_TYPE.to_owned(),
        body: request_body(prompt, model, include_reasoning),
    }
}

} // verus!
