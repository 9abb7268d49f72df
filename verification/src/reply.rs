//! The story idea in a chat-completion reply.

use crate::json::{parse, parsed_json, Json, JsonValue};
use vstd::prelude::*;

verus! {

/// What is returned for a reply that holds no story idea.
pub const NO_CONTENT: &'static str = "No content returned";

/// The story idea in the reply `doc`: the string at `choices[0].message.content`, where
/// there is one.
pub open spec fn content_of(doc: JsonValue) -> Option<Seq<char>> {
    doc.field("choices"@).item(0).field("message"@).field("content"@).text()
}

/// What is returned for the reply `doc`: its story idea as it stands, or the fixed
/// fallback text.
pub open spec fn reply_text(doc: JsonValue) -> Seq<char> {
    match content_of(doc) {
        Some(idea) => idea,
        None => NO_CONTENT@,
    }
}

/// Finds the story idea in a reply.
pub fn content(doc: &Json) -> (found: Option<&str>)
    ensures
        match found {
            Some(idea) => content_of(doc@) == Some(idea@),
            None => content_of(doc@) is None,
        },
{
    let choices = match doc.member("choices") {
        Some(choices) => choices,
        None => return None,
    };
    let first = match choices.element(0) {
        Some(first) => first,
        None => return None,
    };
    let message = match first.member("message") {
        Some(message) => message,
        None => return None,
    };
    match message.member("content") {
        Some(idea) => idea.text(),
        None => None,
    }
}

/// The text to return for a reply: its story idea, unchanged, or `No content returned`.
pub fn reply_of(doc: &Json) -> (line: String)
    ensures
        line@ == reply_text(doc@),
{
    match content(doc) {
        Some(idea) => idea.to_owned(),
        None => NO_CONTENT.to_owned(),
    }
}

/// Reads a response body: `None` where it is no JSON document, else the text to return
/// for the reply it holds.
pub fn read_reply(body: &[u8]) -> (line: Option<String>)
    ensures
        match parsed_json(body@) {
            Some(doc) => line matches Some(text) && text@ == reply_text(doc),
            None => line is None,
        },
{
    match parse(body) {
        Ok(doc) => Some(reply_of(&doc)),
        Err(_) => None,
    }
}

} // verus!
