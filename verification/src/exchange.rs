//! The decisions of one query: what to do once the request was sent, and once the body
//! was read.

use crate::json::parsed_json;
use crate::reply::{read_reply, reply_text};
use crate::status::{error_line, error_text, is_success, reason_phrase, success};
use crate::text::decimal_digits;
use vstd::prelude::*;

verus! {

/// Why a query is given up. Nothing is printed for it.
#[derive(Clone, Copy, Debug, PartialEq, Eq, Structural)]
pub enum Fatal {
    /// The request could not be sent, or no response came.
    SendFailed,
    /// The body of a successful response could not be read, or is no JSON document.
    ParseFailed,
}

impl Fatal {
    /// The diagnostic that goes with the failure.
    pub open spec fn diagnostic(self) -> Seq<char> {
        match self {
            Fatal::SendFailed => "Failed to send request"@,
            Fatal::ParseFailed => "Failed to parse response"@,
        }
    }

    /// Writes the diagnostic that goes with the failure.
    pub fn message(&self) -> (text: String)
        ensures
            text@ == self.diagnostic(),
    {
        match self {
            Fatal::SendFailed => "Failed to send request".to_owned(),
            Fatal::ParseFailed => "Failed to parse response".to_owned(),
        }
    }
}

/// How a query fails.
#[derive(Debug, PartialEq, Eq)]
pub enum Failure {
    /// The query is given up.
    Fatal(Fatal),
    /// The service answered with a status that is no success. The line that says so is
    /// printed like an answer.
    Reported(String),
}

/// What came of sending the request.
#[derive(Clone, Copy, Debug, PartialEq, Eq, Structural)]
pub enum Sent {
    /// No response came.
    Failed,
    /// A response came, with this status code.
    Status(u16),
}

/// What came of reading the response's body.
#[derive(Debug, PartialEq, Eq)]
pub enum Received {
    /// The body could not be read.
    Failed,
    /// The whole body.
    Body(Vec<u8>),
}

/// What a query does next.
#[derive(Debug, PartialEq, Eq)]
pub enum Step {
    /// Read the response's body.
    ReadBody,
    /// Stop, with this outcome.
    Done(Result<String, Failure>),
}

/// What follows `sent`: a response with a success status has its body read; one with
/// another status ends the query with the line that reports the status; no response is
/// fatal.
pub open spec fn follows_send(sent: Sent, next: Step) -> bool {
    match sent {
        Sent::Failed => next == Step::Done(Err(Failure::Fatal(Fatal::SendFailed))),
        Sent::Status(status) => if success(status) {
            next is ReadBody
        } else {
            next matches Step::Done(Err(Failure::Reported(line))) && line@ == error_text(
                status,
                reason_phrase(status),
            )
        },
    }
}

/// Decides what to do once the request was sent.
pub fn after_send(sent: Sent) -> (next: Step)
    ensures
        follows_send(sent, next),
{
    match sent {
        Sent::Failed => Step::Done(Err(Failure::Fatal(Fatal::SendFailed))),
        Sent::Status(status) => if is_success(status) {
            Step::ReadBody
        } else {
            Step::Done(Err(Failure::Reported(error_line(status))))
        },
    }
}

/// What follows `received`: a body that is a JSON document gives the text of its reply;
/// any other body, and a body that could not be read, is fatal.
pub open spec fn follows_body(received: Received, outcome: Result<String, Failure>) -> bool {
    match received {
        Received::Body(body) => match parsed_json(body@) {
            Some(doc) => outcome matches Ok(line) && line@ == reply_text(doc),
            None => outcome == Err::<String, Failure>(Failure::Fatal(Fatal::ParseFailed)),
        },
        Received::Failed => outcome == Err::<String, Failure>(Failure::Fatal(Fatal::ParseFailed)),
    }
}

/// Decides how the query ends once the body was read.
pub fn after_body(received: &Received) -> (outcome: Result<String, Failure>)
    ensures
        follows_body(*received, outcome),
{
    match received {
        Received::Body(body) => match read_reply(body.as_slice()) {
            Some(line) => Ok(line),
            None => Err(Failure::Fatal(Fatal::ParseFailed)),
        },
        Received::Failed => Err(Failure::Fatal(Fatal::ParseFailed)),
    }
}

/// The line that is printed for `outcome`: the answer, or the line that reports a
/// status. Nothing is printed for a fatal failure.
pub open spec fn printed(outcome: Result<String, Failure>) -> Option<Seq<char>> {
    match outcome {
        Ok(line) => Some(line@),
        Err(Failure::Reported(line)) => Some(line@),
        Err(Failure::Fatal(_)) => None,
    }
}

/// The line to print for `outcome`, or the reason why there is none.
pub fn output_line(outcome: Result<String, Failure>) -> (line: Result<String, Fatal>)
    ensures
        match line {
            Ok(text) => printed(outcome) == Some(text@),
            Err(fatal) => printed(outcome) is None && outcome == Err::<String, Failure>(
                Failure::Fatal(fatal),
            ),
        },
{
    match outcome {
        Ok(line) => Ok(line),
        Err(Failure::Reported(line)) => Ok(line),
        Err(Failure::Fatal(fatal)) => Err(fatal),
    }
}

/// Where no response came, the query ends there and nothing is printed.
pub proof fn lemma_failed_send_prints_nothing(next: Step)
    requires
        follows_send(Sent::Failed, next),
    ensures
        next matches Step::Done(outcome) && printed(outcome) is None,
{
}

/// A status that is no success ends the query without its body being read, and the line
/// that is printed begins with `Error: ` and the status in decimal.
pub proof fn lemma_refusal_is_reported(status: u16, next: Step)
    requires
        !success(status),
        follows_send(Sent::Status(status), next),
    ensures
        next matches Step::Done(outcome) && printed(outcome) matches Some(line) && (("Error: "@
            + decimal_digits(status as nat)).is_prefix_of(line)),
{
    let line = printed(next->Done_0)->Some_0;
    let begin = "Error: "@ + decimal_digits(status as nat);
    assert(line.subrange(0, begin.len() as int) =~= begin);
}

/// What is printed once the body was read: for a body that is a JSON document the text of
/// its reply, whatever the reply holds; for any other body, and for one that could not be
/// read, nothing.
pub proof fn lemma_body_decides_the_line(received: Received, outcome: Result<String, Failure>)
    requires
        follows_body(received, outcome),
    ensures
        printed(outcome) == match received {
            Received::Body(body) => match parsed_json(body@) {
                Some(doc) => Some(reply_text(doc)),
                None => None,
            },
            Received::Failed => None,
        },
{
}

} // verus!
