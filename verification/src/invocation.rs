//! The parameters of one run.

use crate::prompt::{build_prompt, prompt_text};
use crate::request::{build_request, request_document, Request, API_URL, CONTENT_TYPE, MODEL};
use vstd::prelude::*;

verus! {

/// The genre asked for when none is given.
pub const DEFAULT_GENRE: &'static str = "any";

/// The number of twists asked for when none is given.
pub const DEFAULT_TWIST: usize = 1;

/// Whether the model's reasoning is asked for when nothing is said.
pub const DEFAULT_INCLUDE_REASONING: bool = false;

/// What a run is asked for.
#[derive(Debug, PartialEq, Eq)]
pub struct Invocation {
    /// The genre, or genres, that the story idea is to have.
    pub genre: String,
    /// The number of twists in it.
    pub twist: usize,
    /// Whether the model is asked to include its reasoning.
    pub include_reasoning: bool,
}

impl Default for Invocation {
    /// Any genre, one twist, no reasoning.
    fn default() -> (invocation: Invocation)
        ensures
            invocation.genre@ == DEFAULT_GENRE@,
            invocation.twist == DEFAULT_TWIST,
            invocation.include_reasoning == DEFAULT_INCLUDE_REASONING,
    {
        Invocation {
            genre: DEFAULT_GENRE.to_owned(),
            twist: DEFAULT_TWIST,
            include_reasoning: DEFAULT_INCLUDE_REASONING,
        }
    }
}

impl Invocation {
    /// The prompt for this run.
    pub fn prompt(&self) -> (prompt: String)
        ensures
            prompt@ == prompt_text(self.genre@, self.twist as nat),
    {
        build_prompt(self.genre.as_str(), self.twist)
    }

    /// The request of this run: its prompt, put to the fixed model.
    pub fn request(&self) -> (request: Request)
        ensures
            request.url@ == API_URL@,
            request.content_type@ == CONTENT_TYPE@,
            request.body@ == request_document(
                prompt_text(self.genre@, self.twist as nat),
                MODEL@,
                self.include_reasoning,
            ),
    {
        let prompt = self.prompt();
        build_request(prompt.as_str(), MODEL, self.include_reasoning)
    }
}

} // verus!
