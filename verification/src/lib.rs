//! Story ideas from a chat-completion service: the prompt that asks for one, the request
//! that carries it, and what to make of the response.
//!
//! The library computes and decides. Sending the request, reading the response and
//! printing are left to the caller, who reports each answer of the network and is told
//! what to do next.

pub mod exchange;
pub mod invocation;
pub mod json;
pub mod prompt;
pub mod reply;
pub mod request;
pub mod status;
pub mod text;
