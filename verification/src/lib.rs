//! Conformance checks for an OpenAI-style chat-completions service: the data
//! model of requests, responses and streamed chunks, the reconstruction of a
//! streamed reply, the classification of failures, and the fail-fast protocol
//! by which scenarios are run in batches.

pub mod catalogue;
pub mod classify;
pub mod expect;
pub mod judge;
pub mod model;
pub mod reply;
pub mod runner;
pub mod scenario;
pub mod stream;
pub mod target;
pub mod text;
pub mod verdict;
