//! Core of a small question-and-answer service: extraction of
//! pagination bounds from query parameters, classification of the
//! outcomes of an external content-moderation call, an in-memory
//! store with CRUD operations over questions and answers, the request
//! handlers that compose these, and a closed error taxonomy with a
//! single recovery mapping from rejections to responses.

pub mod decimal;
pub mod errors;
pub mod profanity;
pub mod routes;
pub mod shared;
pub mod store;
pub mod types;
