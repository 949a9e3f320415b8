//! The shapes exchanged with the completion service.

pub mod openai_request;
pub mod openai_response;
