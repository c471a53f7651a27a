//! Model providers and the turn protocol they speak.
pub mod openai_responses;
pub mod provider;
