//! What differs from one model provider to the next.

pub mod anthropic_events;
pub mod event_laws;
pub mod index_laws;
pub mod index_texts;
pub mod responses_reader;
pub mod streaming_laws;
pub mod streaming_responses;
