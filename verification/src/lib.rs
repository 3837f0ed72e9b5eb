//! Streaming protocol layer for an OpenAI-style chat completions service:
//! the provider-agnostic conversation model, the provider's wire schema, the
//! mapping between the two, the decoder of the server-push event stream and
//! the builder of the prompt that resumes an interrupted stream.

pub mod client;
pub mod codec;
pub mod conversions;
pub mod llm;
pub mod render;
pub mod resume;
pub mod stream;
pub mod stream_laws;
pub mod text;
pub mod views;
