//! Request forwarding and stream re-framing for a desktop chat client: the
//! outbound calls to an OpenAI-style or Ollama-style API, the normalizing of
//! their answers, the incremental re-framing of their event streams, the
//! registry of cancellable streams, and the lifecycle of a local proxy.
pub mod consumer;
pub mod endpoint;
pub mod error;
pub mod forward;
pub mod laws;
pub mod models;
pub mod proxy;
pub mod registry;
pub mod sse;
pub mod text;
