//! Verified core of a local inference server's streaming-completion path.
//!
//! The library models and verifies the request-serving logic: a bounded
//! pool of model slots with non-blocking checkout, the worker's
//! generation loop decisions and cooperative cancellation, the
//! producer-to-consumer token channel with its delivery-order guarantee,
//! the stream adapter that turns channel items into response chunks, and
//! the idempotent start/stop lifecycle of the listening server.
//! Binding sockets, spawning threads and running the generation
//! primitive are left to the embedding application.

pub mod channel;
pub mod endpoint;
pub mod lifecycle;
mod pipe;
pub mod pool;
pub mod stream;
pub mod worker;
