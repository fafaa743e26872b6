//! Startup layer of a container-image registry front end: the runtime
//! configuration and its builder, the admission policy that request handlers
//! consult, the settings of the HTTP server, and the launch sequence as a
//! state machine whose actions the embedding program performs.
pub mod config;
pub mod http;
pub mod launch;
pub mod policy;
pub mod text;
