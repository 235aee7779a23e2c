//! Passkeys and two-step login for a Bitwarden-compatible server.
//!
//! The library holds the decisions: which SQL runs with which values, how a WebAuthn ceremony is
//! configured and answered, what a client receives, and which error it gets instead. Input and
//! output (the database, the clock, the passkey protocol, HTTP) stay with the caller.
//!
//! Specifications speak of models: a type `T` has a `TModel` with `Seq<char>` for its strings,
//! reached by `deep_view`. Laws, which stand beside what they speak of and under [`laws`], say what
//! holds of all inputs and of several calls.
pub mod encoding;
pub mod error;
pub mod flow;
pub mod handlers;
pub mod identifier;
pub mod json;
pub mod laws;
pub mod models;
pub mod resume;
pub mod sql;
pub mod text;
pub mod types;
pub mod util;
pub mod webauthn;
