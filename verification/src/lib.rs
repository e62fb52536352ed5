//! Typed, transport-free core of a dashboard API client.
//!
//! A webview asks a remote dashboard for its health, for a snapshot of the
//! whole system, for the list of agents, or hands it a task. This library
//! says which request each of these calls sends and turns what comes back
//! into a typed record or an error. It sends nothing itself: the caller owns
//! the connection.

pub mod commands;
pub mod decode;
pub mod encode;
pub mod error;
pub mod json;
pub mod laws;
pub mod records;
pub mod value;
