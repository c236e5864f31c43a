//! Self-update engine of the TwitchDesk desktop client, together with the
//! plain data the client exchanges with its API.
//!
//! The engine is written as decisions on plain values: the surrounding
//! program performs the network and file operations and reports what
//! happened; the functions here say what to do next.
pub mod loading;
pub mod models;
pub mod preview;
pub mod text;
pub mod update;
