//! Orchestration of a desktop workspace made of "offices": windows that are
//! each bound to a role, can be sent messages, and are opened and closed by
//! scripted workflows, once the preflight diagnostics have passed.

pub mod commands;
pub mod diagnostics;
pub mod error;
pub mod gateway;
pub mod host;
pub mod ident;
pub mod json;
pub mod office;
pub mod preflight;
pub mod probes;
pub mod router;
pub mod system;
pub mod text;
pub mod window;
pub mod workflow;
