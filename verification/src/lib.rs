//! Settings for the optional Helicone observability integration, and the
//! decisions of its connectivity check.
//!
//! The library holds no lock, opens no socket and writes no file. Each
//! operation is a function on plain values: the caller that owns the shared
//! application settings borrows them for the call, performs whatever the
//! function asks for (persist this snapshot, send this request) and hands the
//! outcome back.

pub mod config;
pub mod decimal;
pub mod commands;
pub mod guarantees;
