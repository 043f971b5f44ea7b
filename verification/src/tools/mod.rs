//! What each tool computes.
//!
//! A tool reads, writes, runs or fetches at its edges; what lies between,
//! the checks on its arguments and the text that it gives back, is here.

pub mod files;
pub mod shell;
pub mod web;
pub mod code;
pub mod math;
pub mod memory;
