//! Session core of a small quantum-circuit compiler front end: option
//! resolution, phase sequencing, diagnostics and gate transcription.

pub mod circuit;
pub mod config;
pub mod context;
pub mod diag;
pub mod gates;
pub mod orchestrator;
pub mod session;
pub mod text;
pub mod transcribe;
