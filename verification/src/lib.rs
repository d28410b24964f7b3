//! Turns a Rust entry point into one self-contained artifact: resolves the
//! source file to start from, picks the manifest that accompanies it, and
//! assembles the final text, optionally framed as a self-executing script.

pub mod entry;
pub mod error;
pub mod highlight;
pub mod locate;
pub mod manifest;
pub mod options;
pub mod paths;
pub mod script;
