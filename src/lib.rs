//! Parsing, classification and planning for the `tool` attribute: the verified
//! core that decides what a tool declaration or a block of tools turns into.
pub mod text;
pub mod token;
pub mod attrs;
pub mod classify;
pub mod tool_fn;
pub mod tool_impl;
pub mod laws;
