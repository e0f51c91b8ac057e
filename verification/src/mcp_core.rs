//! The protocol core of the first-generation MCP crates: content, prompts,
//! JSON-RPC messages and handler errors.
use vstd::prelude::*;

pub mod content;
pub mod handler;
pub mod prompt;
pub mod protocol;
pub mod resource;
pub mod role;

verus! {

} // verus!
