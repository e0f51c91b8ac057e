//! Who speaks in a conversation.
use vstd::prelude::*;

verus! {

/// The sender of a message.
#[derive(Debug, Clone, Copy, PartialEq, Eq, Structural)]
pub enum Role {
    User,
    Assistant,
}

} // verus!
