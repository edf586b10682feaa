//! The actions a key press can ask of the interface.
use vstd::prelude::*;

verus! {

/// What the consumer loop does in response to a key event.
#[derive(Debug, Clone, Copy, PartialEq, Eq, Structural)]
pub enum Action {
    /// Clear the chat window.
    Clear,
    /// Leave the interface and shut the client down.
    Exit,
}

} // verus!
