//! Requests that the core hands to the platform layer.

use vstd::prelude::*;

verus! {

/// A request for a service that only the platform can provide.
#[derive(Debug, PartialEq, Eq)]
pub enum MessageRustToAndroid {
    /// Let the user pick the music directory.
    AskDirectory,
    /// Open the given link outside the player.
    OpenLink(String),
}

} // verus!
