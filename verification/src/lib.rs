//! Rich-presence logic of a tray application that mirrors a chosen game title
//! into the status shown by a local chat client.
//!
//! The crate holds the decisions only: which transport serves a platform, what
//! an activity payload contains, what a holder of the presence displays after
//! each settled submission, what the menus list, and which action a menu or
//! tray event asks for. Sockets, windows and clocks belong to the caller.

use vstd::prelude::*;
use crate::presence::PresenceError;

pub mod activity;
pub mod dispatch;
pub mod menu;
pub mod platform;
pub mod presence;
pub mod text;

verus! {

/// Tells whether the library is ready for use. It has nothing to set up
/// before the first request, so it always is.
pub fn test() -> (outcome: Result<(), PresenceError>)
    ensures
        outcome is Ok,
{
    Ok(())
}

} // verus!
