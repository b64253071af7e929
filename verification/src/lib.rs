//! Helpers for driving Holochain "sweettest" conductors in tests: the
//! naming of entry definitions, the rendering of source-chain dumps, the
//! retry discipline for zome calls and the buffering of app signals.
//!
//! Everything here works on plain values; the conductor plumbing that feeds
//! these functions lives next to the test harness.

pub mod text;
pub mod chain;
pub mod entry_defs;
pub mod retry;
pub mod signals;

use vstd::prelude::*;

verus! {

/// Nickname of the first agent of a test scenario.
pub const ALEX_NICK: &'static str = "alex";

/// Nickname of the second agent of a test scenario.
pub const BILLY_NICK: &'static str = "billy";

/// Nickname of the third agent of a test scenario.
pub const CAMILLE_NICK: &'static str = "camille";

} // verus!
