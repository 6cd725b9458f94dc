//! The two players.

use vstd::prelude::*;

verus! {

/// One of the two players. Each is the negation of the other: after
/// `player` has moved it is the turn of `!player`.
pub type Player = bool;

/// The player who moves first.
pub const X: Player = true;

/// The player who moves second.
pub const O: Player = false;

} // verus!
