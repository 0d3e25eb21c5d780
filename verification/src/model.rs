//! Identifiers shared by the modules.

use vstd::prelude::*;

verus! {

/// The identity of the bot user that a node plays for.
#[derive(Clone, Copy, PartialEq, Eq, Structural, Debug, Hash, Default)]
pub struct UserId(pub u64);

/// The key of a guild, and of the playback session the server keeps for it.
#[derive(Clone, Copy, PartialEq, Eq, Structural, Debug, Hash, Default)]
pub struct GuildId(pub u64);

} // verus!
