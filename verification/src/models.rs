//! Rows of the bot's database.

use vstd::prelude::*;

verus! {

/// A member's voice channel: the channel's id and its owner's id, both
/// stored as decimal text.
pub struct VoiceInfo {
    pub voice_id: String,
    pub owner_id: String,
}

/// A member's voice channel in the numbered table: the row's number, the
/// channel's id and its owner's id, the ids stored as decimal text.
pub struct VoicesInfo {
    pub id: i64,
    pub channel_id: String,
    pub owner_id: String,
}

/// A member's settings: whether joining the start channel takes them back
/// to the channel they own.
pub struct User {
    pub id: String,
    pub return_to_owned_channel: bool,
}

} // verus!
