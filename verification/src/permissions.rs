//! The Discord permissions that the bot reads and grants.

use vstd::prelude::*;

verus! {

/// The permissions that matter to the bot, each held or not.
#[derive(Clone, Copy, Debug, PartialEq, Eq, Structural)]
pub struct PermissionSet {
    pub manage_channels: bool,
    pub move_members: bool,
    pub mute_members: bool,
    pub deafen_members: bool,
}

/// Whether the bot may start working with the permissions it holds in the
/// guild: it stops only when it holds none of the four.
pub fn has_operating_permissions(p: &PermissionSet) -> (r: bool)
    ensures
        r == (p.manage_channels || p.move_members || p.mute_members || p.deafen_members),
{
    p.manage_channels || p.move_members || p.mute_members || p.deafen_members
}

/// The permissions that a channel's owner is granted on it: managing the
/// channel, muting and deafening members; nothing is denied.
pub open spec fn owner_permissions() -> PermissionSet {
    PermissionSet { manage_channels: true, move_members: false, mute_members: true, deafen_members: true }
}

/// The permissions denied to a channel's owner: none.
pub open spec fn no_permissions() -> PermissionSet {
    PermissionSet { manage_channels: false, move_members: false, mute_members: false, deafen_members: false }
}

/// The permissions denied to a channel's owner.
pub fn owner_deny() -> (r: PermissionSet)
    ensures
        r == no_permissions(),
{
    PermissionSet { manage_channels: false, move_members: false, mute_members: false, deafen_members: false }
}

/// The permissions granted to a channel's owner.
pub fn owner_grant() -> (r: PermissionSet)
    ensures
        r == owner_permissions(),
{
    PermissionSet { manage_channels: true, move_members: false, mute_members: true, deafen_members: true }
}

} // verus!
