//! Joining a voice channel: whoever joins the start channel gets a channel of
//! their own, or is taken back to the one they own.
//!
//! The handler alternates reads and writes on Discord, the cache and the
//! database with decisions; the machine here makes the decisions and asks for
//! each operation in turn, and the caller performs it and reports back.

use vstd::prelude::*;
use crate::models::{User, VoiceInfo};
use crate::permissions::{PermissionSet, owner_grant, owner_permissions, owner_deny, no_permissions};
use crate::random::select_random_owner_id;
use crate::text::{channel_name, creation_reason, decimal, parse_u64, parse_u64_spec, u64_to_string, lemma_parse_decimal};
use crate::voice::{
    Begin, ChannelKind, Config, MemberInfo, VoiceStateInfo, VoiceEntry, Fetched, Invalid, AbortReason, Outcome,
    DEFAULT_CHANNEL_ID, users_where, has_id_text, users_in_channel_text, contains_id, lemma_users_where_sound,
};

verus! {

/// What the cache holds of the start channel.
pub enum StartChannelCache {
    /// The guild is not in the cache.
    GuildNotCached,
    /// The start channel is not among the guild's channels.
    ChannelNotCached,
    /// The start channel is in no category.
    NoCategory,
    /// The start channel is in this category.
    InCategory(u64),
}

/// What the caller reports of the operation it was asked for.
pub enum ConnectEvent {
    /// The guild was fetched from Discord, or the fetch failed.
    GuildFetched { ok: bool },
    /// The configured parent category (if set) and the start channel's
    /// category from the cache.
    ParentSource { configured: Option<String>, cache: StartChannelCache },
    /// The member's settings row.
    UserInfo(Fetched<User>),
    /// The channel the member owns, if any.
    OwnedChannel(Fetched<Option<VoiceInfo>>),
    /// The ids of the guild's channels, `None` when the guild is not cached.
    GuildChannels(Option<Vec<u64>>),
    /// The guild's voice states, `None` when the guild is not cached.
    VoiceStates(Option<Vec<VoiceEntry>>),
    /// A write finished, or failed.
    Completed { ok: bool },
    /// The new channel was created with this id, or the creation failed.
    ChannelCreated(Option<u64>),
}

/// The operation the machine asks for next.
pub enum ConnectAction {
    /// Fetch the guild from Discord.
    FetchGuild { guild: u64 },
    /// Read the configured parent category and the start channel's category.
    ReadParentSource { guild: u64, start_channel: u64 },
    /// Read the settings of the user with this id (decimal text).
    FetchUserInfo { user_id: String },
    /// Read the channel owned by the user whose id is this number.
    FetchOwnedChannel { owner_number: i64 },
    /// Read the ids of the guild's channels from the cache.
    ReadGuildChannels { guild: u64 },
    /// Read the guild's voice states from the cache.
    ReadVoiceStates { guild: u64 },
    /// Move the member into this channel.
    MoveMember { channel: u64 },
    /// Hand this channel to a new owner on Discord.
    TransferOwnership { channel: u64, new_owner: u64 },
    /// Write the new owner (decimal text) into the channel's row.
    UpdateOwnerRecord { record: VoiceInfo, owner_id: String },
    /// Create a channel of kind `kind` in `category`, named `name`, granting
    /// `grant` to `owner` and denying `deny`, with `reason` in the audit log.
    CreateChannel {
        guild: u64,
        name: String,
        kind: ChannelKind,
        category: u64,
        owner: u64,
        grant: PermissionSet,
        deny: PermissionSet,
        reason: String,
    },
    /// Store a new channel row (ids as decimal text).
    InsertRecord { voice_id: String, owner_id: String },
    /// Stop with this outcome.
    Finish(Outcome),
}

/// Where the machine stands, with what it has learnt so far.
pub enum ConnectPhase {
    AwaitGuild,
    AwaitParentSource,
    AwaitUserInfo { parent: u64 },
    AwaitOwnedChannel { parent: u64, user: User },
    AwaitGuildChannels { parent: u64, user: User, record: VoiceInfo },
    AwaitVoiceStates { parent: u64, user: User, record: VoiceInfo, channel: u64 },
    AwaitMoveBack { parent: u64, then_create: bool },
    AwaitTransfer { parent: u64, record: VoiceInfo, new_owner: u64 },
    AwaitOwnerRecord { parent: u64 },
    AwaitCreate,
    AwaitMoveToNew { channel: u64 },
    AwaitInsert,
    Done,
}

/// The state of one run of the join handler.
pub struct ConnectMachine {
    pub config: Config,
    pub member: MemberInfo,
    /// The guild of the voice state.
    pub guild: u64,
    /// The channel joined (the default id when absent).
    pub joined: u64,
    pub phase: ConnectPhase,
}

/// How a run begins: without a member or a guild it ends at once; otherwise
/// it asks for the guild.
pub open spec fn begin_connect_spec(new: VoiceStateInfo, config: Config, r: Begin<ConnectMachine, ConnectAction>) -> bool {
    match (new.member, new.guild_id) {
        (Some(member), Some(guild)) => r matches Begin::Running(m, a) && m.config == config
            && m.member == member && m.guild == guild
            && m.joined == new.channel_id.unwrap_or(DEFAULT_CHANNEL_ID)
            && m.phase is AwaitGuild && a == (ConnectAction::FetchGuild { guild }),
        _ => r == Begin::<ConnectMachine, ConnectAction>::Finished(Outcome::Done),
    }
}

/// Starts the join handler on the new voice state.
pub fn begin_connect(new: VoiceStateInfo, config: Config) -> (r: Begin<ConnectMachine, ConnectAction>)
    ensures
        begin_connect_spec(new, config, r),
{
    let VoiceStateInfo { member, channel_id, guild_id } = new;
    match member {
        None => Begin::Finished(Outcome::Done),
        Some(member) => match guild_id {
            None => Begin::Finished(Outcome::Done),
            Some(guild) => {
                let joined = match channel_id {
                    Some(c) => c,
                    None => DEFAULT_CHANNEL_ID,
                };
                Begin::Running(
                    ConnectMachine { config, member, guild, joined, phase: ConnectPhase::AwaitGuild },
                    ConnectAction::FetchGuild { guild },
                )
            },
        },
    }
}

/// The run keeps what it knew of the member and the channels.
pub open spec fn keeps(m: ConnectMachine, n: ConnectMachine) -> bool {
    n.config == m.config && n.member == m.member && n.guild == m.guild && n.joined == m.joined
}

/// The run ends with `o`.
pub open spec fn ends(m: ConnectMachine, r: (ConnectMachine, ConnectAction), o: Outcome) -> bool {
    keeps(m, r.0) && r.0.phase is Done && r.1 == ConnectAction::Finish(o)
}

/// The run asks for the member's channel: a voice channel in `parent`,
/// named after the member's shown name, owned by the member, who is granted
/// the owner's permissions and denied none.
pub open spec fn creates(m: ConnectMachine, parent: u64, r: (ConnectMachine, ConnectAction)) -> bool {
    &&& keeps(m, r.0)
    &&& r.0.phase is AwaitCreate
    &&& r.1 matches ConnectAction::CreateChannel { guild, name, kind, category, owner, grant, deny, reason }
    &&& guild == m.guild
    &&& kind == ChannelKind::Voice
    &&& deny == no_permissions()
    &&& name@ == m.member.display_name_spec() + "'s channel"@
    &&& category == parent
    &&& owner == m.member.user_id
    &&& grant == owner_permissions()
    &&& reason@ == "User "@ + m.member.display_name_spec() + " created voice chat"@
}

/// The run keeps what it knew and asks for `a`, standing at `phase`.
pub open spec fn asks(m: ConnectMachine, r: (ConnectMachine, ConnectAction), phase: ConnectPhase, a: ConnectAction) -> bool {
    keeps(m, r.0) && r.0.phase == phase && r.1 == a
}

/// Whether the machine waits for this kind of report.
pub open spec fn connect_accepts(m: ConnectMachine, e: ConnectEvent) -> bool {
    match m.phase {
        ConnectPhase::AwaitGuild => e is GuildFetched,
        ConnectPhase::AwaitParentSource => e is ParentSource,
        ConnectPhase::AwaitUserInfo { .. } => e is UserInfo,
        ConnectPhase::AwaitOwnedChannel { .. } => e is OwnedChannel,
        ConnectPhase::AwaitGuildChannels { .. } => e is GuildChannels,
        ConnectPhase::AwaitVoiceStates { .. } => e is VoiceStates,
        ConnectPhase::AwaitCreate => e is ChannelCreated,
        ConnectPhase::Done => false,
        _ => e is Completed,
    }
}

/// One step of the join handler: what it does with the report `e`.
pub open spec fn connect_step_spec(m: ConnectMachine, e: ConnectEvent, r: (ConnectMachine, ConnectAction)) -> bool {
    match m.phase {
        ConnectPhase::AwaitGuild => match e {
            ConnectEvent::GuildFetched { ok } => if !ok {
                ends(m, r, Outcome::Failed)
            } else if m.guild != m.config.guild_id {
                ends(m, r, Outcome::Done)
            } else {
                asks(m, r, ConnectPhase::AwaitParentSource,
                    ConnectAction::ReadParentSource { guild: m.config.guild_id, start_channel: m.config.voice_id })
            },
            _ => false,
        },
        ConnectPhase::AwaitParentSource => match e {
            ConnectEvent::ParentSource { configured, cache } => match cache {
                StartChannelCache::GuildNotCached => ends(m, r, Outcome::Done),
                StartChannelCache::ChannelNotCached => ends(m, r, Outcome::Abort(AbortReason::StartChannelNotFound)),
                StartChannelCache::NoCategory => ends(m, r, Outcome::Abort(AbortReason::StartChannelWithoutCategory)),
                StartChannelCache::InCategory(p) => {
                    let text = match configured {
                        Some(s) => s@,
                        None => decimal(p as nat),
                    };
                    match parse_u64_spec(text) {
                        None => ends(m, r, Outcome::Abort(AbortReason::ParentIdNotNumeric)),
                        Some(parent) => {
                            &&& keeps(m, r.0)
                            &&& r.0.phase == (ConnectPhase::AwaitUserInfo { parent })
                            &&& r.1 matches ConnectAction::FetchUserInfo { user_id }
                            &&& user_id@ == decimal(m.member.user_id as nat)
                        },
                    }
                },
            },
            _ => false,
        },
        ConnectPhase::AwaitUserInfo { parent } => match e {
            ConnectEvent::UserInfo(Fetched::Failed) => ends(m, r, Outcome::Failed),
            ConnectEvent::UserInfo(Fetched::Got(user)) => if m.joined != m.config.voice_id {
                ends(m, r, Outcome::Done)
            } else {
                asks(m, r, ConnectPhase::AwaitOwnedChannel { parent, user },
                    ConnectAction::FetchOwnedChannel { owner_number: m.member.user_id as i64 })
            },
            _ => false,
        },
        ConnectPhase::AwaitOwnedChannel { parent, user } => match e {
            ConnectEvent::OwnedChannel(Fetched::Failed) => ends(m, r, Outcome::Failed),
            ConnectEvent::OwnedChannel(Fetched::Got(None)) => creates(m, parent, r),
            ConnectEvent::OwnedChannel(Fetched::Got(Some(record))) =>
                asks(m, r, ConnectPhase::AwaitGuildChannels { parent, user, record },
                    ConnectAction::ReadGuildChannels { guild: m.guild }),
            _ => false,
        },
        ConnectPhase::AwaitGuildChannels { parent, user, record } => match e {
            ConnectEvent::GuildChannels(None) => ends(m, r, Outcome::Done),
            ConnectEvent::GuildChannels(Some(ids)) => match parse_u64_spec(record.voice_id@) {
                None => ends(m, r, Outcome::Invalid(Invalid::ChannelIdNotNumeric)),
                Some(channel) => if channel == 0 {
                    ends(m, r, Outcome::Abort(AbortReason::ZeroChannelId))
                } else if ids@.contains(channel) {
                    asks(m, r, ConnectPhase::AwaitVoiceStates { parent, user, record, channel },
                        ConnectAction::ReadVoiceStates { guild: m.guild })
                } else {
                    creates(m, parent, r)
                },
            },
            _ => false,
        },
        ConnectPhase::AwaitVoiceStates { parent, user, record, channel } => match e {
            ConnectEvent::VoiceStates(None) => ends(m, r, Outcome::Done),
            ConnectEvent::VoiceStates(Some(states)) => {
                let occupants = users_where(states@, has_id_text(record.voice_id@));
                if occupants.len() == 0 {
                    asks(m, r, ConnectPhase::AwaitMoveBack { parent, then_create: false },
                        ConnectAction::MoveMember { channel })
                } else if user.return_to_owned_channel {
                    asks(m, r, ConnectPhase::AwaitMoveBack { parent, then_create: true },
                        ConnectAction::MoveMember { channel })
                } else {
                    &&& keeps(m, r.0)
                    &&& r.0.phase matches ConnectPhase::AwaitTransfer { parent: p, record: rec, new_owner }
                    &&& p == parent && rec == record && occupants.contains(new_owner)
                    &&& r.1 == (ConnectAction::TransferOwnership { channel, new_owner })
                }
            },
            _ => false,
        },
        ConnectPhase::AwaitMoveBack { parent, then_create } => match e {
            ConnectEvent::Completed { ok } => if !ok {
                ends(m, r, Outcome::Failed)
            } else if !then_create {
                ends(m, r, Outcome::Done)
            } else {
                creates(m, parent, r)
            },
            _ => false,
        },
        ConnectPhase::AwaitTransfer { parent, record, new_owner } => match e {
            ConnectEvent::Completed { ok } => if !ok {
                ends(m, r, Outcome::Failed)
            } else {
                &&& keeps(m, r.0)
                &&& r.0.phase == (ConnectPhase::AwaitOwnerRecord { parent })
                &&& r.1 matches ConnectAction::UpdateOwnerRecord { record: rec, owner_id }
                &&& rec == record && owner_id@ == decimal(new_owner as nat)
            },
            _ => false,
        },
        ConnectPhase::AwaitOwnerRecord { parent } => match e {
            ConnectEvent::Completed { ok } => if !ok {
                ends(m, r, Outcome::Abort(AbortReason::DatabaseFailed))
            } else {
                creates(m, parent, r)
            },
            _ => false,
        },
        ConnectPhase::AwaitCreate => match e {
            ConnectEvent::ChannelCreated(None) => ends(m, r, Outcome::Failed),
            ConnectEvent::ChannelCreated(Some(channel)) =>
                asks(m, r, ConnectPhase::AwaitMoveToNew { channel }, ConnectAction::MoveMember { channel }),
            _ => false,
        },
        ConnectPhase::AwaitMoveToNew { channel } => match e {
            ConnectEvent::Completed { ok } => if !ok {
                ends(m, r, Outcome::Failed)
            } else {
                &&& keeps(m, r.0)
                &&& r.0.phase is AwaitInsert
                &&& inserts_row(r.1, channel, m.member.user_id)
            },
            _ => false,
        },
        ConnectPhase::AwaitInsert => match e {
            ConnectEvent::Completed { ok } => if !ok {
                ends(m, r, Outcome::Abort(AbortReason::DatabaseFailed))
            } else {
                ends(m, r, Outcome::Done)
            },
            _ => false,
        },
        ConnectPhase::Done => false,
    }
}

/// The row insert `a` stores channel `channel` with owner `owner`, both as
/// decimal text, as the join handler writes rows.
pub open spec fn inserts_row(a: ConnectAction, channel: u64, owner: u64) -> bool {
    a matches ConnectAction::InsertRecord { voice_id, owner_id }
        && voice_id@ == decimal(channel as nat) && owner_id@ == decimal(owner as nat)
}

/// Stops the run with outcome `o`.
fn finish(config: Config, member: MemberInfo, guild: u64, joined: u64, o: Outcome) -> (r: (ConnectMachine, ConnectAction))
    ensures
        r.0.config == config && r.0.member == member && r.0.guild == guild && r.0.joined == joined,
        r.0.phase is Done,
        r.1 == ConnectAction::Finish(o),
{
    (ConnectMachine { config, member, guild, joined, phase: ConnectPhase::Done }, ConnectAction::Finish(o))
}

/// Asks for the member's new channel in category `parent`.
fn create(config: Config, member: MemberInfo, guild: u64, joined: u64, parent: u64) -> (r: (ConnectMachine, ConnectAction))
    ensures
        r.0.config == config && r.0.member == member && r.0.guild == guild && r.0.joined == joined,
        r.0.phase is AwaitCreate,
        r.1 matches ConnectAction::CreateChannel { guild: g, name, kind, category, owner, grant, deny, reason }
            && g == guild
            && kind == ChannelKind::Voice
            && deny == no_permissions()
            && name@ == member.display_name_spec() + "'s channel"@
            && category == parent
            && owner == member.user_id
            && grant == owner_permissions()
            && reason@ == "User "@ + member.display_name_spec() + " created voice chat"@,
{
    let shown = member.display_name();
    let reason = creation_reason(shown.as_str());
    let name = channel_name(shown.as_str());
    let owner = member.user_id;
    let action = ConnectAction::CreateChannel {
        guild,
        name,
        kind: ChannelKind::Voice,
        category: parent,
        owner,
        grant: owner_grant(),
        deny: owner_deny(),
        reason,
    };
    (ConnectMachine { config, member, guild, joined, phase: ConnectPhase::AwaitCreate }, action)
}

impl ConnectMachine {
    /// Whether the machine waits for this kind of report.
    pub fn accepts(&self, e: &ConnectEvent) -> (r: bool)
        ensures
            r == connect_accepts(*self, *e),
    {
        match &self.phase {
            ConnectPhase::AwaitGuild => matches!(e, ConnectEvent::GuildFetched { .. }),
            ConnectPhase::AwaitParentSource => matches!(e, ConnectEvent::ParentSource { .. }),
            ConnectPhase::AwaitUserInfo { .. } => matches!(e, ConnectEvent::UserInfo(..)),
            ConnectPhase::AwaitOwnedChannel { .. } => matches!(e, ConnectEvent::OwnedChannel(..)),
            ConnectPhase::AwaitGuildChannels { .. } => matches!(e, ConnectEvent::GuildChannels(..)),
            ConnectPhase::AwaitVoiceStates { .. } => matches!(e, ConnectEvent::VoiceStates(..)),
            ConnectPhase::AwaitCreate => matches!(e, ConnectEvent::ChannelCreated(..)),
            ConnectPhase::Done => false,
            _ => matches!(e, ConnectEvent::Completed { .. }),
        }
    }

    /// Takes the report of the operation asked for last, and says what to
    /// do next.
    pub fn step(self, e: ConnectEvent) -> (r: (ConnectMachine, ConnectAction))
        requires
            connect_accepts(self, e),
        ensures
            connect_step_spec(self, e, r),
    {
        let ConnectMachine { config, member, guild, joined, phase } = self;
        match phase {
            ConnectPhase::AwaitGuild => {
                let ok = match e {
                    ConnectEvent::GuildFetched { ok } => ok,
                    _ => false,
                };
                if !ok {
                    finish(config, member, guild, joined, Outcome::Failed)
                } else if guild != config.guild_id {
                    finish(config, member, guild, joined, Outcome::Done)
                } else {
                    let a = ConnectAction::ReadParentSource { guild: config.guild_id, start_channel: config.voice_id };
                    (ConnectMachine { config, member, guild, joined, phase: ConnectPhase::AwaitParentSource }, a)
                }
            },
            ConnectPhase::AwaitParentSource => {
                match e {
                    ConnectEvent::ParentSource { configured, cache } => match cache {
                        StartChannelCache::GuildNotCached => finish(config, member, guild, joined, Outcome::Done),
                        StartChannelCache::ChannelNotCached =>
                            finish(config, member, guild, joined, Outcome::Abort(AbortReason::StartChannelNotFound)),
                        StartChannelCache::NoCategory =>
                            finish(config, member, guild, joined, Outcome::Abort(AbortReason::StartChannelWithoutCategory)),
                        StartChannelCache::InCategory(p) => {
                            let text = match configured {
                                Some(s) => s,
                                None => u64_to_string(p),
                            };
                            match parse_u64(text.as_str()) {
                                None => finish(config, member, guild, joined, Outcome::Abort(AbortReason::ParentIdNotNumeric)),
                                Some(parent) => {
                                    let user_id = u64_to_string(member.user_id);
                                    (ConnectMachine { config, member, guild, joined, phase: ConnectPhase::AwaitUserInfo { parent } },
                                        ConnectAction::FetchUserInfo { user_id })
                                },
                            }
                        },
                    },
                    _ => finish(config, member, guild, joined, Outcome::Done),
                }
            },
            ConnectPhase::AwaitUserInfo { parent } => match e {
                ConnectEvent::UserInfo(Fetched::Got(user)) => {
                    if joined != config.voice_id {
                        finish(config, member, guild, joined, Outcome::Done)
                    } else {
                        let owner_number = member.user_id as i64;
                        (ConnectMachine { config, member, guild, joined, phase: ConnectPhase::AwaitOwnedChannel { parent, user } },
                            ConnectAction::FetchOwnedChannel { owner_number })
                    }
                },
                _ => finish(config, member, guild, joined, Outcome::Failed),
            },
            ConnectPhase::AwaitOwnedChannel { parent, user } => match e {
                ConnectEvent::OwnedChannel(Fetched::Got(None)) => create(config, member, guild, joined, parent),
                ConnectEvent::OwnedChannel(Fetched::Got(Some(record))) =>
                    (ConnectMachine { config, member, guild, joined, phase: ConnectPhase::AwaitGuildChannels { parent, user, record } },
                        ConnectAction::ReadGuildChannels { guild }),
                _ => finish(config, member, guild, joined, Outcome::Failed),
            },
            ConnectPhase::AwaitGuildChannels { parent, user, record } => match e {
                ConnectEvent::GuildChannels(Some(ids)) => match parse_u64(record.voice_id.as_str()) {
                    None => finish(config, member, guild, joined, Outcome::Invalid(Invalid::ChannelIdNotNumeric)),
                    Some(channel) => {
                        if channel == 0 {
                            finish(config, member, guild, joined, Outcome::Abort(AbortReason::ZeroChannelId))
                        } else if contains_id(&ids, channel) {
                            (ConnectMachine {
                                config, member, guild, joined,
                                phase: ConnectPhase::AwaitVoiceStates { parent, user, record, channel },
                            }, ConnectAction::ReadVoiceStates { guild })
                        } else {
                            create(config, member, guild, joined, parent)
                        }
                    },
                },
                _ => finish(config, member, guild, joined, Outcome::Done),
            },
            ConnectPhase::AwaitVoiceStates { parent, user, record, channel } => match e {
                ConnectEvent::VoiceStates(Some(states)) => {
                    let occupants = users_in_channel_text(&states, &record.voice_id);
                    if occupants.len() == 0 {
                        (ConnectMachine { config, member, guild, joined, phase: ConnectPhase::AwaitMoveBack { parent, then_create: false } },
                            ConnectAction::MoveMember { channel })
                    } else if user.return_to_owned_channel {
                        (ConnectMachine { config, member, guild, joined, phase: ConnectPhase::AwaitMoveBack { parent, then_create: true } },
                            ConnectAction::MoveMember { channel })
                    } else {
                        let new_owner = *select_random_owner_id(&occupants);
                        (ConnectMachine { config, member, guild, joined, phase: ConnectPhase::AwaitTransfer { parent, record, new_owner } },
                            ConnectAction::TransferOwnership { channel, new_owner })
                    }
                },
                _ => finish(config, member, guild, joined, Outcome::Done),
            },
            ConnectPhase::AwaitMoveBack { parent, then_create } => {
                let ok = match e {
                    ConnectEvent::Completed { ok } => ok,
                    _ => false,
                };
                if !ok {
                    finish(config, member, guild, joined, Outcome::Failed)
                } else if !then_create {
                    finish(config, member, guild, joined, Outcome::Done)
                } else {
                    create(config, member, guild, joined, parent)
                }
            },
            ConnectPhase::AwaitTransfer { parent, record, new_owner } => {
                let ok = match e {
                    ConnectEvent::Completed { ok } => ok,
                    _ => false,
                };
                if !ok {
                    finish(config, member, guild, joined, Outcome::Failed)
                } else {
                    let owner_id = u64_to_string(new_owner);
                    (ConnectMachine { config, member, guild, joined, phase: ConnectPhase::AwaitOwnerRecord { parent } },
                        ConnectAction::UpdateOwnerRecord { record, owner_id })
                }
            },
            ConnectPhase::AwaitOwnerRecord { parent } => {
                let ok = match e {
                    ConnectEvent::Completed { ok } => ok,
                    _ => false,
                };
                if !ok {
                    finish(config, member, guild, joined, Outcome::Abort(AbortReason::DatabaseFailed))
                } else {
                    create(config, member, guild, joined, parent)
                }
            },
            ConnectPhase::AwaitCreate => match e {
                ConnectEvent::ChannelCreated(Some(channel)) =>
                    (ConnectMachine { config, member, guild, joined, phase: ConnectPhase::AwaitMoveToNew { channel } },
                        ConnectAction::MoveMember { channel }),
                _ => finish(config, member, guild, joined, Outcome::Failed),
            },
            ConnectPhase::AwaitMoveToNew { channel } => {
                let ok = match e {
                    ConnectEvent::Completed { ok } => ok,
                    _ => false,
                };
                if !ok {
                    finish(config, member, guild, joined, Outcome::Failed)
                } else {
                    let voice_id = u64_to_string(channel);
                    let owner_id = u64_to_string(member.user_id);
                    (ConnectMachine { config, member, guild, joined, phase: ConnectPhase::AwaitInsert },
                        ConnectAction::InsertRecord { voice_id, owner_id })
                }
            },
            ConnectPhase::AwaitInsert => {
                let ok = match e {
                    ConnectEvent::Completed { ok } => ok,
                    _ => false,
                };
                if !ok {
                    finish(config, member, guild, joined, Outcome::Abort(AbortReason::DatabaseFailed))
                } else {
                    finish(config, member, guild, joined, Outcome::Done)
                }
            },
            ConnectPhase::Done => finish(config, member, guild, joined, Outcome::Done),
        }
    }
}

/// A member who joins the start channel and owns no channel, with every
/// operation succeeding and no parent category configured, gets a channel of
/// their own: created in the start channel's category, named after them and
/// granting them the owner's permissions; they are moved into it, and its row
/// records the new channel with them as owner.
pub proof fn law_join_creates_owned_channel(
    new: VoiceStateInfo,
    config: Config,
    category: u64,
    user: User,
    created: u64,
    b: Begin<ConnectMachine, ConnectAction>,
    r1: (ConnectMachine, ConnectAction),
    r2: (ConnectMachine, ConnectAction),
    r3: (ConnectMachine, ConnectAction),
    r4: (ConnectMachine, ConnectAction),
    r5: (ConnectMachine, ConnectAction),
    r6: (ConnectMachine, ConnectAction),
    r7: (ConnectMachine, ConnectAction),
)
    requires
        new.member is Some,
        new.guild_id == Some(config.guild_id),
        new.channel_id == Some(config.voice_id),
        begin_connect_spec(new, config, b),
        b matches Begin::Running(m0, _) && connect_step_spec(m0, ConnectEvent::GuildFetched { ok: true }, r1),
        connect_step_spec(r1.0, ConnectEvent::ParentSource { configured: None, cache: StartChannelCache::InCategory(category) }, r2),
        connect_step_spec(r2.0, ConnectEvent::UserInfo(Fetched::Got(user)), r3),
        connect_step_spec(r3.0, ConnectEvent::OwnedChannel(Fetched::Got(None)), r4),
        connect_step_spec(r4.0, ConnectEvent::ChannelCreated(Some(created)), r5),
        connect_step_spec(r5.0, ConnectEvent::Completed { ok: true }, r6),
        connect_step_spec(r6.0, ConnectEvent::Completed { ok: true }, r7),
    ensures
        ({
            let member = new.member.unwrap();
            &&& r4.1 matches ConnectAction::CreateChannel { guild, name, kind, category: c, owner, grant, deny, reason }
            &&& guild == config.guild_id && c == category && owner == member.user_id
            &&& kind == ChannelKind::Voice
            &&& grant == owner_permissions() && deny == no_permissions()
            &&& name@ == member.display_name_spec() + "'s channel"@
            &&& reason@ == "User "@ + member.display_name_spec() + " created voice chat"@
            &&& r5.1 == (ConnectAction::MoveMember { channel: created })
            &&& r6.1 matches ConnectAction::InsertRecord { voice_id, owner_id }
            &&& voice_id@ == decimal(created as nat) && owner_id@ == decimal(member.user_id as nat)
            &&& r7.1 == ConnectAction::Finish(Outcome::Done)
        }),
{
    lemma_parse_decimal(category);
}

/// A member who joins any channel but the start channel changes nothing:
/// once the guild, the parent category and their settings are read, the
/// run ends.
pub proof fn law_join_elsewhere_changes_nothing(
    new: VoiceStateInfo,
    config: Config,
    category: u64,
    user: User,
    b: Begin<ConnectMachine, ConnectAction>,
    r1: (ConnectMachine, ConnectAction),
    r2: (ConnectMachine, ConnectAction),
    r3: (ConnectMachine, ConnectAction),
)
    requires
        new.member is Some,
        new.guild_id == Some(config.guild_id),
        new.channel_id.unwrap_or(DEFAULT_CHANNEL_ID) != config.voice_id,
        begin_connect_spec(new, config, b),
        b matches Begin::Running(m0, _) && connect_step_spec(m0, ConnectEvent::GuildFetched { ok: true }, r1),
        connect_step_spec(r1.0, ConnectEvent::ParentSource { configured: None, cache: StartChannelCache::InCategory(category) }, r2),
        connect_step_spec(r2.0, ConnectEvent::UserInfo(Fetched::Got(user)), r3),
    ensures
        r1.1 == (ConnectAction::ReadParentSource { guild: config.guild_id, start_channel: config.voice_id }),
        r2.1 is FetchUserInfo,
        r3.1 == ConnectAction::Finish(Outcome::Done),
{
    lemma_parse_decimal(category);
}

/// A member who joins the start channel while the channel recorded as theirs
/// (its id written as decimal text, as runs of this handler write it) still
/// exists and is empty is moved back into it, and nothing is created.
pub proof fn law_rejoin_returns_to_empty_owned_channel(
    new: VoiceStateInfo,
    config: Config,
    category: u64,
    user: User,
    record: VoiceInfo,
    owned: u64,
    channels: Vec<u64>,
    states: Vec<VoiceEntry>,
    b: Begin<ConnectMachine, ConnectAction>,
    r1: (ConnectMachine, ConnectAction),
    r2: (ConnectMachine, ConnectAction),
    r3: (ConnectMachine, ConnectAction),
    r4: (ConnectMachine, ConnectAction),
    r5: (ConnectMachine, ConnectAction),
    r6: (ConnectMachine, ConnectAction),
    r7: (ConnectMachine, ConnectAction),
)
    requires
        new.member is Some,
        new.guild_id == Some(config.guild_id),
        new.channel_id == Some(config.voice_id),
        owned != 0,
        record.voice_id@ == decimal(owned as nat),
        channels@.contains(owned),
        forall|i: int| 0 <= i < states@.len() ==> states@[i].channel_id != Some(owned),
        begin_connect_spec(new, config, b),
        b matches Begin::Running(m0, _) && connect_step_spec(m0, ConnectEvent::GuildFetched { ok: true }, r1),
        connect_step_spec(r1.0, ConnectEvent::ParentSource { configured: None, cache: StartChannelCache::InCategory(category) }, r2),
        connect_step_spec(r2.0, ConnectEvent::UserInfo(Fetched::Got(user)), r3),
        connect_step_spec(r3.0, ConnectEvent::OwnedChannel(Fetched::Got(Some(record))), r4),
        connect_step_spec(r4.0, ConnectEvent::GuildChannels(Some(channels)), r5),
        connect_step_spec(r5.0, ConnectEvent::VoiceStates(Some(states)), r6),
        connect_step_spec(r6.0, ConnectEvent::Completed { ok: true }, r7),
    ensures
        r6.1 == (ConnectAction::MoveMember { channel: owned }),
        r7.1 == ConnectAction::Finish(Outcome::Done),
{
    lemma_parse_decimal(category);
    lemma_parse_decimal(owned);
    let occupants = users_where(states@, has_id_text(record.voice_id@));
    if occupants.len() > 0 {
        let u = occupants[0];
        assert(occupants.contains(u));
        crate::voice::lemma_users_where_sound(states@, has_id_text(record.voice_id@), u);
        let i = choose|i: int| 0 <= i < states@.len() && states@[i].user_id == u
            && has_id_text(record.voice_id@)(#[trigger] states@[i].channel_id);
        let x = states@[i].channel_id.unwrap();
        assert(decimal(x as nat) == decimal(owned as nat));
        lemma_parse_decimal(x);
        assert(x == owned);
        assert(false);
    }
}

/// What a run knows of the phase it stands at: the channel it looks at for
/// the member's owned row is the non-zero id that the row's text names.
pub open spec fn connect_wf(m: ConnectMachine) -> bool {
    match m.phase {
        ConnectPhase::AwaitVoiceStates { record, channel, .. } =>
            parse_u64_spec(record.voice_id@) == Some(channel) && channel != 0,
        _ => true,
    }
}

/// Every run starts consistent and every step keeps it so.
pub proof fn law_connect_runs_stay_consistent(
    new: VoiceStateInfo,
    config: Config,
    b: Begin<ConnectMachine, ConnectAction>,
    m: ConnectMachine,
    e: ConnectEvent,
    r: (ConnectMachine, ConnectAction),
)
    requires
        begin_connect_spec(new, config, b),
        connect_wf(m),
        connect_step_spec(m, e, r),
    ensures
        b matches Begin::Running(m0, _) ==> connect_wf(m0),
        connect_wf(r.0),
{
}

/// Once the member's settings are read on joining the start channel, the
/// channel they own is looked up by their own id: read back as a `u64`, the
/// id asked for is the member's id, whatever its size.
pub proof fn law_owned_channel_looked_up_by_member_id(m: ConnectMachine, parent: u64, user: User, r: (ConnectMachine, ConnectAction))
    requires
        m.phase == (ConnectPhase::AwaitUserInfo { parent }),
        m.joined == m.config.voice_id,
        connect_step_spec(m, ConnectEvent::UserInfo(Fetched::Got(user)), r),
    ensures
        r.1 matches ConnectAction::FetchOwnedChannel { owner_number } && owner_number as u64 == m.member.user_id
            && (m.member.user_id <= i64::MAX ==> owner_number == m.member.user_id),
{
    let id = m.member.user_id;
    assert((id as i64) as u64 == id) by (bit_vector);
    assert(id <= 0x7fff_ffff_ffff_ffffu64 ==> (id as i64) == id) by (bit_vector);
}

/// The category of a new channel is the configured one when it is set (and
/// a number), else the start channel's own category; with no cached guild
/// the run ends, whatever is configured.
pub proof fn law_parent_category_choice(
    m: ConnectMachine,
    configured: Option<String>,
    cache: StartChannelCache,
    r: (ConnectMachine, ConnectAction),
)
    requires
        m.phase is AwaitParentSource,
        connect_step_spec(m, ConnectEvent::ParentSource { configured, cache }, r),
    ensures
        match cache {
            StartChannelCache::GuildNotCached => r.1 == ConnectAction::Finish(Outcome::Done),
            StartChannelCache::ChannelNotCached =>
                r.1 == ConnectAction::Finish(Outcome::Abort(AbortReason::StartChannelNotFound)),
            StartChannelCache::NoCategory =>
                r.1 == ConnectAction::Finish(Outcome::Abort(AbortReason::StartChannelWithoutCategory)),
            StartChannelCache::InCategory(p) => match configured {
                None => r.0.phase == (ConnectPhase::AwaitUserInfo { parent: p }),
                Some(text) => match parse_u64_spec(text@) {
                    Some(v) => r.0.phase == (ConnectPhase::AwaitUserInfo { parent: v }),
                    None => r.1 == ConnectAction::Finish(Outcome::Abort(AbortReason::ParentIdNotNumeric)),
                },
            },
        },
{
    if let StartChannelCache::InCategory(p) = cache {
        lemma_parse_decimal(p);
    }
}

/// Every channel the join handler asks to create is a voice channel in the
/// member's guild, named after the member's shown name, owned by the member,
/// who may manage it and mute and deafen in it, and is denied nothing.
pub proof fn law_created_channels_belong_to_the_member(m: ConnectMachine, e: ConnectEvent, r: (ConnectMachine, ConnectAction))
    requires
        connect_step_spec(m, e, r),
    ensures
        r.1 matches ConnectAction::CreateChannel { guild, name, kind, owner, grant, deny, reason, .. } ==> {
            &&& guild == m.guild && owner == m.member.user_id && kind == ChannelKind::Voice
            &&& grant.manage_channels && grant.mute_members && grant.deafen_members && !grant.move_members
            &&& !deny.manage_channels && !deny.move_members && !deny.mute_members && !deny.deafen_members
            &&& name@ == m.member.display_name_spec() + "'s channel"@
            &&& reason@ == "User "@ + m.member.display_name_spec() + " created voice chat"@
        },
{
}

/// A channel owned by the joining member is handed only to someone who is
/// in that very channel.
pub proof fn law_owned_channel_handed_to_an_occupant(m: ConnectMachine, e: ConnectEvent, r: (ConnectMachine, ConnectAction))
    requires
        connect_wf(m),
        connect_step_spec(m, e, r),
    ensures
        r.1 matches ConnectAction::TransferOwnership { channel, new_owner } ==>
            {
                &&& e matches ConnectEvent::VoiceStates(Some(states))
                &&& exists|i: int| 0 <= i < states@.len() && states@[i].user_id == new_owner
                    && #[trigger] states@[i].channel_id == Some(channel)
            },
{
    if let ConnectAction::TransferOwnership { channel, new_owner } = r.1 {
        if let ConnectPhase::AwaitVoiceStates { parent, user, record, channel: c } = m.phase {
            if let ConnectEvent::VoiceStates(Some(states)) = e {
                lemma_users_where_sound(states@, has_id_text(record.voice_id@), new_owner);
                let i = choose|i: int| 0 <= i < states@.len() && states@[i].user_id == new_owner
                    && has_id_text(record.voice_id@)(#[trigger] states@[i].channel_id);
                let x = states@[i].channel_id.unwrap();
                lemma_parse_decimal(x);
                assert(states@[i].channel_id == Some(channel));
            }
        }
    }
}

/// The member is taken back only to the channel recorded as theirs, and
/// only when their settings ask for it or nobody is in a channel whose id,
/// written in decimal, is the recorded text (so nobody is in the channel
/// itself when the row holds its id in that form).
pub proof fn law_taken_back_only_to_the_owned_channel(m: ConnectMachine, e: ConnectEvent, r: (ConnectMachine, ConnectAction))
    requires
        m.phase is AwaitVoiceStates,
        connect_wf(m),
        connect_step_spec(m, e, r),
    ensures
        r.1 matches ConnectAction::MoveMember { channel } ==> {
            &&& m.phase matches ConnectPhase::AwaitVoiceStates { user, record, .. }
            &&& parse_u64_spec(record.voice_id@) == Some(channel)
            &&& e matches ConnectEvent::VoiceStates(Some(states))
            &&& (user.return_to_owned_channel || forall|i: int| 0 <= i < states@.len()
                ==> !((#[trigger] states@[i].channel_id is Some && decimal(states@[i].channel_id.unwrap() as nat) == record.voice_id@)))
            &&& (!user.return_to_owned_channel && record.voice_id@ == decimal(channel as nat)
                ==> forall|i: int| 0 <= i < states@.len() ==> #[trigger] states@[i].channel_id != Some(channel))
        },
{
    if let ConnectAction::MoveMember { channel } = r.1 {
        if let ConnectPhase::AwaitVoiceStates { parent, user, record, channel: c } = m.phase {
            if let ConnectEvent::VoiceStates(Some(states)) = e {
                if !user.return_to_owned_channel {
                    assert forall|i: int| 0 <= i < states@.len()
                        implies !((#[trigger] states@[i].channel_id is Some && decimal(states@[i].channel_id.unwrap() as nat) == record.voice_id@)) by {
                        if states@[i].channel_id matches Some(x) && decimal(x as nat) == record.voice_id@ {
                            crate::voice::lemma_users_where_complete(states@, has_id_text(record.voice_id@), i);
                        }
                    }
                }
            }
        }
    }
}

/// The only row the join handler writes as new records the channel it has
/// just created, with the member as owner.
pub proof fn law_new_rows_record_the_created_channel(m: ConnectMachine, e: ConnectEvent, r: (ConnectMachine, ConnectAction))
    requires
        connect_step_spec(m, e, r),
    ensures
        r.1 matches ConnectAction::InsertRecord { voice_id, owner_id } ==>
            {
                &&& m.phase matches ConnectPhase::AwaitMoveToNew { channel }
                &&& parse_u64_spec(voice_id@) == Some(channel)
                &&& parse_u64_spec(owner_id@) == Some(m.member.user_id)
            },
{
    if let ConnectPhase::AwaitMoveToNew { channel } = m.phase {
        lemma_parse_decimal(channel);
        lemma_parse_decimal(m.member.user_id);
    }
}

/// Whether a report says that the operation asked for failed.
pub open spec fn connect_failure(e: ConnectEvent) -> bool {
    ||| e == (ConnectEvent::GuildFetched { ok: false })
    ||| e == ConnectEvent::UserInfo(Fetched::Failed)
    ||| e == ConnectEvent::OwnedChannel(Fetched::Failed)
    ||| e == ConnectEvent::ChannelCreated(None)
    ||| e == (ConnectEvent::Completed { ok: false })
}

/// A failed operation never lets the join handler go on: the run ends with
/// an error or aborts.
pub proof fn law_join_failures_end_the_run(m: ConnectMachine, e: ConnectEvent, r: (ConnectMachine, ConnectAction))
    requires
        connect_failure(e),
        connect_step_spec(m, e, r),
    ensures
        r.1 matches ConnectAction::Finish(o) && o != Outcome::Done,
        r.0.phase is Done,
{
}

/// The join handler works only in its own guild: a voice state of another
/// guild ends the run once the guild is fetched; in its own guild it reads
/// the start channel's category next.
pub proof fn law_join_only_in_own_guild(m: ConnectMachine, r: (ConnectMachine, ConnectAction))
    requires
        m.phase is AwaitGuild,
        connect_step_spec(m, ConnectEvent::GuildFetched { ok: true }, r),
    ensures
        m.guild != m.config.guild_id ==> r.1 == ConnectAction::Finish(Outcome::Done),
        m.guild == m.config.guild_id ==> r.1 == (ConnectAction::ReadParentSource {
            guild: m.config.guild_id,
            start_channel: m.config.voice_id,
        }),
{
}

/// The category a run has settled on, in the phases that carry it.
pub open spec fn settled_category(p: ConnectPhase) -> Option<u64> {
    match p {
        ConnectPhase::AwaitUserInfo { parent } => Some(parent),
        ConnectPhase::AwaitOwnedChannel { parent, .. } => Some(parent),
        ConnectPhase::AwaitGuildChannels { parent, .. } => Some(parent),
        ConnectPhase::AwaitVoiceStates { parent, .. } => Some(parent),
        ConnectPhase::AwaitMoveBack { parent, .. } => Some(parent),
        ConnectPhase::AwaitTransfer { parent, .. } => Some(parent),
        ConnectPhase::AwaitOwnerRecord { parent } => Some(parent),
        _ => None,
    }
}

/// Once settled, the category never changes, and the channel the run
/// creates is put in it.
pub proof fn law_new_channel_goes_in_the_settled_category(m: ConnectMachine, e: ConnectEvent, r: (ConnectMachine, ConnectAction))
    requires
        connect_step_spec(m, e, r),
    ensures
        settled_category(m.phase) is Some && settled_category(r.0.phase) is Some ==> settled_category(r.0.phase) == settled_category(m.phase),
        r.1 matches ConnectAction::CreateChannel { category, .. } ==> settled_category(m.phase) == Some(category),
{
}

/// The channel recorded as the member's is handed on exactly when the member
/// has not asked to be taken back to it and someone is in a channel whose
/// id, written in decimal, is the recorded text.
pub proof fn law_owned_channel_handed_on_exactly_when_occupied(
    m: ConnectMachine,
    states: Vec<VoiceEntry>,
    r: (ConnectMachine, ConnectAction),
)
    requires
        m.phase is AwaitVoiceStates,
        connect_step_spec(m, ConnectEvent::VoiceStates(Some(states)), r),
    ensures
        m.phase matches ConnectPhase::AwaitVoiceStates { user, record, .. } ==>
            ((r.1 is TransferOwnership) == (!user.return_to_owned_channel && exists|i: int|
                0 <= i < states@.len() && (#[trigger] states@[i].channel_id is Some && decimal(states@[i].channel_id.unwrap() as nat) == record.voice_id@))),
{
    if let ConnectPhase::AwaitVoiceStates { parent, user, record, channel } = m.phase {
        let occupants = users_where(states@, has_id_text(record.voice_id@));
        if occupants.len() > 0 {
            assert(occupants.contains(occupants[0]));
            lemma_users_where_sound(states@, has_id_text(record.voice_id@), occupants[0]);
        } else {
            if exists|i: int| 0 <= i < states@.len() && (#[trigger] states@[i].channel_id is Some && decimal(states@[i].channel_id.unwrap() as nat) == record.voice_id@) {
                let i = choose|i: int| 0 <= i < states@.len() && (#[trigger] states@[i].channel_id is Some && decimal(states@[i].channel_id.unwrap() as nat) == record.voice_id@);
                crate::voice::lemma_users_where_complete(states@, has_id_text(record.voice_id@), i);
            }
        }
    }
}

/// A recorded channel that is no longer among the guild's channels is
/// replaced by a new one; one that is still there is looked into.
pub proof fn law_gone_owned_channel_is_replaced(
    m: ConnectMachine,
    ids: Vec<u64>,
    channel: u64,
    r: (ConnectMachine, ConnectAction),
)
    requires
        m.phase matches ConnectPhase::AwaitGuildChannels { record, .. } && parse_u64_spec(record.voice_id@) == Some(channel),
        channel != 0,
        connect_step_spec(m, ConnectEvent::GuildChannels(Some(ids)), r),
    ensures
        !ids@.contains(channel) ==> r.1 is CreateChannel,
        ids@.contains(channel) ==> r.1 == (ConnectAction::ReadVoiceStates { guild: m.guild }),
{
}

/// The owner written into the row of a channel handed on is the one it was
/// handed to on Discord, and the row is the channel's own.
pub proof fn law_row_names_the_new_owner(m: ConnectMachine, e: ConnectEvent, r: (ConnectMachine, ConnectAction))
    requires
        connect_step_spec(m, e, r),
    ensures
        r.1 matches ConnectAction::UpdateOwnerRecord { record, owner_id } ==> {
            &&& m.phase matches ConnectPhase::AwaitTransfer { record: rec, new_owner, .. }
            &&& rec == record
            &&& parse_u64_spec(owner_id@) == Some(new_owner)
        },
{
    if let ConnectPhase::AwaitTransfer { parent, record, new_owner } = m.phase {
        lemma_parse_decimal(new_owner);
    }
}

/// The member is moved into the channel just created.
pub proof fn law_member_moved_into_the_created_channel(m: ConnectMachine, created: u64, r: (ConnectMachine, ConnectAction))
    requires
        m.phase is AwaitCreate,
        connect_step_spec(m, ConnectEvent::ChannelCreated(Some(created)), r),
    ensures
        r.1 == (ConnectAction::MoveMember { channel: created }),
{
}

/// A join is handled only with a member and a guild (otherwise the run
/// ends at once); it starts by fetching that guild, and the channel joined
/// is the new state's channel.
pub proof fn law_join_begins_with_the_guild(new: VoiceStateInfo, config: Config, b: Begin<ConnectMachine, ConnectAction>)
    requires
        begin_connect_spec(new, config, b),
    ensures
        new.member is None || new.guild_id is None ==> b == Begin::<ConnectMachine, ConnectAction>::Finished(Outcome::Done),
        new.member is Some && new.guild_id is Some ==> {
            &&& b matches Begin::Running(m, a)
            &&& a == (ConnectAction::FetchGuild { guild: new.guild_id.unwrap() })
            &&& m.guild == new.guild_id.unwrap()
            &&& (new.channel_id is Some ==> m.joined == new.channel_id.unwrap())
        },
{
}

/// After the member is moved back to an empty owned channel the run ends;
/// after the new row is stored the run ends well.
pub proof fn law_join_ends_after_return_or_record(m: ConnectMachine, r: (ConnectMachine, ConnectAction))
    requires
        m.phase is AwaitInsert || (m.phase is AwaitMoveBack && !m.phase->then_create),
        connect_step_spec(m, ConnectEvent::Completed { ok: true }, r),
    ensures
        r.1 == ConnectAction::Finish(Outcome::Done),
{
}

} // verus!
