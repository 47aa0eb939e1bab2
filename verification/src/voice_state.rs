//! A single handler for both directions of a voice-state change, working on
//! the numbered channel table: leaving a member channel as its owner hands
//! it on or deletes it, joining the start channel takes the member to the
//! channel they own or creates one.

use vstd::prelude::*;
use crate::models::VoicesInfo;
use crate::random::select_random_owner_id;
use crate::text::{channel_name, creation_reason, decimal, parse_u64, parse_u64_spec, u64_to_string, lemma_parse_decimal};
use crate::voice::{Begin, ChannelKind, Config, MemberInfo, VoiceStateInfo, Fetched, AbortReason, Outcome, DEFAULT_CHANNEL_ID, contains_id};

verus! {

/// What fetching the guild's channels gives of the start channel.
pub enum StartChannelFetch {
    /// The fetch failed.
    Failed,
    /// The start channel is not among the guild's channels.
    ChannelMissing,
    /// The start channel is in no category.
    NoCategory,
    /// The start channel is in this category.
    InCategory(u64),
}

/// What reading the members of the channel left gives.
pub enum ChannelMembersRead {
    /// The channel could not be fetched.
    Failed,
    /// The channel is not a guild channel.
    NotGuildChannel,
    /// Its members could not be read from the cache.
    Unavailable,
    /// The ids of its members.
    Members(Vec<u64>),
}

/// What the caller reports of the operation it was asked for.
pub enum VoiceStateEvent {
    /// The id of the fetched guild, `None` when the fetch failed.
    GuildFetched(Option<u64>),
    /// The configured parent category (if set) and the start channel's.
    ParentSource { configured: Option<String>, start: StartChannelFetch },
    /// The row of the channel left, if it is a member channel.
    ChannelRecord(Fetched<Option<VoicesInfo>>),
    /// The members of the channel left.
    ChannelMembers(ChannelMembersRead),
    /// The row of the channel the member owns, if any.
    OwnedRecord(Fetched<Option<VoicesInfo>>),
    /// The ids of the guild's channels, `None` when the fetch failed.
    GuildChannels(Option<Vec<u64>>),
    /// The new channel was created with this id, or the creation failed.
    ChannelCreated(Option<u64>),
    /// A write finished, or failed.
    Completed { ok: bool },
}

/// The operation the machine asks for next.
pub enum VoiceStateAction {
    /// Fetch the guild from Discord.
    FetchGuild { guild: u64 },
    /// Read the configured parent category and fetch the guild's channels.
    ReadParentSource { guild: u64, start_channel: u64 },
    /// Read the row of the channel whose id is this decimal text.
    FetchChannelRecord { channel_id: String },
    /// Read the members of this channel.
    ReadChannelMembers { channel: u64 },
    /// Read the row of the channel owned by the user with this id (decimal text).
    FetchOwnedRecord { owner_id: String },
    /// Fetch the ids of the guild's channels.
    FetchGuildChannels { guild: u64 },
    /// Write a new owner (decimal text) into this row.
    UpdateOwnerRecord { record: VoicesInfo, owner_id: String },
    /// Delete this channel on Discord; a failure is ignored.
    DeleteChannel { channel: u64 },
    /// Delete this row.
    DeleteRecord { record: VoicesInfo },
    /// Move the member into this channel; a failure is ignored.
    MoveMember { channel: u64 },
    /// Create a channel of kind `kind` in `category`, named `name`, with
    /// `reason` in the audit log.
    CreateChannel { guild: u64, name: String, kind: ChannelKind, category: u64, reason: String },
    /// Store a new row (ids as decimal text).
    InsertRecord { channel_id: String, owner_id: String },
    /// Stop with this outcome.
    Finish(Outcome),
}

/// Where the machine stands, with what it has learnt so far.
pub enum VoiceStatePhase {
    AwaitGuild,
    AwaitParentSource,
    AwaitChannelRecord { channel: u64 },
    AwaitChannelMembers { channel: u64, record: VoicesInfo },
    AwaitOwnerRecord,
    AwaitChannelDeletion { record: VoicesInfo },
    AwaitLeftRecordDeletion,
    AwaitOwnedRecord { parent: u64 },
    AwaitGuildChannels { parent: u64, record: VoicesInfo },
    AwaitMoveBack,
    AwaitStaleRecordDeletion { parent: u64 },
    AwaitCreate,
    AwaitMoveToNew { channel: u64 },
    AwaitInsert,
    Done,
}

/// The state of one run of the handler.
pub struct VoiceStateMachine {
    pub config: Config,
    pub member: MemberInfo,
    /// The channel joined (the default id when absent).
    pub joined: u64,
    /// The old voice state's channel, `None` when there is no old state.
    pub old_channel: Option<Option<u64>>,
    pub phase: VoiceStatePhase,
}

/// How a run begins: it aborts without a member; otherwise it asks for the
/// configured guild.
pub open spec fn begin_voice_state_spec(
    old: Option<VoiceStateInfo>,
    new: VoiceStateInfo,
    config: Config,
    r: Begin<VoiceStateMachine, VoiceStateAction>,
) -> bool {
    match new.member {
        Some(member) => r matches Begin::Running(m, a) && m.config == config && m.member == member
            && m.joined == new.channel_id.unwrap_or(DEFAULT_CHANNEL_ID)
            && m.old_channel == (match old {
                Some(o) => Some(o.channel_id),
                None => None,
            })
            && m.phase is AwaitGuild && a == (VoiceStateAction::FetchGuild { guild: config.guild_id }),
        None => r == Begin::<VoiceStateMachine, VoiceStateAction>::Finished(Outcome::Abort(AbortReason::MissingMember)),
    }
}

/// Starts the handler on a voice-state change.
pub fn begin_voice_state(old: Option<VoiceStateInfo>, new: VoiceStateInfo, config: Config) -> (r: Begin<VoiceStateMachine, VoiceStateAction>)
    ensures
        begin_voice_state_spec(old, new, config, r),
{
    let VoiceStateInfo { member, channel_id, guild_id: _ } = new;
    let old_channel = match old {
        Some(o) => Some(o.channel_id),
        None => None,
    };
    match member {
        None => Begin::Finished(Outcome::Abort(AbortReason::MissingMember)),
        Some(member) => {
            let joined = match channel_id {
                Some(c) => c,
                None => DEFAULT_CHANNEL_ID,
            };
            Begin::Running(
                VoiceStateMachine { config, member, joined, old_channel, phase: VoiceStatePhase::AwaitGuild },
                VoiceStateAction::FetchGuild { guild: config.guild_id },
            )
        },
    }
}

/// The run keeps what it knew of the member and the channels.
pub open spec fn keeps(m: VoiceStateMachine, n: VoiceStateMachine) -> bool {
    n.config == m.config && n.member == m.member && n.joined == m.joined && n.old_channel == m.old_channel
}

/// The run ends with `o`.
pub open spec fn ends(m: VoiceStateMachine, r: (VoiceStateMachine, VoiceStateAction), o: Outcome) -> bool {
    keeps(m, r.0) && r.0.phase is Done && r.1 == VoiceStateAction::Finish(o)
}

/// The run keeps what it knew and asks for `a`, standing at `phase`.
pub open spec fn asks(m: VoiceStateMachine, r: (VoiceStateMachine, VoiceStateAction), phase: VoiceStatePhase, a: VoiceStateAction) -> bool {
    keeps(m, r.0) && r.0.phase == phase && r.1 == a
}

/// The run asks for the member's channel: a voice channel in `parent`,
/// named after the member's user name.
pub open spec fn creates(m: VoiceStateMachine, parent: u64, r: (VoiceStateMachine, VoiceStateAction)) -> bool {
    &&& keeps(m, r.0)
    &&& r.0.phase is AwaitCreate
    &&& r.1 matches VoiceStateAction::CreateChannel { guild, name, kind, category, reason }
    &&& guild == m.config.guild_id
    &&& kind == ChannelKind::Voice
    &&& name@ == m.member.name@ + "'s channel"@
    &&& category == parent
    &&& reason@ == "User "@ + m.member.name@ + " created voice chat"@
}

/// Whether the machine waits for this kind of report.
pub open spec fn voice_state_accepts(m: VoiceStateMachine, e: VoiceStateEvent) -> bool {
    match m.phase {
        VoiceStatePhase::AwaitGuild => e is GuildFetched,
        VoiceStatePhase::AwaitParentSource => e is ParentSource,
        VoiceStatePhase::AwaitChannelRecord { .. } => e is ChannelRecord,
        VoiceStatePhase::AwaitChannelMembers { .. } => e is ChannelMembers,
        VoiceStatePhase::AwaitOwnedRecord { .. } => e is OwnedRecord,
        VoiceStatePhase::AwaitGuildChannels { .. } => e is GuildChannels,
        VoiceStatePhase::AwaitCreate => e is ChannelCreated,
        VoiceStatePhase::Done => false,
        _ => e is Completed,
    }
}

/// What the run does once the parent category is known: on leaving a
/// channel other than the start channel (and not rejoining it) it reads the
/// channel's row; on joining the start channel with no old state it reads
/// the row of the channel the member owns; otherwise it ends.
pub open spec fn after_parent(m: VoiceStateMachine, parent: u64, r: (VoiceStateMachine, VoiceStateAction)) -> bool {
    match m.old_channel {
        Some(None) => ends(m, r, Outcome::Abort(AbortReason::MissingChannel)),
        Some(Some(channel)) => if channel != m.config.voice_id && m.joined != channel {
            &&& keeps(m, r.0)
            &&& r.0.phase == (VoiceStatePhase::AwaitChannelRecord { channel })
            &&& r.1 matches VoiceStateAction::FetchChannelRecord { channel_id }
            &&& channel_id@ == decimal(channel as nat)
        } else {
            ends(m, r, Outcome::Done)
        },
        None => if m.joined == m.config.voice_id {
            &&& keeps(m, r.0)
            &&& r.0.phase == (VoiceStatePhase::AwaitOwnedRecord { parent })
            &&& r.1 matches VoiceStateAction::FetchOwnedRecord { owner_id }
            &&& owner_id@ == decimal(m.member.user_id as nat)
        } else {
            ends(m, r, Outcome::Done)
        },
    }
}

/// One step of the handler: what it does with the report `e`.
pub open spec fn voice_state_step_spec(m: VoiceStateMachine, e: VoiceStateEvent, r: (VoiceStateMachine, VoiceStateAction)) -> bool {
    match m.phase {
        VoiceStatePhase::AwaitGuild => match e {
            VoiceStateEvent::GuildFetched(None) => ends(m, r, Outcome::Failed),
            VoiceStateEvent::GuildFetched(Some(id)) => if id != m.config.guild_id {
                ends(m, r, Outcome::Done)
            } else {
                asks(m, r, VoiceStatePhase::AwaitParentSource,
                    VoiceStateAction::ReadParentSource { guild: m.config.guild_id, start_channel: m.config.voice_id })
            },
            _ => false,
        },
        VoiceStatePhase::AwaitParentSource => match e {
            VoiceStateEvent::ParentSource { configured, start } => match start {
                StartChannelFetch::Failed => ends(m, r, Outcome::Failed),
                StartChannelFetch::ChannelMissing => ends(m, r, Outcome::Abort(AbortReason::StartChannelNotFound)),
                StartChannelFetch::NoCategory => ends(m, r, Outcome::Abort(AbortReason::StartChannelWithoutCategory)),
                StartChannelFetch::InCategory(p) => {
                    let text = match configured {
                        Some(s) => s@,
                        None => decimal(p as nat),
                    };
                    match parse_u64_spec(text) {
                        None => ends(m, r, Outcome::Abort(AbortReason::ParentIdNotNumeric)),
                        Some(parent) => after_parent(m, parent, r),
                    }
                },
            },
            _ => false,
        },
        VoiceStatePhase::AwaitChannelRecord { channel } => match e {
            VoiceStateEvent::ChannelRecord(Fetched::Failed) => ends(m, r, Outcome::Failed),
            VoiceStateEvent::ChannelRecord(Fetched::Got(None)) => ends(m, r, Outcome::Done),
            VoiceStateEvent::ChannelRecord(Fetched::Got(Some(record))) =>
                if decimal(m.member.user_id as nat) == record.owner_id@ {
                    asks(m, r, VoiceStatePhase::AwaitChannelMembers { channel, record },
                        VoiceStateAction::ReadChannelMembers { channel })
                } else {
                    ends(m, r, Outcome::Done)
                },
            _ => false,
        },
        VoiceStatePhase::AwaitChannelMembers { channel, record } => match e {
            VoiceStateEvent::ChannelMembers(read) => match read {
                ChannelMembersRead::Failed => ends(m, r, Outcome::Failed),
                ChannelMembersRead::NotGuildChannel => ends(m, r, Outcome::Abort(AbortReason::NotAGuildChannel)),
                ChannelMembersRead::Unavailable => ends(m, r, Outcome::Abort(AbortReason::MembersUnavailable)),
                ChannelMembersRead::Members(members) => if members@.len() >= 1 {
                    &&& keeps(m, r.0)
                    &&& r.0.phase is AwaitOwnerRecord
                    &&& r.1 matches VoiceStateAction::UpdateOwnerRecord { record: rec, owner_id }
                    &&& rec == record
                    &&& exists|new_owner: u64| members@.contains(new_owner) && owner_id@ == decimal(new_owner as nat)
                } else {
                    asks(m, r, VoiceStatePhase::AwaitChannelDeletion { record }, VoiceStateAction::DeleteChannel { channel })
                },
            },
            _ => false,
        },
        VoiceStatePhase::AwaitOwnerRecord => match e {
            VoiceStateEvent::Completed { ok } => if !ok {
                ends(m, r, Outcome::Abort(AbortReason::DatabaseFailed))
            } else {
                ends(m, r, Outcome::Done)
            },
            _ => false,
        },
        VoiceStatePhase::AwaitChannelDeletion { record } => match e {
            VoiceStateEvent::Completed { .. } =>
                asks(m, r, VoiceStatePhase::AwaitLeftRecordDeletion, VoiceStateAction::DeleteRecord { record }),
            _ => false,
        },
        VoiceStatePhase::AwaitLeftRecordDeletion => match e {
            VoiceStateEvent::Completed { ok } => if !ok {
                ends(m, r, Outcome::Failed)
            } else {
                ends(m, r, Outcome::Done)
            },
            _ => false,
        },
        VoiceStatePhase::AwaitOwnedRecord { parent } => match e {
            VoiceStateEvent::OwnedRecord(Fetched::Failed) => ends(m, r, Outcome::Failed),
            VoiceStateEvent::OwnedRecord(Fetched::Got(None)) => creates(m, parent, r),
            VoiceStateEvent::OwnedRecord(Fetched::Got(Some(record))) =>
                asks(m, r, VoiceStatePhase::AwaitGuildChannels { parent, record },
                    VoiceStateAction::FetchGuildChannels { guild: m.config.guild_id }),
            _ => false,
        },
        VoiceStatePhase::AwaitGuildChannels { parent, record } => match e {
            VoiceStateEvent::GuildChannels(None) => ends(m, r, Outcome::Failed),
            VoiceStateEvent::GuildChannels(Some(ids)) => match parse_u64_spec(record.channel_id@) {
                None => ends(m, r, Outcome::Abort(AbortReason::ChannelIdNotNumeric)),
                Some(channel) => if channel == 0 {
                    ends(m, r, Outcome::Abort(AbortReason::ZeroChannelId))
                } else if ids@.contains(channel) {
                    asks(m, r, VoiceStatePhase::AwaitMoveBack, VoiceStateAction::MoveMember { channel })
                } else {
                    asks(m, r, VoiceStatePhase::AwaitStaleRecordDeletion { parent }, VoiceStateAction::DeleteRecord { record })
                },
            },
            _ => false,
        },
        VoiceStatePhase::AwaitMoveBack => match e {
            VoiceStateEvent::Completed { .. } => ends(m, r, Outcome::Done),
            _ => false,
        },
        VoiceStatePhase::AwaitStaleRecordDeletion { parent } => match e {
            VoiceStateEvent::Completed { ok } => if !ok {
                ends(m, r, Outcome::Failed)
            } else {
                creates(m, parent, r)
            },
            _ => false,
        },
        VoiceStatePhase::AwaitCreate => match e {
            VoiceStateEvent::ChannelCreated(None) => ends(m, r, Outcome::Failed),
            VoiceStateEvent::ChannelCreated(Some(channel)) =>
                asks(m, r, VoiceStatePhase::AwaitMoveToNew { channel }, VoiceStateAction::MoveMember { channel }),
            _ => false,
        },
        VoiceStatePhase::AwaitMoveToNew { channel } => match e {
            VoiceStateEvent::Completed { .. } => {
                &&& keeps(m, r.0)
                &&& r.0.phase is AwaitInsert
                &&& r.1 matches VoiceStateAction::InsertRecord { channel_id, owner_id }
                &&& channel_id@ == decimal(channel as nat)
                &&& owner_id@ == decimal(m.member.user_id as nat)
            },
            _ => false,
        },
        VoiceStatePhase::AwaitInsert => match e {
            VoiceStateEvent::Completed { ok } => if !ok {
                ends(m, r, Outcome::Abort(AbortReason::DatabaseFailed))
            } else {
                ends(m, r, Outcome::Done)
            },
            _ => false,
        },
        VoiceStatePhase::Done => false,
    }
}

/// Stops the run with outcome `o`.
fn finish(config: Config, member: MemberInfo, joined: u64, old_channel: Option<Option<u64>>, o: Outcome) -> (r: (VoiceStateMachine, VoiceStateAction))
    ensures
        r.0.config == config && r.0.member == member && r.0.joined == joined && r.0.old_channel == old_channel,
        r.0.phase is Done,
        r.1 == VoiceStateAction::Finish(o),
{
    (VoiceStateMachine { config, member, joined, old_channel, phase: VoiceStatePhase::Done }, VoiceStateAction::Finish(o))
}

/// Asks for the member's new channel in category `parent`.
fn create(config: Config, member: MemberInfo, joined: u64, old_channel: Option<Option<u64>>, parent: u64) -> (r: (VoiceStateMachine, VoiceStateAction))
    ensures
        r.0.config == config && r.0.member == member && r.0.joined == joined && r.0.old_channel == old_channel,
        r.0.phase is AwaitCreate,
        r.1 matches VoiceStateAction::CreateChannel { guild, name, kind, category, reason }
            && guild == config.guild_id
            && kind == ChannelKind::Voice
            && name@ == member.name@ + "'s channel"@
            && category == parent
            && reason@ == "User "@ + member.name@ + " created voice chat"@,
{
    let reason = creation_reason(member.name.as_str());
    let name = channel_name(member.name.as_str());
    let action = VoiceStateAction::CreateChannel { guild: config.guild_id, name, kind: ChannelKind::Voice, category: parent, reason };
    (VoiceStateMachine { config, member, joined, old_channel, phase: VoiceStatePhase::AwaitCreate }, action)
}

impl VoiceStateMachine {
    /// Whether the machine waits for this kind of report.
    pub fn accepts(&self, e: &VoiceStateEvent) -> (r: bool)
        ensures
            r == voice_state_accepts(*self, *e),
    {
        match &self.phase {
            VoiceStatePhase::AwaitGuild => matches!(e, VoiceStateEvent::GuildFetched(..)),
            VoiceStatePhase::AwaitParentSource => matches!(e, VoiceStateEvent::ParentSource { .. }),
            VoiceStatePhase::AwaitChannelRecord { .. } => matches!(e, VoiceStateEvent::ChannelRecord(..)),
            VoiceStatePhase::AwaitChannelMembers { .. } => matches!(e, VoiceStateEvent::ChannelMembers(..)),
            VoiceStatePhase::AwaitOwnedRecord { .. } => matches!(e, VoiceStateEvent::OwnedRecord(..)),
            VoiceStatePhase::AwaitGuildChannels { .. } => matches!(e, VoiceStateEvent::GuildChannels(..)),
            VoiceStatePhase::AwaitCreate => matches!(e, VoiceStateEvent::ChannelCreated(..)),
            VoiceStatePhase::Done => false,
            _ => matches!(e, VoiceStateEvent::Completed { .. }),
        }
    }

    /// Takes the report of the operation asked for last, and says what to
    /// do next.
    pub fn step(self, e: VoiceStateEvent) -> (r: (VoiceStateMachine, VoiceStateAction))
        requires
            voice_state_accepts(self, e),
        ensures
            voice_state_step_spec(self, e, r),
    {
        let VoiceStateMachine { config, member, joined, old_channel, phase } = self;
        let ok = match &e {
            VoiceStateEvent::Completed { ok } => *ok,
            _ => false,
        };
        match phase {
            VoiceStatePhase::AwaitGuild => match e {
                VoiceStateEvent::GuildFetched(Some(id)) => {
                    if id != config.guild_id {
                        finish(config, member, joined, old_channel, Outcome::Done)
                    } else {
                        let a = VoiceStateAction::ReadParentSource { guild: config.guild_id, start_channel: config.voice_id };
                        (VoiceStateMachine { config, member, joined, old_channel, phase: VoiceStatePhase::AwaitParentSource }, a)
                    }
                },
                _ => finish(config, member, joined, old_channel, Outcome::Failed),
            },
            VoiceStatePhase::AwaitParentSource => match e {
                VoiceStateEvent::ParentSource { configured, start } => match start {
                    StartChannelFetch::Failed => finish(config, member, joined, old_channel, Outcome::Failed),
                    StartChannelFetch::ChannelMissing =>
                        finish(config, member, joined, old_channel, Outcome::Abort(AbortReason::StartChannelNotFound)),
                    StartChannelFetch::NoCategory =>
                        finish(config, member, joined, old_channel, Outcome::Abort(AbortReason::StartChannelWithoutCategory)),
                    StartChannelFetch::InCategory(p) => {
                        let text = match configured {
                            Some(s) => s,
                            None => u64_to_string(p),
                        };
                        match parse_u64(text.as_str()) {
                            None => finish(config, member, joined, old_channel, Outcome::Abort(AbortReason::ParentIdNotNumeric)),
                            Some(parent) => match old_channel {
                                Some(None) => finish(config, member, joined, old_channel, Outcome::Abort(AbortReason::MissingChannel)),
                                Some(Some(channel)) => {
                                    if channel != config.voice_id && joined != channel {
                                        let channel_id = u64_to_string(channel);
                                        (VoiceStateMachine { config, member, joined, old_channel, phase: VoiceStatePhase::AwaitChannelRecord { channel } },
                                            VoiceStateAction::FetchChannelRecord { channel_id })
                                    } else {
                                        finish(config, member, joined, old_channel, Outcome::Done)
                                    }
                                },
                                None => {
                                    if joined == config.voice_id {
                                        let owner_id = u64_to_string(member.user_id);
                                        (VoiceStateMachine { config, member, joined, old_channel, phase: VoiceStatePhase::AwaitOwnedRecord { parent } },
                                            VoiceStateAction::FetchOwnedRecord { owner_id })
                                    } else {
                                        finish(config, member, joined, old_channel, Outcome::Done)
                                    }
                                },
                            },
                        }
                    },
                },
                _ => finish(config, member, joined, old_channel, Outcome::Failed),
            },
            VoiceStatePhase::AwaitChannelRecord { channel } => match e {
                VoiceStateEvent::ChannelRecord(Fetched::Got(None)) => finish(config, member, joined, old_channel, Outcome::Done),
                VoiceStateEvent::ChannelRecord(Fetched::Got(Some(record))) => {
                    let user_id = u64_to_string(member.user_id);
                    if user_id == record.owner_id {
                        (VoiceStateMachine { config, member, joined, old_channel, phase: VoiceStatePhase::AwaitChannelMembers { channel, record } },
                            VoiceStateAction::ReadChannelMembers { channel })
                    } else {
                        finish(config, member, joined, old_channel, Outcome::Done)
                    }
                },
                _ => finish(config, member, joined, old_channel, Outcome::Failed),
            },
            VoiceStatePhase::AwaitChannelMembers { channel, record } => match e {
                VoiceStateEvent::ChannelMembers(ChannelMembersRead::Members(members)) => {
                    if members.len() >= 1 {
                        let new_owner = *select_random_owner_id(&members);
                        let owner_id = u64_to_string(new_owner);
                        (VoiceStateMachine { config, member, joined, old_channel, phase: VoiceStatePhase::AwaitOwnerRecord },
                            VoiceStateAction::UpdateOwnerRecord { record, owner_id })
                    } else {
                        (VoiceStateMachine { config, member, joined, old_channel, phase: VoiceStatePhase::AwaitChannelDeletion { record } },
                            VoiceStateAction::DeleteChannel { channel })
                    }
                },
                VoiceStateEvent::ChannelMembers(ChannelMembersRead::NotGuildChannel) =>
                    finish(config, member, joined, old_channel, Outcome::Abort(AbortReason::NotAGuildChannel)),
                VoiceStateEvent::ChannelMembers(ChannelMembersRead::Unavailable) =>
                    finish(config, member, joined, old_channel, Outcome::Abort(AbortReason::MembersUnavailable)),
                _ => finish(config, member, joined, old_channel, Outcome::Failed),
            },
            VoiceStatePhase::AwaitOwnerRecord => {
                if !ok {
                    finish(config, member, joined, old_channel, Outcome::Abort(AbortReason::DatabaseFailed))
                } else {
                    finish(config, member, joined, old_channel, Outcome::Done)
                }
            },
            VoiceStatePhase::AwaitChannelDeletion { record } =>
                (VoiceStateMachine { config, member, joined, old_channel, phase: VoiceStatePhase::AwaitLeftRecordDeletion },
                    VoiceStateAction::DeleteRecord { record }),
            VoiceStatePhase::AwaitLeftRecordDeletion => {
                if !ok {
                    finish(config, member, joined, old_channel, Outcome::Failed)
                } else {
                    finish(config, member, joined, old_channel, Outcome::Done)
                }
            },
            VoiceStatePhase::AwaitOwnedRecord { parent } => match e {
                VoiceStateEvent::OwnedRecord(Fetched::Got(None)) => create(config, member, joined, old_channel, parent),
                VoiceStateEvent::OwnedRecord(Fetched::Got(Some(record))) => {
                    let guild = config.guild_id;
                    (VoiceStateMachine { config, member, joined, old_channel, phase: VoiceStatePhase::AwaitGuildChannels { parent, record } },
                        VoiceStateAction::FetchGuildChannels { guild })
                },
                _ => finish(config, member, joined, old_channel, Outcome::Failed),
            },
            VoiceStatePhase::AwaitGuildChannels { parent, record } => match e {
                VoiceStateEvent::GuildChannels(Some(ids)) => match parse_u64(record.channel_id.as_str()) {
                    None => finish(config, member, joined, old_channel, Outcome::Abort(AbortReason::ChannelIdNotNumeric)),
                    Some(channel) => {
                        if channel == 0 {
                            finish(config, member, joined, old_channel, Outcome::Abort(AbortReason::ZeroChannelId))
                        } else if contains_id(&ids, channel) {
                            (VoiceStateMachine { config, member, joined, old_channel, phase: VoiceStatePhase::AwaitMoveBack },
                                VoiceStateAction::MoveMember { channel })
                        } else {
                            (VoiceStateMachine { config, member, joined, old_channel, phase: VoiceStatePhase::AwaitStaleRecordDeletion { parent } },
                                VoiceStateAction::DeleteRecord { record })
                        }
                    },
                },
                _ => finish(config, member, joined, old_channel, Outcome::Failed),
            },
            VoiceStatePhase::AwaitMoveBack => finish(config, member, joined, old_channel, Outcome::Done),
            VoiceStatePhase::AwaitStaleRecordDeletion { parent } => {
                if !ok {
                    finish(config, member, joined, old_channel, Outcome::Failed)
                } else {
                    create(config, member, joined, old_channel, parent)
                }
            },
            VoiceStatePhase::AwaitCreate => match e {
                VoiceStateEvent::ChannelCreated(Some(channel)) =>
                    (VoiceStateMachine { config, member, joined, old_channel, phase: VoiceStatePhase::AwaitMoveToNew { channel } },
                        VoiceStateAction::MoveMember { channel }),
                _ => finish(config, member, joined, old_channel, Outcome::Failed),
            },
            VoiceStatePhase::AwaitMoveToNew { channel } => {
                let channel_id = u64_to_string(channel);
                let owner_id = u64_to_string(member.user_id);
                (VoiceStateMachine { config, member, joined, old_channel, phase: VoiceStatePhase::AwaitInsert },
                    VoiceStateAction::InsertRecord { channel_id, owner_id })
            },
            VoiceStatePhase::AwaitInsert => {
                if !ok {
                    finish(config, member, joined, old_channel, Outcome::Abort(AbortReason::DatabaseFailed))
                } else {
                    finish(config, member, joined, old_channel, Outcome::Done)
                }
            },
            VoiceStatePhase::Done => finish(config, member, joined, old_channel, Outcome::Done),
        }
    }
}

/// The owner leaving their channel (neither the start channel nor the
/// channel they move to) while others are still in it: the channel's row
/// gets one of them as owner, and the run ends.
pub proof fn law_owner_leaving_hands_channel_on(
    old: VoiceStateInfo,
    new: VoiceStateInfo,
    config: Config,
    left: u64,
    category: u64,
    record: VoicesInfo,
    members: Vec<u64>,
    b: Begin<VoiceStateMachine, VoiceStateAction>,
    r1: (VoiceStateMachine, VoiceStateAction),
    r2: (VoiceStateMachine, VoiceStateAction),
    r3: (VoiceStateMachine, VoiceStateAction),
    r4: (VoiceStateMachine, VoiceStateAction),
    r5: (VoiceStateMachine, VoiceStateAction),
)
    requires
        new.member matches Some(member) && record.owner_id@ == decimal(member.user_id as nat),
        old.channel_id == Some(left),
        left != config.voice_id,
        new.channel_id.unwrap_or(DEFAULT_CHANNEL_ID) != left,
        members@.len() > 0,
        begin_voice_state_spec(Some(old), new, config, b),
        b matches Begin::Running(m0, _) && voice_state_step_spec(m0, VoiceStateEvent::GuildFetched(Some(config.guild_id)), r1),
        voice_state_step_spec(r1.0, VoiceStateEvent::ParentSource { configured: None, start: StartChannelFetch::InCategory(category) }, r2),
        voice_state_step_spec(r2.0, VoiceStateEvent::ChannelRecord(Fetched::Got(Some(record))), r3),
        voice_state_step_spec(r3.0, VoiceStateEvent::ChannelMembers(ChannelMembersRead::Members(members)), r4),
        voice_state_step_spec(r4.0, VoiceStateEvent::Completed { ok: true }, r5),
    ensures
        r2.1 matches VoiceStateAction::FetchChannelRecord { channel_id } && channel_id@ == decimal(left as nat),
        r3.1 == (VoiceStateAction::ReadChannelMembers { channel: left }),
        r4.1 matches VoiceStateAction::UpdateOwnerRecord { record: rec, owner_id } && rec == record
            && exists|new_owner: u64| members@.contains(new_owner) && owner_id@ == decimal(new_owner as nat),
        r5.1 == VoiceStateAction::Finish(Outcome::Done),
{
    lemma_parse_decimal(category);
}

/// The owner leaving their channel (neither the start channel nor the
/// channel they move to) when nobody else is in it: the channel is deleted
/// (whether or not that succeeds), then its row, and the run ends.
pub proof fn law_owner_leaving_empty_channel_deletes_it(
    old: VoiceStateInfo,
    new: VoiceStateInfo,
    config: Config,
    left: u64,
    category: u64,
    record: VoicesInfo,
    members: Vec<u64>,
    deleted: bool,
    b: Begin<VoiceStateMachine, VoiceStateAction>,
    r1: (VoiceStateMachine, VoiceStateAction),
    r2: (VoiceStateMachine, VoiceStateAction),
    r3: (VoiceStateMachine, VoiceStateAction),
    r4: (VoiceStateMachine, VoiceStateAction),
    r5: (VoiceStateMachine, VoiceStateAction),
    r6: (VoiceStateMachine, VoiceStateAction),
)
    requires
        new.member matches Some(member) && record.owner_id@ == decimal(member.user_id as nat),
        old.channel_id == Some(left),
        left != config.voice_id,
        new.channel_id.unwrap_or(DEFAULT_CHANNEL_ID) != left,
        members@.len() == 0,
        begin_voice_state_spec(Some(old), new, config, b),
        b matches Begin::Running(m0, _) && voice_state_step_spec(m0, VoiceStateEvent::GuildFetched(Some(config.guild_id)), r1),
        voice_state_step_spec(r1.0, VoiceStateEvent::ParentSource { configured: None, start: StartChannelFetch::InCategory(category) }, r2),
        voice_state_step_spec(r2.0, VoiceStateEvent::ChannelRecord(Fetched::Got(Some(record))), r3),
        voice_state_step_spec(r3.0, VoiceStateEvent::ChannelMembers(ChannelMembersRead::Members(members)), r4),
        voice_state_step_spec(r4.0, VoiceStateEvent::Completed { ok: deleted }, r5),
        voice_state_step_spec(r5.0, VoiceStateEvent::Completed { ok: true }, r6),
    ensures
        r4.1 == (VoiceStateAction::DeleteChannel { channel: left }),
        r5.1 == (VoiceStateAction::DeleteRecord { record }),
        r6.1 == VoiceStateAction::Finish(Outcome::Done),
{
    lemma_parse_decimal(category);
}

/// A member with no old voice state who joins the start channel and owns no
/// channel, with every operation succeeding and no parent category
/// configured, gets a channel in the start channel's category named after
/// their user name, is moved into it, and its row records it with them as
/// owner.
pub proof fn law_first_join_creates_owned_channel(
    new: VoiceStateInfo,
    config: Config,
    category: u64,
    created: u64,
    moved: bool,
    b: Begin<VoiceStateMachine, VoiceStateAction>,
    r1: (VoiceStateMachine, VoiceStateAction),
    r2: (VoiceStateMachine, VoiceStateAction),
    r3: (VoiceStateMachine, VoiceStateAction),
    r4: (VoiceStateMachine, VoiceStateAction),
    r5: (VoiceStateMachine, VoiceStateAction),
    r6: (VoiceStateMachine, VoiceStateAction),
)
    requires
        new.member is Some,
        new.channel_id == Some(config.voice_id),
        begin_voice_state_spec(None, new, config, b),
        b matches Begin::Running(m0, _) && voice_state_step_spec(m0, VoiceStateEvent::GuildFetched(Some(config.guild_id)), r1),
        voice_state_step_spec(r1.0, VoiceStateEvent::ParentSource { configured: None, start: StartChannelFetch::InCategory(category) }, r2),
        voice_state_step_spec(r2.0, VoiceStateEvent::OwnedRecord(Fetched::Got(None)), r3),
        voice_state_step_spec(r3.0, VoiceStateEvent::ChannelCreated(Some(created)), r4),
        voice_state_step_spec(r4.0, VoiceStateEvent::Completed { ok: moved }, r5),
        voice_state_step_spec(r5.0, VoiceStateEvent::Completed { ok: true }, r6),
    ensures
        ({
            let member = new.member.unwrap();
            &&& r3.1 matches VoiceStateAction::CreateChannel { guild, name, kind, category: c, reason }
            &&& guild == config.guild_id && c == category && kind == ChannelKind::Voice
            &&& name@ == member.name@ + "'s channel"@
            &&& reason@ == "User "@ + member.name@ + " created voice chat"@
            &&& r4.1 == (VoiceStateAction::MoveMember { channel: created })
            &&& r5.1 matches VoiceStateAction::InsertRecord { channel_id, owner_id }
            &&& channel_id@ == decimal(created as nat) && owner_id@ == decimal(member.user_id as nat)
            &&& r6.1 == VoiceStateAction::Finish(Outcome::Done)
        }),
{
    lemma_parse_decimal(category);
}

/// A member who stays in the channel they were in (the old and the new
/// voice state name the same channel, as on a mute toggle) changes nothing:
/// once the parent category is known, the run ends.
pub proof fn law_staying_in_a_channel_changes_nothing(
    m: VoiceStateMachine,
    configured: Option<String>,
    category: u64,
    r: (VoiceStateMachine, VoiceStateAction),
)
    requires
        m.phase is AwaitParentSource,
        m.old_channel == Some(Some(m.joined)),
        configured matches Some(text) ==> parse_u64_spec(text@) is Some,
        voice_state_step_spec(m, VoiceStateEvent::ParentSource { configured, start: StartChannelFetch::InCategory(category) }, r),
    ensures
        r.1 == VoiceStateAction::Finish(Outcome::Done),
{
    lemma_parse_decimal(category);
}

/// The same over a whole run: when the old and the new voice state are in
/// the same channel, the run ends right after the parent category is read.
pub proof fn law_run_staying_in_a_channel_changes_nothing(
    old: VoiceStateInfo,
    new: VoiceStateInfo,
    config: Config,
    channel: u64,
    category: u64,
    b: Begin<VoiceStateMachine, VoiceStateAction>,
    r1: (VoiceStateMachine, VoiceStateAction),
    r2: (VoiceStateMachine, VoiceStateAction),
)
    requires
        new.member is Some,
        old.channel_id == Some(channel),
        new.channel_id == Some(channel),
        begin_voice_state_spec(Some(old), new, config, b),
        b matches Begin::Running(m0, _) && voice_state_step_spec(m0, VoiceStateEvent::GuildFetched(Some(config.guild_id)), r1),
        voice_state_step_spec(r1.0, VoiceStateEvent::ParentSource { configured: None, start: StartChannelFetch::InCategory(category) }, r2),
    ensures
        r2.1 == VoiceStateAction::Finish(Outcome::Done),
{
    lemma_parse_decimal(category);
}

/// Leaving a channel other than the start channel, for another channel
/// (or none), reads the row of exactly the channel left; leaving the start
/// channel ends the run.
pub proof fn law_leaving_reads_the_row_of_the_channel_left(
    m: VoiceStateMachine,
    left: u64,
    category: u64,
    r: (VoiceStateMachine, VoiceStateAction),
)
    requires
        m.phase is AwaitParentSource,
        m.old_channel == Some(Some(left)),
        m.joined != left,
        voice_state_step_spec(m, VoiceStateEvent::ParentSource { configured: None, start: StartChannelFetch::InCategory(category) }, r),
    ensures
        left != m.config.voice_id ==> {
            &&& r.1 matches VoiceStateAction::FetchChannelRecord { channel_id }
            &&& parse_u64_spec(channel_id@) == Some(left)
        },
        left == m.config.voice_id ==> r.1 == VoiceStateAction::Finish(Outcome::Done),
{
    lemma_parse_decimal(category);
    lemma_parse_decimal(left);
}

/// With no old voice state, joining the start channel looks up the row
/// owned by exactly the member; joining any other channel ends the run.
pub proof fn law_first_join_looks_up_the_members_row(
    m: VoiceStateMachine,
    category: u64,
    r: (VoiceStateMachine, VoiceStateAction),
)
    requires
        m.phase is AwaitParentSource,
        m.old_channel is None,
        voice_state_step_spec(m, VoiceStateEvent::ParentSource { configured: None, start: StartChannelFetch::InCategory(category) }, r),
    ensures
        m.joined == m.config.voice_id ==> {
            &&& r.1 matches VoiceStateAction::FetchOwnedRecord { owner_id }
            &&& parse_u64_spec(owner_id@) == Some(m.member.user_id)
        },
        m.joined != m.config.voice_id ==> r.1 == VoiceStateAction::Finish(Outcome::Done),
{
    lemma_parse_decimal(category);
    lemma_parse_decimal(m.member.user_id);
}

/// A channel's row gets as new owner only one of the channel's members.
pub proof fn law_new_owner_is_a_member(m: VoiceStateMachine, e: VoiceStateEvent, r: (VoiceStateMachine, VoiceStateAction))
    requires
        voice_state_step_spec(m, e, r),
    ensures
        r.1 matches VoiceStateAction::UpdateOwnerRecord { owner_id, .. } ==> {
            &&& e matches VoiceStateEvent::ChannelMembers(ChannelMembersRead::Members(members))
            &&& exists|x: u64| members@.contains(x) && parse_u64_spec(owner_id@) == Some(x)
        },
{
    if let VoiceStateAction::UpdateOwnerRecord { owner_id, .. } = r.1 {
        if let VoiceStateEvent::ChannelMembers(ChannelMembersRead::Members(members)) = e {
            let x = choose|x: u64| members@.contains(x) && owner_id@ == decimal(x as nat);
            lemma_parse_decimal(x);
        }
    }
}

/// A channel is deleted only when it has no members.
pub proof fn law_deletes_only_memberless_channels(m: VoiceStateMachine, e: VoiceStateEvent, r: (VoiceStateMachine, VoiceStateAction))
    requires
        voice_state_step_spec(m, e, r),
    ensures
        r.1 matches VoiceStateAction::DeleteChannel { channel } ==> {
            &&& m.phase matches VoiceStatePhase::AwaitChannelMembers { channel: c, .. }
            &&& c == channel
            &&& e matches VoiceStateEvent::ChannelMembers(ChannelMembersRead::Members(members))
            &&& members@.len() == 0
        },
{
}

/// A failed fetch, or a failed row delete or insert, never lets the handler
/// go on: the run ends with an error or aborts. (Failures to delete a
/// channel or to move the member are ignored.)
pub proof fn law_voice_state_failures_end_the_run(m: VoiceStateMachine, e: VoiceStateEvent, r: (VoiceStateMachine, VoiceStateAction))
    requires
        e == VoiceStateEvent::GuildFetched(None)
            || e == (VoiceStateEvent::ParentSource { configured: None, start: StartChannelFetch::Failed })
            || e == VoiceStateEvent::ChannelRecord(Fetched::Failed)
            || e == VoiceStateEvent::ChannelMembers(ChannelMembersRead::Failed)
            || e == VoiceStateEvent::OwnedRecord(Fetched::Failed)
            || e == VoiceStateEvent::GuildChannels(None)
            || e == VoiceStateEvent::ChannelCreated(None)
            || (e == (VoiceStateEvent::Completed { ok: false }) && (m.phase is AwaitOwnerRecord
                || m.phase is AwaitLeftRecordDeletion || m.phase is AwaitStaleRecordDeletion || m.phase is AwaitInsert)),
        voice_state_step_spec(m, e, r),
    ensures
        r.1 matches VoiceStateAction::Finish(o) && o != Outcome::Done,
{
}

/// The handler works only with its own guild: when the fetched guild is
/// another, the run ends.
pub proof fn law_voice_state_only_in_own_guild(m: VoiceStateMachine, id: u64, r: (VoiceStateMachine, VoiceStateAction))
    requires
        m.phase is AwaitGuild,
        voice_state_step_spec(m, VoiceStateEvent::GuildFetched(Some(id)), r),
    ensures
        id != m.config.guild_id ==> r.1 == VoiceStateAction::Finish(Outcome::Done),
        id == m.config.guild_id ==> r.1 is ReadParentSource,
{
}

/// On joining the start channel, an owned channel that still exists gets the
/// member moved into it (and the run ends after that); one that is gone has
/// its row deleted, after which a new channel is created.
pub proof fn law_owned_channel_reused_or_its_row_dropped(
    m: VoiceStateMachine,
    ids: Vec<u64>,
    channel: u64,
    r: (VoiceStateMachine, VoiceStateAction),
)
    requires
        m.phase matches VoiceStatePhase::AwaitGuildChannels { record, .. } && parse_u64_spec(record.channel_id@) == Some(channel),
        channel != 0,
        voice_state_step_spec(m, VoiceStateEvent::GuildChannels(Some(ids)), r),
    ensures
        ids@.contains(channel) ==> r.1 == (VoiceStateAction::MoveMember { channel }) && r.0.phase is AwaitMoveBack,
        !ids@.contains(channel) ==> r.1 is DeleteRecord && r.0.phase is AwaitStaleRecordDeletion,
{
}

/// After the member is moved back to their channel the run ends; after a
/// stale row is deleted a channel is created.
pub proof fn law_after_reuse_or_drop(m: VoiceStateMachine, ok: bool, r: (VoiceStateMachine, VoiceStateAction))
    requires
        m.phase is AwaitMoveBack || (m.phase is AwaitStaleRecordDeletion && ok),
        voice_state_step_spec(m, VoiceStateEvent::Completed { ok }, r),
    ensures
        m.phase is AwaitMoveBack ==> r.1 == VoiceStateAction::Finish(Outcome::Done),
        m.phase is AwaitStaleRecordDeletion ==> r.1 is CreateChannel,
{
}

/// The member is moved into the channel just created, and the row then
/// written records that channel with the member as owner, whether or not
/// the move succeeded.
pub proof fn law_created_channel_is_recorded(
    m: VoiceStateMachine,
    created: u64,
    moved: bool,
    r1: (VoiceStateMachine, VoiceStateAction),
    r2: (VoiceStateMachine, VoiceStateAction),
)
    requires
        m.phase is AwaitCreate,
        voice_state_step_spec(m, VoiceStateEvent::ChannelCreated(Some(created)), r1),
        voice_state_step_spec(r1.0, VoiceStateEvent::Completed { ok: moved }, r2),
    ensures
        r1.1 == (VoiceStateAction::MoveMember { channel: created }),
        r2.1 matches VoiceStateAction::InsertRecord { channel_id, owner_id }
            && parse_u64_spec(channel_id@) == Some(created) && parse_u64_spec(owner_id@) == Some(m.member.user_id),
{
    lemma_parse_decimal(created);
    lemma_parse_decimal(m.member.user_id);
}

} // verus!
