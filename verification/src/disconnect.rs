//! Leaving a voice channel: when the owner of a member channel leaves it, the
//! channel goes to someone still in it, or is deleted when nobody is left;
//! a member who leaves while muted or deafened by the server gets their
//! voice back.

use vstd::prelude::*;
use crate::models::VoiceInfo;
use crate::random::select_random_owner_id;
use crate::text::{decimal, parse_u64_spec, u64_to_string, lemma_parse_decimal};
use crate::voice::{
    Begin, Config, MemberInfo, VoiceStateInfo, VoiceEntry, Fetched, AbortReason, Outcome,
    users_where, is_channel, users_in_channel, lemma_users_where_sound, lemma_users_where_complete,
};

verus! {

/// What the caller reports of the operation it was asked for.
pub enum DisconnectEvent {
    /// The guild was fetched from Discord, or the fetch failed.
    GuildFetched { ok: bool },
    /// The row of the channel left, if it is a member channel.
    ChannelRecord(Fetched<Option<VoiceInfo>>),
    /// The guild's voice states, `None` when the guild is not cached.
    VoiceStates(Option<Vec<VoiceEntry>>),
    /// A write finished, or failed.
    Completed { ok: bool },
}

/// The operation the machine asks for next.
pub enum DisconnectAction {
    /// Fetch the guild from Discord.
    FetchGuild { guild: u64 },
    /// Read the row of the channel whose id is this decimal text.
    FetchChannelRecord { voice_id: String },
    /// Read the guild's voice states from the cache.
    ReadVoiceStates { guild: u64 },
    /// Delete this channel on Discord.
    DeleteChannel { channel: u64 },
    /// Delete this row.
    DeleteRecord { record: VoiceInfo },
    /// Hand this channel to a new owner on Discord.
    TransferOwnership { channel: u64, new_owner: u64 },
    /// Write the new owner (decimal text) into the channel's row.
    UpdateOwnerRecord { record: VoiceInfo, owner_id: String },
    /// Lift the server mute and deafening of the member.
    RestoreVoice,
    /// Stop with this outcome.
    Finish(Outcome),
}

/// Where the machine stands, with what it has learnt so far.
pub enum DisconnectPhase {
    AwaitGuild,
    AwaitRecord { channel: u64 },
    AwaitVoiceStates { channel: u64, record: VoiceInfo },
    AwaitChannelDeletion { record: VoiceInfo },
    AwaitRecordDeletion,
    AwaitTransfer { record: VoiceInfo, new_owner: u64 },
    AwaitOwnerRecord,
    AwaitRestore,
    Done,
}

/// The state of one run of the leave handler.
pub struct DisconnectMachine {
    pub config: Config,
    pub member: MemberInfo,
    /// The guild of the voice state.
    pub guild: u64,
    /// The channel left.
    pub left: Option<u64>,
    pub phase: DisconnectPhase,
}

/// How a run begins: it aborts without a member or a guild; otherwise it
/// asks for the guild.
pub open spec fn begin_disconnect_spec(old: VoiceStateInfo, config: Config, r: Begin<DisconnectMachine, DisconnectAction>) -> bool {
    match (old.member, old.guild_id) {
        (Some(member), Some(guild)) => r matches Begin::Running(m, a) && m.config == config
            && m.member == member && m.guild == guild && m.left == old.channel_id
            && m.phase is AwaitGuild && a == (DisconnectAction::FetchGuild { guild }),
        (None, _) => r == Begin::<DisconnectMachine, DisconnectAction>::Finished(Outcome::Abort(AbortReason::MissingMember)),
        (Some(_), None) => r == Begin::<DisconnectMachine, DisconnectAction>::Finished(Outcome::Abort(AbortReason::MissingGuild)),
    }
}

/// Starts the leave handler on the old voice state.
pub fn begin_disconnect(old: VoiceStateInfo, config: Config) -> (r: Begin<DisconnectMachine, DisconnectAction>)
    ensures
        begin_disconnect_spec(old, config, r),
{
    let VoiceStateInfo { member, channel_id, guild_id } = old;
    match member {
        None => Begin::Finished(Outcome::Abort(AbortReason::MissingMember)),
        Some(member) => match guild_id {
            None => Begin::Finished(Outcome::Abort(AbortReason::MissingGuild)),
            Some(guild) => Begin::Running(
                DisconnectMachine { config, member, guild, left: channel_id, phase: DisconnectPhase::AwaitGuild },
                DisconnectAction::FetchGuild { guild },
            ),
        },
    }
}

/// The run keeps what it knew of the member and the channels.
pub open spec fn keeps(m: DisconnectMachine, n: DisconnectMachine) -> bool {
    n.config == m.config && n.member == m.member && n.guild == m.guild && n.left == m.left
}

/// The run ends with `o`.
pub open spec fn ends(m: DisconnectMachine, r: (DisconnectMachine, DisconnectAction), o: Outcome) -> bool {
    keeps(m, r.0) && r.0.phase is Done && r.1 == DisconnectAction::Finish(o)
}

/// The run keeps what it knew and asks for `a`, standing at `phase`.
pub open spec fn asks(m: DisconnectMachine, r: (DisconnectMachine, DisconnectAction), phase: DisconnectPhase, a: DisconnectAction) -> bool {
    keeps(m, r.0) && r.0.phase == phase && r.1 == a
}

/// The last part of the run: a member muted or deafened by the server gets
/// their voice back; otherwise the run ends.
pub open spec fn restores(m: DisconnectMachine, r: (DisconnectMachine, DisconnectAction)) -> bool {
    if m.member.deaf || m.member.mute {
        asks(m, r, DisconnectPhase::AwaitRestore, DisconnectAction::RestoreVoice)
    } else {
        ends(m, r, Outcome::Done)
    }
}

/// Whether the machine waits for this kind of report.
pub open spec fn disconnect_accepts(m: DisconnectMachine, e: DisconnectEvent) -> bool {
    match m.phase {
        DisconnectPhase::AwaitGuild => e is GuildFetched,
        DisconnectPhase::AwaitRecord { .. } => e is ChannelRecord,
        DisconnectPhase::AwaitVoiceStates { .. } => e is VoiceStates,
        DisconnectPhase::Done => false,
        _ => e is Completed,
    }
}

/// One step of the leave handler: what it does with the report `e`.
pub open spec fn disconnect_step_spec(m: DisconnectMachine, e: DisconnectEvent, r: (DisconnectMachine, DisconnectAction)) -> bool {
    match m.phase {
        DisconnectPhase::AwaitGuild => match e {
            DisconnectEvent::GuildFetched { ok } => if !ok {
                ends(m, r, Outcome::Failed)
            } else if m.guild != m.config.guild_id {
                ends(m, r, Outcome::Done)
            } else {
                match m.left {
                    None => ends(m, r, Outcome::Done),
                    Some(channel) => {
                        &&& keeps(m, r.0)
                        &&& r.0.phase == (DisconnectPhase::AwaitRecord { channel })
                        &&& r.1 matches DisconnectAction::FetchChannelRecord { voice_id }
                        &&& voice_id@ == decimal(channel as nat)
                    },
                }
            },
            _ => false,
        },
        DisconnectPhase::AwaitRecord { channel } => match e {
            DisconnectEvent::ChannelRecord(Fetched::Failed) => ends(m, r, Outcome::Failed),
            DisconnectEvent::ChannelRecord(Fetched::Got(None)) => restores(m, r),
            DisconnectEvent::ChannelRecord(Fetched::Got(Some(record))) =>
                if decimal(m.member.user_id as nat) != record.owner_id@ {
                    ends(m, r, Outcome::Done)
                } else {
                    asks(m, r, DisconnectPhase::AwaitVoiceStates { channel, record },
                        DisconnectAction::ReadVoiceStates { guild: m.guild })
                },
            _ => false,
        },
        DisconnectPhase::AwaitVoiceStates { channel, record } => match e {
            DisconnectEvent::VoiceStates(None) => ends(m, r, Outcome::Done),
            DisconnectEvent::VoiceStates(Some(states)) => {
                let remaining = users_where(states@, is_channel(channel));
                if remaining.len() == 0 {
                    asks(m, r, DisconnectPhase::AwaitChannelDeletion { record },
                        DisconnectAction::DeleteChannel { channel })
                } else {
                    &&& keeps(m, r.0)
                    &&& r.0.phase matches DisconnectPhase::AwaitTransfer { record: rec, new_owner }
                    &&& rec == record && remaining.contains(new_owner)
                    &&& r.1 == (DisconnectAction::TransferOwnership { channel, new_owner })
                }
            },
            _ => false,
        },
        DisconnectPhase::AwaitChannelDeletion { record } => match e {
            DisconnectEvent::Completed { ok } => if !ok {
                ends(m, r, Outcome::Failed)
            } else {
                asks(m, r, DisconnectPhase::AwaitRecordDeletion, DisconnectAction::DeleteRecord { record })
            },
            _ => false,
        },
        DisconnectPhase::AwaitRecordDeletion => match e {
            DisconnectEvent::Completed { ok } => if !ok {
                ends(m, r, Outcome::Failed)
            } else {
                ends(m, r, Outcome::Done)
            },
            _ => false,
        },
        DisconnectPhase::AwaitTransfer { record, new_owner } => match e {
            DisconnectEvent::Completed { ok } => if !ok {
                ends(m, r, Outcome::Failed)
            } else {
                &&& keeps(m, r.0)
                &&& r.0.phase is AwaitOwnerRecord
                &&& r.1 matches DisconnectAction::UpdateOwnerRecord { record: rec, owner_id }
                &&& rec == record && owner_id@ == decimal(new_owner as nat)
            },
            _ => false,
        },
        DisconnectPhase::AwaitOwnerRecord => match e {
            DisconnectEvent::Completed { ok } => if !ok {
                ends(m, r, Outcome::Abort(AbortReason::DatabaseFailed))
            } else {
                restores(m, r)
            },
            _ => false,
        },
        DisconnectPhase::AwaitRestore => match e {
            DisconnectEvent::Completed { ok } => if !ok {
                ends(m, r, Outcome::Failed)
            } else {
                ends(m, r, Outcome::Done)
            },
            _ => false,
        },
        DisconnectPhase::Done => false,
    }
}

/// Stops the run with outcome `o`.
fn finish(config: Config, member: MemberInfo, guild: u64, left: Option<u64>, o: Outcome) -> (r: (DisconnectMachine, DisconnectAction))
    ensures
        r.0.config == config && r.0.member == member && r.0.guild == guild && r.0.left == left,
        r.0.phase is Done,
        r.1 == DisconnectAction::Finish(o),
{
    (DisconnectMachine { config, member, guild, left, phase: DisconnectPhase::Done }, DisconnectAction::Finish(o))
}

/// Gives the member their voice back if the server took it, else stops.
fn restore(config: Config, member: MemberInfo, guild: u64, left: Option<u64>) -> (r: (DisconnectMachine, DisconnectAction))
    ensures
        r.0.config == config && r.0.member == member && r.0.guild == guild && r.0.left == left,
        if member.deaf || member.mute {
            r.0.phase is AwaitRestore && r.1 == DisconnectAction::RestoreVoice
        } else {
            r.0.phase is Done && r.1 == DisconnectAction::Finish(Outcome::Done)
        },
{
    if member.deaf || member.mute {
        (DisconnectMachine { config, member, guild, left, phase: DisconnectPhase::AwaitRestore }, DisconnectAction::RestoreVoice)
    } else {
        finish(config, member, guild, left, Outcome::Done)
    }
}

impl DisconnectMachine {
    /// Whether the machine waits for this kind of report.
    pub fn accepts(&self, e: &DisconnectEvent) -> (r: bool)
        ensures
            r == disconnect_accepts(*self, *e),
    {
        match &self.phase {
            DisconnectPhase::AwaitGuild => matches!(e, DisconnectEvent::GuildFetched { .. }),
            DisconnectPhase::AwaitRecord { .. } => matches!(e, DisconnectEvent::ChannelRecord(..)),
            DisconnectPhase::AwaitVoiceStates { .. } => matches!(e, DisconnectEvent::VoiceStates(..)),
            DisconnectPhase::Done => false,
            _ => matches!(e, DisconnectEvent::Completed { .. }),
        }
    }

    /// Takes the report of the operation asked for last, and says what to
    /// do next.
    pub fn step(self, e: DisconnectEvent) -> (r: (DisconnectMachine, DisconnectAction))
        requires
            disconnect_accepts(self, e),
        ensures
            disconnect_step_spec(self, e, r),
    {
        let DisconnectMachine { config, member, guild, left, phase } = self;
        let ok = match &e {
            DisconnectEvent::GuildFetched { ok } => *ok,
            DisconnectEvent::Completed { ok } => *ok,
            _ => false,
        };
        match phase {
            DisconnectPhase::AwaitGuild => {
                if !ok {
                    finish(config, member, guild, left, Outcome::Failed)
                } else if guild != config.guild_id {
                    finish(config, member, guild, left, Outcome::Done)
                } else {
                    match left {
                        None => finish(config, member, guild, left, Outcome::Done),
                        Some(channel) => {
                            let voice_id = u64_to_string(channel);
                            (DisconnectMachine { config, member, guild, left, phase: DisconnectPhase::AwaitRecord { channel } },
                                DisconnectAction::FetchChannelRecord { voice_id })
                        },
                    }
                }
            },
            DisconnectPhase::AwaitRecord { channel } => match e {
                DisconnectEvent::ChannelRecord(Fetched::Got(None)) => restore(config, member, guild, left),
                DisconnectEvent::ChannelRecord(Fetched::Got(Some(record))) => {
                    let user_id = u64_to_string(member.user_id);
                    if user_id != record.owner_id {
                        finish(config, member, guild, left, Outcome::Done)
                    } else {
                        (DisconnectMachine { config, member, guild, left, phase: DisconnectPhase::AwaitVoiceStates { channel, record } },
                            DisconnectAction::ReadVoiceStates { guild })
                    }
                },
                _ => finish(config, member, guild, left, Outcome::Failed),
            },
            DisconnectPhase::AwaitVoiceStates { channel, record } => match e {
                DisconnectEvent::VoiceStates(Some(states)) => {
                    let remaining = users_in_channel(&states, channel);
                    if remaining.len() == 0 {
                        (DisconnectMachine { config, member, guild, left, phase: DisconnectPhase::AwaitChannelDeletion { record } },
                            DisconnectAction::DeleteChannel { channel })
                    } else {
                        let new_owner = *select_random_owner_id(&remaining);
                        (DisconnectMachine { config, member, guild, left, phase: DisconnectPhase::AwaitTransfer { record, new_owner } },
                            DisconnectAction::TransferOwnership { channel, new_owner })
                    }
                },
                _ => finish(config, member, guild, left, Outcome::Done),
            },
            DisconnectPhase::AwaitChannelDeletion { record } => {
                if !ok {
                    finish(config, member, guild, left, Outcome::Failed)
                } else {
                    (DisconnectMachine { config, member, guild, left, phase: DisconnectPhase::AwaitRecordDeletion },
                        DisconnectAction::DeleteRecord { record })
                }
            },
            DisconnectPhase::AwaitRecordDeletion => {
                if !ok {
                    finish(config, member, guild, left, Outcome::Failed)
                } else {
                    finish(config, member, guild, left, Outcome::Done)
                }
            },
            DisconnectPhase::AwaitTransfer { record, new_owner } => {
                if !ok {
                    finish(config, member, guild, left, Outcome::Failed)
                } else {
                    let owner_id = u64_to_string(new_owner);
                    (DisconnectMachine { config, member, guild, left, phase: DisconnectPhase::AwaitOwnerRecord },
                        DisconnectAction::UpdateOwnerRecord { record, owner_id })
                }
            },
            DisconnectPhase::AwaitOwnerRecord => {
                if !ok {
                    finish(config, member, guild, left, Outcome::Abort(AbortReason::DatabaseFailed))
                } else {
                    restore(config, member, guild, left)
                }
            },
            DisconnectPhase::AwaitRestore => {
                if !ok {
                    finish(config, member, guild, left, Outcome::Failed)
                } else {
                    finish(config, member, guild, left, Outcome::Done)
                }
            },
            DisconnectPhase::Done => finish(config, member, guild, left, Outcome::Done),
        }
    }
}

/// The owner leaving their channel when nobody else is in it: the channel is
/// deleted, then its row, and the run ends.
pub proof fn law_owner_leaving_empty_channel_deletes_it(
    old: VoiceStateInfo,
    config: Config,
    left: u64,
    record: VoiceInfo,
    states: Vec<VoiceEntry>,
    b: Begin<DisconnectMachine, DisconnectAction>,
    r1: (DisconnectMachine, DisconnectAction),
    r2: (DisconnectMachine, DisconnectAction),
    r3: (DisconnectMachine, DisconnectAction),
    r4: (DisconnectMachine, DisconnectAction),
    r5: (DisconnectMachine, DisconnectAction),
)
    requires
        old.member matches Some(member) && record.owner_id@ == decimal(member.user_id as nat),
        old.guild_id == Some(config.guild_id),
        old.channel_id == Some(left),
        forall|i: int| 0 <= i < states@.len() ==> states@[i].channel_id != Some(left),
        begin_disconnect_spec(old, config, b),
        b matches Begin::Running(m0, _) && disconnect_step_spec(m0, DisconnectEvent::GuildFetched { ok: true }, r1),
        disconnect_step_spec(r1.0, DisconnectEvent::ChannelRecord(Fetched::Got(Some(record))), r2),
        disconnect_step_spec(r2.0, DisconnectEvent::VoiceStates(Some(states)), r3),
        disconnect_step_spec(r3.0, DisconnectEvent::Completed { ok: true }, r4),
        disconnect_step_spec(r4.0, DisconnectEvent::Completed { ok: true }, r5),
    ensures
        r1.1 matches DisconnectAction::FetchChannelRecord { voice_id } && voice_id@ == decimal(left as nat),
        r3.1 == (DisconnectAction::DeleteChannel { channel: left }),
        r4.1 == (DisconnectAction::DeleteRecord { record }),
        r5.1 == DisconnectAction::Finish(Outcome::Done),
{
    let remaining = users_where(states@, is_channel(left));
    if remaining.len() > 0 {
        assert(remaining.contains(remaining[0]));
        lemma_users_where_sound(states@, is_channel(left), remaining[0]);
    }
}

/// The owner leaving their channel while others are still in it: the
/// channel goes to one of those still in it, on Discord and in its row.
pub proof fn law_owner_leaving_hands_channel_on(
    old: VoiceStateInfo,
    config: Config,
    left: u64,
    record: VoiceInfo,
    states: Vec<VoiceEntry>,
    b: Begin<DisconnectMachine, DisconnectAction>,
    r1: (DisconnectMachine, DisconnectAction),
    r2: (DisconnectMachine, DisconnectAction),
    r3: (DisconnectMachine, DisconnectAction),
    r4: (DisconnectMachine, DisconnectAction),
)
    requires
        old.member matches Some(member) && record.owner_id@ == decimal(member.user_id as nat),
        old.guild_id == Some(config.guild_id),
        old.channel_id == Some(left),
        exists|i: int| 0 <= i < states@.len() && states@[i].channel_id == Some(left),
        begin_disconnect_spec(old, config, b),
        b matches Begin::Running(m0, _) && disconnect_step_spec(m0, DisconnectEvent::GuildFetched { ok: true }, r1),
        disconnect_step_spec(r1.0, DisconnectEvent::ChannelRecord(Fetched::Got(Some(record))), r2),
        disconnect_step_spec(r2.0, DisconnectEvent::VoiceStates(Some(states)), r3),
        disconnect_step_spec(r3.0, DisconnectEvent::Completed { ok: true }, r4),
    ensures
        r3.1 matches DisconnectAction::TransferOwnership { channel, new_owner } && channel == left
            && exists|i: int| 0 <= i < states@.len() && states@[i].user_id == new_owner
                && states@[i].channel_id == Some(left),
        ({
            &&& r3.1 matches DisconnectAction::TransferOwnership { new_owner, .. }
            &&& r4.1 matches DisconnectAction::UpdateOwnerRecord { record: rec, owner_id }
            &&& rec == record && owner_id@ == decimal(new_owner as nat)
        }),
{
    let remaining = users_where(states@, is_channel(left));
    if remaining.len() == 0 {
        let i = choose|i: int| 0 <= i < states@.len() && states@[i].channel_id == Some(left);
        lemma_users_where_complete(states@, is_channel(left), i);
        assert(false);
    }
    if let DisconnectAction::TransferOwnership { channel, new_owner } = r3.1 {
        lemma_users_where_sound(states@, is_channel(left), new_owner);
    }
}

/// The row that the join handler writes for a channel it created makes the
/// leave handler recognise the channel and its creator: when the creator
/// leaves that channel, the row is looked up by the very key it was stored
/// under, and the creator is taken for its owner.
pub proof fn law_creator_is_owner_on_leave(
    created: u64,
    row_voice_id: String,
    row_owner_id: String,
    old: VoiceStateInfo,
    config: Config,
    b: Begin<DisconnectMachine, DisconnectAction>,
    r1: (DisconnectMachine, DisconnectAction),
    r2: (DisconnectMachine, DisconnectAction),
)
    requires
        old.member matches Some(member) && crate::connect::inserts_row(
            crate::connect::ConnectAction::InsertRecord { voice_id: row_voice_id, owner_id: row_owner_id },
            created,
            member.user_id,
        ),
        old.guild_id == Some(config.guild_id),
        old.channel_id == Some(created),
        begin_disconnect_spec(old, config, b),
        b matches Begin::Running(m0, _) && disconnect_step_spec(m0, DisconnectEvent::GuildFetched { ok: true }, r1),
        disconnect_step_spec(
            r1.0,
            DisconnectEvent::ChannelRecord(Fetched::Got(Some(VoiceInfo { voice_id: row_voice_id, owner_id: row_owner_id }))),
            r2,
        ),
    ensures
        r1.1 matches DisconnectAction::FetchChannelRecord { voice_id } && voice_id@ == row_voice_id@,
        r2.1 == (DisconnectAction::ReadVoiceStates { guild: config.guild_id }),
{
}

/// A member leaving a member channel they do not own changes nothing: the
/// run ends once the channel's row is read.
pub proof fn law_non_owner_leaving_changes_nothing(
    old: VoiceStateInfo,
    config: Config,
    left: u64,
    record: VoiceInfo,
    b: Begin<DisconnectMachine, DisconnectAction>,
    r1: (DisconnectMachine, DisconnectAction),
    r2: (DisconnectMachine, DisconnectAction),
)
    requires
        old.member matches Some(member) && record.owner_id@ != decimal(member.user_id as nat),
        old.guild_id == Some(config.guild_id),
        old.channel_id == Some(left),
        begin_disconnect_spec(old, config, b),
        b matches Begin::Running(m0, _) && disconnect_step_spec(m0, DisconnectEvent::GuildFetched { ok: true }, r1),
        disconnect_step_spec(r1.0, DisconnectEvent::ChannelRecord(Fetched::Got(Some(record))), r2),
    ensures
        r2.1 == DisconnectAction::Finish(Outcome::Done),
{
}

/// A member the server has muted or deafened gets their voice back exactly
/// when the run ends without error after the channel's row is dealt with:
/// when the channel left is no member channel, or after the channel was
/// handed on.
pub proof fn law_voice_restored_exactly_when_taken(m: DisconnectMachine, e: DisconnectEvent, r: (DisconnectMachine, DisconnectAction))
    requires
        (m.phase is AwaitRecord && e == DisconnectEvent::ChannelRecord(Fetched::Got(None)))
            || (m.phase is AwaitOwnerRecord && e == (DisconnectEvent::Completed { ok: true })),
        disconnect_step_spec(m, e, r),
    ensures
        (r.1 == DisconnectAction::RestoreVoice) == (m.member.deaf || m.member.mute),
        !(m.member.deaf || m.member.mute) ==> r.1 == DisconnectAction::Finish(Outcome::Done),
{
}

/// The leave handler reads the row of exactly the channel left.
pub proof fn law_leave_reads_the_row_of_the_channel_left(m: DisconnectMachine, left: u64, r: (DisconnectMachine, DisconnectAction))
    requires
        m.phase is AwaitGuild,
        m.guild == m.config.guild_id,
        m.left == Some(left),
        disconnect_step_spec(m, DisconnectEvent::GuildFetched { ok: true }, r),
    ensures
        r.1 matches DisconnectAction::FetchChannelRecord { voice_id } && voice_id@ == decimal(left as nat)
            && parse_u64_spec(voice_id@) == Some(left),
{
    lemma_parse_decimal(left);
}

/// Only the recorded owner's leaving touches the channel: anyone else's
/// leaving ends the run once the row is read.
pub proof fn law_only_the_owner_leaving_changes_anything(
    m: DisconnectMachine,
    record: VoiceInfo,
    r: (DisconnectMachine, DisconnectAction),
)
    requires
        m.phase is AwaitRecord,
        disconnect_step_spec(m, DisconnectEvent::ChannelRecord(Fetched::Got(Some(record))), r),
    ensures
        record.owner_id@ != decimal(m.member.user_id as nat) ==> r.1 == DisconnectAction::Finish(Outcome::Done),
        record.owner_id@ == decimal(m.member.user_id as nat) ==> r.1 == (DisconnectAction::ReadVoiceStates { guild: m.guild }),
{
}

/// A channel is deleted only when the voice states show nobody in it.
pub proof fn law_channel_deleted_only_when_empty(m: DisconnectMachine, e: DisconnectEvent, r: (DisconnectMachine, DisconnectAction))
    requires
        disconnect_step_spec(m, e, r),
    ensures
        r.1 matches DisconnectAction::DeleteChannel { channel } ==> {
            &&& m.phase matches DisconnectPhase::AwaitVoiceStates { channel: c, .. }
            &&& c == channel
            &&& e matches DisconnectEvent::VoiceStates(Some(states))
            &&& forall|i: int| 0 <= i < states@.len() ==> #[trigger] states@[i].channel_id != Some(channel)
        },
{
    if let DisconnectAction::DeleteChannel { channel } = r.1 {
        if let DisconnectEvent::VoiceStates(Some(states)) = e {
            assert forall|i: int| 0 <= i < states@.len() implies #[trigger] states@[i].channel_id != Some(channel) by {
                if states@[i].channel_id == Some(channel) {
                    lemma_users_where_complete(states@, is_channel(channel), i);
                }
            }
        }
    }
}

/// A channel is handed only to someone the voice states show in it.
pub proof fn law_channel_handed_to_someone_in_it(m: DisconnectMachine, e: DisconnectEvent, r: (DisconnectMachine, DisconnectAction))
    requires
        disconnect_step_spec(m, e, r),
    ensures
        r.1 matches DisconnectAction::TransferOwnership { channel, new_owner } ==> {
            &&& m.phase matches DisconnectPhase::AwaitVoiceStates { channel: c, .. }
            &&& c == channel
            &&& e matches DisconnectEvent::VoiceStates(Some(states))
            &&& exists|i: int| 0 <= i < states@.len() && states@[i].user_id == new_owner
                && #[trigger] states@[i].channel_id == Some(channel)
        },
{
    if let DisconnectAction::TransferOwnership { channel, new_owner } = r.1 {
        if let DisconnectEvent::VoiceStates(Some(states)) = e {
            lemma_users_where_sound(states@, is_channel(channel), new_owner);
        }
    }
}

/// Whether a report says that the operation asked for failed.
pub open spec fn disconnect_failure(e: DisconnectEvent) -> bool {
    ||| e == (DisconnectEvent::GuildFetched { ok: false })
    ||| e == DisconnectEvent::ChannelRecord(Fetched::Failed)
    ||| e == (DisconnectEvent::Completed { ok: false })
}

/// A failed operation never lets the leave handler go on: the run ends with
/// an error or aborts.
pub proof fn law_leave_failures_end_the_run(m: DisconnectMachine, e: DisconnectEvent, r: (DisconnectMachine, DisconnectAction))
    requires
        disconnect_failure(e),
        disconnect_step_spec(m, e, r),
    ensures
        r.1 matches DisconnectAction::Finish(o) && o != Outcome::Done,
        r.0.phase is Done,
{
}

/// The leave handler works only in its own guild and only on a channel:
/// otherwise the run ends once the guild is fetched.
pub proof fn law_leave_only_in_own_guild(m: DisconnectMachine, r: (DisconnectMachine, DisconnectAction))
    requires
        m.phase is AwaitGuild,
        disconnect_step_spec(m, DisconnectEvent::GuildFetched { ok: true }, r),
    ensures
        m.guild != m.config.guild_id || m.left is None ==> r.1 == DisconnectAction::Finish(Outcome::Done),
        m.guild == m.config.guild_id && m.left is Some ==> r.1 is FetchChannelRecord,
{
}

/// With the owner gone, the channel is deleted exactly when the voice states
/// show nobody in it, and handed on otherwise.
pub proof fn law_owner_leaving_deletes_exactly_empty_channels(
    m: DisconnectMachine,
    states: Vec<VoiceEntry>,
    r: (DisconnectMachine, DisconnectAction),
)
    requires
        m.phase is AwaitVoiceStates,
        disconnect_step_spec(m, DisconnectEvent::VoiceStates(Some(states)), r),
    ensures
        m.phase matches DisconnectPhase::AwaitVoiceStates { channel, .. } ==> {
            &&& (r.1 is DeleteChannel) == (forall|i: int| 0 <= i < states@.len() ==> #[trigger] states@[i].channel_id != Some(channel))
            &&& (r.1 is DeleteChannel) != (r.1 is TransferOwnership)
        },
{
    if let DisconnectPhase::AwaitVoiceStates { channel, record } = m.phase {
        let remaining = users_where(states@, is_channel(channel));
        if remaining.len() > 0 {
            assert(remaining.contains(remaining[0]));
            lemma_users_where_sound(states@, is_channel(channel), remaining[0]);
        } else {
            assert forall|i: int| 0 <= i < states@.len() implies #[trigger] states@[i].channel_id != Some(channel) by {
                if states@[i].channel_id == Some(channel) {
                    lemma_users_where_complete(states@, is_channel(channel), i);
                }
            }
        }
    }
}

/// After a channel is deleted, its own row is deleted.
pub proof fn law_deleted_channel_loses_its_row(m: DisconnectMachine, r: (DisconnectMachine, DisconnectAction))
    requires
        m.phase is AwaitChannelDeletion,
        disconnect_step_spec(m, DisconnectEvent::Completed { ok: true }, r),
    ensures
        m.phase matches DisconnectPhase::AwaitChannelDeletion { record } ==> r.1 == (DisconnectAction::DeleteRecord { record }),
{
}

/// The owner written into the row of a channel handed on is the one it was
/// handed to on Discord.
pub proof fn law_leave_row_names_the_new_owner(m: DisconnectMachine, e: DisconnectEvent, r: (DisconnectMachine, DisconnectAction))
    requires
        disconnect_step_spec(m, e, r),
    ensures
        r.1 matches DisconnectAction::UpdateOwnerRecord { record, owner_id } ==> {
            &&& m.phase matches DisconnectPhase::AwaitTransfer { record: rec, new_owner }
            &&& rec == record
            &&& parse_u64_spec(owner_id@) == Some(new_owner)
        },
{
    if let DisconnectPhase::AwaitTransfer { record, new_owner } = m.phase {
        lemma_parse_decimal(new_owner);
    }
}

/// Once the member's voice is given back, the run ends well.
pub proof fn law_voice_restored_then_done(m: DisconnectMachine, r: (DisconnectMachine, DisconnectAction))
    requires
        m.phase is AwaitRestore,
        disconnect_step_spec(m, DisconnectEvent::Completed { ok: true }, r),
    ensures
        r.1 == DisconnectAction::Finish(Outcome::Done),
{
}

/// A leave is handled only with a member and a guild: without either the
/// handler aborts; with both it starts by fetching that guild, keeping the
/// channel left.
pub proof fn law_leave_begins_with_the_guild(old: VoiceStateInfo, config: Config, b: Begin<DisconnectMachine, DisconnectAction>)
    requires
        begin_disconnect_spec(old, config, b),
    ensures
        old.member is None ==> b is Finished && !(b == Begin::<DisconnectMachine, DisconnectAction>::Finished(Outcome::Done)),
        old.member is Some && old.guild_id is Some ==> {
            &&& b matches Begin::Running(m, a)
            &&& a == (DisconnectAction::FetchGuild { guild: old.guild_id.unwrap() })
            &&& m.left == old.channel_id
        },
{
}

} // verus!
