//! The periodic sweep over the stored member channels: rows whose guild or
//! channel is gone are dropped, empty channels without their owner are
//! deleted, and the sweep stops when its instance is told to.

use vstd::prelude::*;
use vstd::string::*;
use crate::models::VoiceInfo;
use crate::random::choose_from_remaining;
use crate::text::{parse_u64, parse_u64_spec, u64_to_string};
use crate::voice::{Begin, Fetched, AbortReason, Outcome, contains_id};

verus! {

/// Whether a sweep instance stops, given the instance counter `current` and
/// its own number `this_id`: the sweep tests `!current > this_id`, which
/// holds exactly when `current + this_id` is below `u64::MAX`.
pub fn should_stop(current: u64, this_id: u64) -> (r: bool)
    ensures
        r == (current + this_id < u64::MAX),
{
    let flipped = !current;
    assert(flipped == u64::MAX - current) by (bit_vector)
        requires
            flipped == !current,
    ;
    flipped > this_id
}

/// What the scan of a channel's members finds of the owner.
#[derive(Clone, Copy, Debug, PartialEq, Eq, Structural)]
pub enum OwnerScan {
    /// The owner is among the members.
    Present,
    /// The owner is not among them.
    Absent,
    /// The stored owner id is not a number (read only when there are members).
    Unreadable,
}

/// The result of scanning `members` for the owner `owner_id`: the id is read
/// only when there is a member to compare with.
pub open spec fn owner_scan_spec(members: Seq<u64>, owner_id: Seq<char>) -> OwnerScan {
    if members.len() == 0 {
        OwnerScan::Absent
    } else {
        match parse_u64_spec(owner_id) {
            None => OwnerScan::Unreadable,
            Some(o) => if members.contains(o) {
                OwnerScan::Present
            } else {
                OwnerScan::Absent
            },
        }
    }
}

/// Scans the members of a channel for its stored owner.
pub fn scan_for_owner(members: &Vec<u64>, owner_id: &String) -> (r: OwnerScan)
    ensures
        r == owner_scan_spec(members@, owner_id@),
{
    if members.len() == 0 {
        return OwnerScan::Absent;
    }
    match parse_u64(owner_id.as_str()) {
        None => OwnerScan::Unreadable,
        Some(o) => if contains_id(members, o) {
            OwnerScan::Present
        } else {
            OwnerScan::Absent
        },
    }
}

/// What the caller reports of the operation it was asked for.
pub enum CheckerEvent {
    /// The current value of the instance counter.
    Counter(u64),
    /// The stored channel rows.
    Records(Fetched<Vec<VoiceInfo>>),
    /// The ids of the cached guild's channels, `None` when it is not cached.
    GuildCache(Option<Vec<u64>>),
    /// The ids of the channel's members, `None` when they cannot be read.
    Members(Option<Vec<u64>>),
    /// A write or a wait finished, or failed.
    Completed { ok: bool },
}

/// The operation the machine asks for next.
pub enum CheckerAction {
    /// Read the instance counter.
    ReadInstanceCounter,
    /// Read the stored channel rows.
    FetchRecords,
    /// Read the guild from the cache.
    ReadGuildCache { guild: u64 },
    /// Read the members of this channel from the cache.
    ReadChannelMembers { channel: u64 },
    /// Delete this row.
    DeleteRecord { record: VoiceInfo },
    /// Delete this channel on Discord, with `reason` in the audit log.
    DeleteChannel { channel: u64, reason: String },
    /// Write a new owner (decimal text) into this row.
    UpdateOwnerRecord { record: VoiceInfo, owner_id: String },
    /// Wait for the next round.
    Tick,
    /// Stop with this outcome.
    Finish(Outcome),
}

/// Where the sweep stands.
pub enum CheckerPhase {
    AwaitTopCounter,
    AwaitRecords,
    AwaitItemCounter { item: VoiceInfo },
    AwaitGuildCache { item: VoiceInfo },
    AwaitMembers { item: VoiceInfo, channel: u64 },
    AwaitChannelDeletion { item: VoiceInfo },
    AwaitRecordDeletion,
    AwaitOwnerRecord,
    AwaitTick,
    Done,
}

/// The state of one sweep instance.
pub struct CheckerMachine {
    /// The guilds the bot was in when its cache became ready.
    pub guilds: Vec<u64>,
    /// The guild the bot serves.
    pub guild_id: u64,
    /// This instance's number.
    pub this_id: u64,
    /// The rows still to look at in this round, in order.
    pub pending: Vec<VoiceInfo>,
    pub phase: CheckerPhase,
}

/// Starts a sweep instance numbered `this_id`: it first reads the counter.
pub fn begin_checker(guilds: Vec<u64>, guild_id: u64, this_id: u64) -> (r: (CheckerMachine, CheckerAction))
    ensures
        r.0.guilds == guilds && r.0.guild_id == guild_id && r.0.this_id == this_id,
        r.0.pending@.len() == 0,
        r.0.phase is AwaitTopCounter,
        r.1 == CheckerAction::ReadInstanceCounter,
{
    (CheckerMachine { guilds, guild_id, this_id, pending: Vec::new(), phase: CheckerPhase::AwaitTopCounter },
        CheckerAction::ReadInstanceCounter)
}

/// The sweep keeps its settings.
pub open spec fn keeps(m: CheckerMachine, n: CheckerMachine) -> bool {
    n.guilds == m.guilds && n.guild_id == m.guild_id && n.this_id == m.this_id
}

/// The sweep ends with `o`.
pub open spec fn ends(m: CheckerMachine, r: (CheckerMachine, CheckerAction), o: Outcome) -> bool {
    keeps(m, r.0) && r.0.phase is Done && r.1 == CheckerAction::Finish(o)
}

/// The sweep keeps its settings and pending rows and asks for `a`.
pub open spec fn asks(m: CheckerMachine, r: (CheckerMachine, CheckerAction), phase: CheckerPhase, a: CheckerAction) -> bool {
    keeps(m, r.0) && r.0.pending == m.pending && r.0.phase == phase && r.1 == a
}

/// The sweep goes on with the next pending row, or waits for the next round
/// when none is left.
pub open spec fn advances(m: CheckerMachine, r: (CheckerMachine, CheckerAction)) -> bool {
    if m.pending@.len() == 0 {
        asks(m, r, CheckerPhase::AwaitTick, CheckerAction::Tick)
    } else {
        &&& keeps(m, r.0)
        &&& r.0.pending@ == m.pending@.drop_first()
        &&& r.0.phase == (CheckerPhase::AwaitItemCounter { item: m.pending@[0] })
        &&& r.1 == CheckerAction::ReadInstanceCounter
    }
}

/// The sweep drops the row `item`.
pub open spec fn drops(m: CheckerMachine, r: (CheckerMachine, CheckerAction), item: VoiceInfo) -> bool {
    asks(m, r, CheckerPhase::AwaitRecordDeletion, CheckerAction::DeleteRecord { record: item })
}

/// Whether the machine waits for this kind of report.
pub open spec fn checker_accepts(m: CheckerMachine, e: CheckerEvent) -> bool {
    match m.phase {
        CheckerPhase::AwaitTopCounter => e is Counter,
        CheckerPhase::AwaitItemCounter { .. } => e is Counter,
        CheckerPhase::AwaitRecords => e is Records,
        CheckerPhase::AwaitGuildCache { .. } => e is GuildCache,
        CheckerPhase::AwaitMembers { .. } => e is Members,
        CheckerPhase::Done => false,
        _ => e is Completed,
    }
}

/// One step of the sweep: what it does with the report `e`.
pub open spec fn checker_step_spec(m: CheckerMachine, e: CheckerEvent, r: (CheckerMachine, CheckerAction)) -> bool {
    match m.phase {
        CheckerPhase::AwaitTopCounter => match e {
            CheckerEvent::Counter(current) => if current + m.this_id < u64::MAX {
                ends(m, r, Outcome::Done)
            } else {
                asks(m, r, CheckerPhase::AwaitRecords, CheckerAction::FetchRecords)
            },
            _ => false,
        },
        CheckerPhase::AwaitRecords => match e {
            CheckerEvent::Records(Fetched::Failed) => ends(m, r, Outcome::Abort(AbortReason::DatabaseFailed)),
            CheckerEvent::Records(Fetched::Got(rows)) => advances(
                CheckerMachine { pending: rows, ..m }, r),
            _ => false,
        },
        CheckerPhase::AwaitItemCounter { item } => match e {
            CheckerEvent::Counter(current) => if current + m.this_id < u64::MAX {
                asks(m, r, CheckerPhase::AwaitTick, CheckerAction::Tick)
            } else if m.guilds@.contains(m.guild_id) {
                asks(m, r, CheckerPhase::AwaitGuildCache { item }, CheckerAction::ReadGuildCache { guild: m.guild_id })
            } else {
                drops(m, r, item)
            },
            _ => false,
        },
        CheckerPhase::AwaitGuildCache { item } => match e {
            CheckerEvent::GuildCache(None) => drops(m, r, item),
            CheckerEvent::GuildCache(Some(channels)) => match parse_u64_spec(item.voice_id@) {
                None => ends(m, r, Outcome::Abort(AbortReason::ChannelIdNotNumeric)),
                Some(channel) => if channel == 0 {
                    ends(m, r, Outcome::Abort(AbortReason::ZeroChannelId))
                } else if channels@.contains(channel) {
                    asks(m, r, CheckerPhase::AwaitMembers { item, channel }, CheckerAction::ReadChannelMembers { channel })
                } else {
                    drops(m, r, item)
                },
            },
            _ => false,
        },
        CheckerPhase::AwaitMembers { item, channel } => match e {
            CheckerEvent::Members(None) => advances(m, r),
            CheckerEvent::Members(Some(members)) => match owner_scan_spec(members@, item.owner_id@) {
                OwnerScan::Unreadable => ends(m, r, Outcome::Abort(AbortReason::OwnerIdNotNumeric)),
                OwnerScan::Present => advances(m, r),
                OwnerScan::Absent => if members@.len() == 0 {
                    &&& keeps(m, r.0)
                    &&& r.0.pending == m.pending
                    &&& r.0.phase == (CheckerPhase::AwaitChannelDeletion { item })
                    &&& r.1 matches CheckerAction::DeleteChannel { channel: c, reason }
                    &&& c == channel && reason@ == "No one here :c"@
                } else {
                    advances(m, r)
                },
            },
            _ => false,
        },
        CheckerPhase::AwaitChannelDeletion { item } => match e {
            CheckerEvent::Completed { .. } => drops(m, r, item),
            _ => false,
        },
        CheckerPhase::AwaitRecordDeletion => match e {
            CheckerEvent::Completed { ok } => if !ok {
                ends(m, r, Outcome::Abort(AbortReason::DatabaseFailed))
            } else {
                advances(m, r)
            },
            _ => false,
        },
        CheckerPhase::AwaitOwnerRecord => match e {
            CheckerEvent::Completed { ok } => if !ok {
                ends(m, r, Outcome::Abort(AbortReason::DatabaseFailed))
            } else {
                advances(m, r)
            },
            _ => false,
        },
        CheckerPhase::AwaitTick => match e {
            CheckerEvent::Completed { .. } => asks(m, r, CheckerPhase::AwaitTopCounter, CheckerAction::ReadInstanceCounter),
            _ => false,
        },
        CheckerPhase::Done => false,
    }
}

/// Goes on with the next pending row, or waits for the next round.
fn advance(guilds: Vec<u64>, guild_id: u64, this_id: u64, pending: Vec<VoiceInfo>) -> (r: (CheckerMachine, CheckerAction))
    ensures
        advances(CheckerMachine { guilds, guild_id, this_id, pending, phase: CheckerPhase::AwaitTick }, r),
{
    let mut pending = pending;
    if pending.len() == 0 {
        (CheckerMachine { guilds, guild_id, this_id, pending, phase: CheckerPhase::AwaitTick }, CheckerAction::Tick)
    } else {
        let item = pending.remove(0);
        (CheckerMachine { guilds, guild_id, this_id, pending, phase: CheckerPhase::AwaitItemCounter { item } },
            CheckerAction::ReadInstanceCounter)
    }
}

impl CheckerMachine {
    /// Whether the machine waits for this kind of report.
    pub fn accepts(&self, e: &CheckerEvent) -> (r: bool)
        ensures
            r == checker_accepts(*self, *e),
    {
        match &self.phase {
            CheckerPhase::AwaitTopCounter => matches!(e, CheckerEvent::Counter(..)),
            CheckerPhase::AwaitItemCounter { .. } => matches!(e, CheckerEvent::Counter(..)),
            CheckerPhase::AwaitRecords => matches!(e, CheckerEvent::Records(..)),
            CheckerPhase::AwaitGuildCache { .. } => matches!(e, CheckerEvent::GuildCache(..)),
            CheckerPhase::AwaitMembers { .. } => matches!(e, CheckerEvent::Members(..)),
            CheckerPhase::Done => false,
            _ => matches!(e, CheckerEvent::Completed { .. }),
        }
    }

    /// Takes the report of the operation asked for last, and says what to
    /// do next.
    pub fn step(self, e: CheckerEvent) -> (r: (CheckerMachine, CheckerAction))
        requires
            checker_accepts(self, e),
        ensures
            checker_step_spec(self, e, r),
    {
        let CheckerMachine { guilds, guild_id, this_id, pending, phase } = self;
        let ok = match &e {
            CheckerEvent::Completed { ok } => *ok,
            _ => false,
        };
        match phase {
            CheckerPhase::AwaitTopCounter => {
                let current = match e {
                    CheckerEvent::Counter(c) => c,
                    _ => 0,
                };
                if should_stop(current, this_id) {
                    (CheckerMachine { guilds, guild_id, this_id, pending, phase: CheckerPhase::Done },
                        CheckerAction::Finish(Outcome::Done))
                } else {
                    (CheckerMachine { guilds, guild_id, this_id, pending, phase: CheckerPhase::AwaitRecords },
                        CheckerAction::FetchRecords)
                }
            },
            CheckerPhase::AwaitRecords => match e {
                CheckerEvent::Records(Fetched::Got(rows)) => advance(guilds, guild_id, this_id, rows),
                _ => (CheckerMachine { guilds, guild_id, this_id, pending, phase: CheckerPhase::Done },
                    CheckerAction::Finish(Outcome::Abort(AbortReason::DatabaseFailed))),
            },
            CheckerPhase::AwaitItemCounter { item } => {
                let current = match e {
                    CheckerEvent::Counter(c) => c,
                    _ => 0,
                };
                if should_stop(current, this_id) {
                    (CheckerMachine { guilds, guild_id, this_id, pending, phase: CheckerPhase::AwaitTick }, CheckerAction::Tick)
                } else if contains_id(&guilds, guild_id) {
                    (CheckerMachine { guilds, guild_id, this_id, pending, phase: CheckerPhase::AwaitGuildCache { item } },
                        CheckerAction::ReadGuildCache { guild: guild_id })
                } else {
                    (CheckerMachine { guilds, guild_id, this_id, pending, phase: CheckerPhase::AwaitRecordDeletion },
                        CheckerAction::DeleteRecord { record: item })
                }
            },
            CheckerPhase::AwaitGuildCache { item } => match e {
                CheckerEvent::GuildCache(Some(channels)) => match parse_u64(item.voice_id.as_str()) {
                    None => (CheckerMachine { guilds, guild_id, this_id, pending, phase: CheckerPhase::Done },
                        CheckerAction::Finish(Outcome::Abort(AbortReason::ChannelIdNotNumeric))),
                    Some(channel) => {
                        if channel == 0 {
                            (CheckerMachine { guilds, guild_id, this_id, pending, phase: CheckerPhase::Done },
                                CheckerAction::Finish(Outcome::Abort(AbortReason::ZeroChannelId)))
                        } else if contains_id(&channels, channel) {
                            (CheckerMachine { guilds, guild_id, this_id, pending, phase: CheckerPhase::AwaitMembers { item, channel } },
                                CheckerAction::ReadChannelMembers { channel })
                        } else {
                            (CheckerMachine { guilds, guild_id, this_id, pending, phase: CheckerPhase::AwaitRecordDeletion },
                                CheckerAction::DeleteRecord { record: item })
                        }
                    },
                },
                _ => (CheckerMachine { guilds, guild_id, this_id, pending, phase: CheckerPhase::AwaitRecordDeletion },
                    CheckerAction::DeleteRecord { record: item }),
            },
            CheckerPhase::AwaitMembers { item, channel } => match e {
                CheckerEvent::Members(Some(members)) => match scan_for_owner(&members, &item.owner_id) {
                    OwnerScan::Unreadable => (CheckerMachine { guilds, guild_id, this_id, pending, phase: CheckerPhase::Done },
                        CheckerAction::Finish(Outcome::Abort(AbortReason::OwnerIdNotNumeric))),
                    OwnerScan::Present => advance(guilds, guild_id, this_id, pending),
                    OwnerScan::Absent => {
                        if members.len() == 0 {
                            let reason = String::from_str("No one here :c");
                            (CheckerMachine { guilds, guild_id, this_id, pending, phase: CheckerPhase::AwaitChannelDeletion { item } },
                                CheckerAction::DeleteChannel { channel, reason })
                        } else {
                            // The scan for the owner has consumed every member,
                            // so the choice of a new owner is made among none.
                            let unscanned: Vec<u64> = Vec::new();
                            match choose_from_remaining(&unscanned) {
                                None => advance(guilds, guild_id, this_id, pending),
                                Some(new_owner) => {
                                    let owner_id = u64_to_string(new_owner);
                                    (CheckerMachine { guilds, guild_id, this_id, pending, phase: CheckerPhase::AwaitOwnerRecord },
                                        CheckerAction::UpdateOwnerRecord { record: item, owner_id })
                                },
                            }
                        }
                    },
                },
                _ => advance(guilds, guild_id, this_id, pending),
            },
            CheckerPhase::AwaitChannelDeletion { item } =>
                (CheckerMachine { guilds, guild_id, this_id, pending, phase: CheckerPhase::AwaitRecordDeletion },
                    CheckerAction::DeleteRecord { record: item }),
            CheckerPhase::AwaitRecordDeletion => {
                if !ok {
                    (CheckerMachine { guilds, guild_id, this_id, pending, phase: CheckerPhase::Done },
                        CheckerAction::Finish(Outcome::Abort(AbortReason::DatabaseFailed)))
                } else {
                    advance(guilds, guild_id, this_id, pending)
                }
            },
            CheckerPhase::AwaitOwnerRecord => {
                if !ok {
                    (CheckerMachine { guilds, guild_id, this_id, pending, phase: CheckerPhase::Done },
                        CheckerAction::Finish(Outcome::Abort(AbortReason::DatabaseFailed)))
                } else {
                    advance(guilds, guild_id, this_id, pending)
                }
            },
            CheckerPhase::AwaitTick =>
                (CheckerMachine { guilds, guild_id, this_id, pending, phase: CheckerPhase::AwaitTopCounter },
                    CheckerAction::ReadInstanceCounter),
            CheckerPhase::Done => (CheckerMachine { guilds, guild_id, this_id, pending, phase: CheckerPhase::Done },
                CheckerAction::Finish(Outcome::Done)),
        }
    }
}

/// The sweep never hands a channel to a new owner: whatever it is told, it
/// never asks for a row's owner to be rewritten.
pub proof fn law_sweep_never_changes_owner(m: CheckerMachine, e: CheckerEvent, r: (CheckerMachine, CheckerAction))
    requires
        checker_step_spec(m, e, r),
    ensures
        !(r.1 is UpdateOwnerRecord),
{
}

/// A row whose channel is no longer among the guild's cached channels is
/// dropped, and so is every row while the guild is not cached.
pub proof fn law_sweep_drops_rows_of_missing_channels(
    m: CheckerMachine,
    item: VoiceInfo,
    channels: Option<Vec<u64>>,
    r: (CheckerMachine, CheckerAction),
)
    requires
        m.phase == (CheckerPhase::AwaitGuildCache { item }),
        match channels {
            None => true,
            Some(ids) => parse_u64_spec(item.voice_id@) matches Some(c) && c != 0 && !ids@.contains(c),
        },
        checker_step_spec(m, CheckerEvent::GuildCache(channels), r),
    ensures
        r.1 == (CheckerAction::DeleteRecord { record: item }),
{
}

/// An empty channel whose owner is gone is deleted, and its row with it,
/// whether or not the deletion on Discord succeeds.
pub proof fn law_sweep_deletes_empty_channels(
    m: CheckerMachine,
    item: VoiceInfo,
    channel: u64,
    members: Vec<u64>,
    deleted: bool,
    r1: (CheckerMachine, CheckerAction),
    r2: (CheckerMachine, CheckerAction),
)
    requires
        m.phase == (CheckerPhase::AwaitMembers { item, channel }),
        members@.len() == 0,
        checker_step_spec(m, CheckerEvent::Members(Some(members)), r1),
        checker_step_spec(r1.0, CheckerEvent::Completed { ok: deleted }, r2),
    ensures
        r1.1 matches CheckerAction::DeleteChannel { channel: c, .. } && c == channel,
        r2.1 == (CheckerAction::DeleteRecord { record: item }),
{
}

/// The row of a channel that is among the guild's cached channels is kept:
/// the sweep goes on to read that channel's members.
pub proof fn law_sweep_keeps_rows_of_live_channels(
    m: CheckerMachine,
    item: VoiceInfo,
    ids: Vec<u64>,
    channel: u64,
    r: (CheckerMachine, CheckerAction),
)
    requires
        m.phase == (CheckerPhase::AwaitGuildCache { item }),
        parse_u64_spec(item.voice_id@) == Some(channel),
        channel != 0,
        ids@.contains(channel),
        checker_step_spec(m, CheckerEvent::GuildCache(Some(ids)), r),
    ensures
        r.1 == (CheckerAction::ReadChannelMembers { channel }),
        !(r.1 is DeleteRecord),
{
}

/// At the top of a round the sweep stops exactly when the counter and its
/// own number add up to less than `u64::MAX`, and otherwise reads the rows;
/// within a round the same test sends it to wait for the next round.
pub proof fn law_sweep_stop_test(m: CheckerMachine, current: u64, r: (CheckerMachine, CheckerAction))
    requires
        m.phase is AwaitTopCounter || m.phase is AwaitItemCounter,
        checker_step_spec(m, CheckerEvent::Counter(current), r),
    ensures
        m.phase is AwaitTopCounter ==> (r.1 == CheckerAction::Finish(Outcome::Done)) == (current + m.this_id < u64::MAX),
        m.phase is AwaitTopCounter && current + m.this_id >= u64::MAX ==> r.1 == CheckerAction::FetchRecords,
        m.phase is AwaitItemCounter ==> (r.1 == CheckerAction::Tick) == (current + m.this_id < u64::MAX),
{
}

/// The sweep deletes a channel only when it has no members at all.
pub proof fn law_sweep_deletes_only_memberless_channels(m: CheckerMachine, e: CheckerEvent, r: (CheckerMachine, CheckerAction))
    requires
        checker_step_spec(m, e, r),
    ensures
        r.1 matches CheckerAction::DeleteChannel { channel, .. } ==> {
            &&& m.phase matches CheckerPhase::AwaitMembers { channel: c, .. }
            &&& c == channel
            &&& e matches CheckerEvent::Members(Some(members))
            &&& members@.len() == 0
        },
{
}

/// A row of a channel whose members include its recorded owner is left as
/// it is: the sweep moves on.
pub proof fn law_sweep_leaves_owned_channels_alone(
    m: CheckerMachine,
    item: VoiceInfo,
    channel: u64,
    members: Vec<u64>,
    owner: u64,
    r: (CheckerMachine, CheckerAction),
)
    requires
        m.phase == (CheckerPhase::AwaitMembers { item, channel }),
        parse_u64_spec(item.owner_id@) == Some(owner),
        members@.contains(owner),
        checker_step_spec(m, CheckerEvent::Members(Some(members)), r),
    ensures
        r.1 == CheckerAction::Tick || r.1 == CheckerAction::ReadInstanceCounter,
{
}

/// The sweep takes the rows one by one, in the order it read them, and
/// skips none: whenever it turns to a row, that row is the first of those
/// left, and the rest stay pending in order.
pub proof fn law_sweep_takes_rows_in_order(m: CheckerMachine, e: CheckerEvent, r: (CheckerMachine, CheckerAction))
    requires
        checker_step_spec(m, e, r),
    ensures
        r.0.phase matches CheckerPhase::AwaitItemCounter { item } ==> !(m.phase is AwaitItemCounter) ==> {
            let rows = match e {
                CheckerEvent::Records(Fetched::Got(rows)) => rows@,
                _ => m.pending@,
            };
            &&& rows.len() > 0
            &&& item == rows[0]
            &&& r.0.pending@ == rows.drop_first()
        },
        r.1 == CheckerAction::Tick ==> r.0.pending@ == m.pending@ || m.phase is AwaitRecords,
{
}

/// A row is dropped at once when the guild the bot serves is not among the
/// guilds it knows of, and when that guild is not cached.
pub proof fn law_sweep_drops_rows_without_a_guild(m: CheckerMachine, e: CheckerEvent, r: (CheckerMachine, CheckerAction))
    requires
        checker_step_spec(m, e, r),
        m.phase matches CheckerPhase::AwaitItemCounter { .. } && e matches CheckerEvent::Counter(current)
            && current + m.this_id >= u64::MAX && !m.guilds@.contains(m.guild_id)
        || m.phase is AwaitGuildCache && e == CheckerEvent::GuildCache(None),
    ensures
        r.1 matches CheckerAction::DeleteRecord { record } && (m.phase matches CheckerPhase::AwaitItemCounter { item } ==> record == item)
            && (m.phase matches CheckerPhase::AwaitGuildCache { item } ==> record == item),
{
}

/// A channel whose owner is absent but which still has members is left as
/// it is, and the sweep moves on; an owner id that is not a number aborts
/// the sweep once there is a member to compare with.
pub proof fn law_sweep_keeps_occupied_channels(
    m: CheckerMachine,
    item: VoiceInfo,
    channel: u64,
    members: Vec<u64>,
    r: (CheckerMachine, CheckerAction),
)
    requires
        m.phase == (CheckerPhase::AwaitMembers { item, channel }),
        members@.len() > 0,
        checker_step_spec(m, CheckerEvent::Members(Some(members)), r),
    ensures
        parse_u64_spec(item.owner_id@) is Some ==> (r.1 == CheckerAction::Tick || r.1 == CheckerAction::ReadInstanceCounter),
        parse_u64_spec(item.owner_id@) is None ==> r.1 == CheckerAction::Finish(Outcome::Abort(AbortReason::OwnerIdNotNumeric)),
{
}

/// A failed read or delete of rows aborts the sweep.
pub proof fn law_sweep_database_failures_abort(m: CheckerMachine, e: CheckerEvent, r: (CheckerMachine, CheckerAction))
    requires
        m.phase is AwaitRecords && e == CheckerEvent::Records(Fetched::Failed)
            || m.phase is AwaitRecordDeletion && e == (CheckerEvent::Completed { ok: false }),
        checker_step_spec(m, e, r),
    ensures
        r.1 == CheckerAction::Finish(Outcome::Abort(AbortReason::DatabaseFailed)),
{
}

/// After waiting, the sweep starts a new round with the stop test.
pub proof fn law_sweep_rounds_repeat(m: CheckerMachine, ok: bool, r: (CheckerMachine, CheckerAction))
    requires
        m.phase is AwaitTick,
        checker_step_spec(m, CheckerEvent::Completed { ok }, r),
    ensures
        r.1 == CheckerAction::ReadInstanceCounter,
        r.0.phase is AwaitTopCounter,
{
}

} // verus!
