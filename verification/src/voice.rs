//! What the handlers know of a voice-state change, how a change is routed,
//! and the helpers that read the guild's voice states.

use vstd::prelude::*;
use crate::text::{decimal, u64_to_string};

verus! {

/// The channel id that an absent channel stands for when two channels are
/// compared (the default of a Discord id, the smallest non-zero one).
pub const DEFAULT_CHANNEL_ID: u64 = 1;

/// The bot's settings: the guild it serves and its start channel, the voice
/// channel whose joiners get a channel of their own.
#[derive(Clone, Copy, Debug, PartialEq, Eq, Structural)]
pub struct Config {
    pub guild_id: u64,
    pub voice_id: u64,
}

/// The kind of channel the bot creates.
#[derive(Clone, Copy, Debug, PartialEq, Eq, Structural)]
pub enum ChannelKind {
    /// A voice channel.
    Voice,
}

/// A guild member as a voice state reports them.
pub struct MemberInfo {
    pub user_id: u64,
    pub name: String,
    pub global_name: Option<String>,
    pub deaf: bool,
    pub mute: bool,
}

impl MemberInfo {
    /// The name shown for the member: the global name where there is one,
    /// else the user name.
    pub open spec fn display_name_spec(&self) -> Seq<char> {
        match self.global_name {
            Some(g) => g@,
            None => self.name@,
        }
    }

    /// The name shown for the member.
    pub fn display_name(&self) -> (r: &String)
        ensures
            r@ == self.display_name_spec(),
    {
        match &self.global_name {
            Some(g) => g,
            None => &self.name,
        }
    }
}

/// A member's voice state: who, in which channel, in which guild.
pub struct VoiceStateInfo {
    pub member: Option<MemberInfo>,
    pub channel_id: Option<u64>,
    pub guild_id: Option<u64>,
}

/// One entry of a guild's voice states in the cache: a user and the channel
/// they are in, if any.
#[derive(Clone, Copy, Debug, PartialEq, Eq, Structural)]
pub struct VoiceEntry {
    pub user_id: u64,
    pub channel_id: Option<u64>,
}

/// A read of the database: failed, or what it gave.
pub enum Fetched<T> {
    Failed,
    Got(T),
}

/// Why a handler gives up with an error of its own.
#[derive(Clone, Copy, Debug, PartialEq, Eq, Structural)]
pub enum Invalid {
    /// A stored channel id is not a number.
    ChannelIdNotNumeric,
}

/// Why a handler aborts the program.
#[derive(Clone, Copy, Debug, PartialEq, Eq, Structural)]
pub enum AbortReason {
    /// The voice state carries no member.
    MissingMember,
    /// The voice state carries no guild.
    MissingGuild,
    /// The voice state carries no channel.
    MissingChannel,
    /// The start channel is not among the guild's channels.
    StartChannelNotFound,
    /// The start channel belongs to no category.
    StartChannelWithoutCategory,
    /// The configured parent category is not a number.
    ParentIdNotNumeric,
    /// A stored channel id is not a number.
    ChannelIdNotNumeric,
    /// A stored owner id is not a number.
    OwnerIdNotNumeric,
    /// A stored channel id is zero, which no Discord id is.
    ZeroChannelId,
    /// The channel of a voice state is not a guild channel.
    NotAGuildChannel,
    /// The members of a channel could not be read from the cache.
    MembersUnavailable,
    /// A database read or write that must succeed failed.
    DatabaseFailed,
}

/// How a handler ends.
#[derive(Clone, Copy, Debug, PartialEq, Eq, Structural)]
pub enum Outcome {
    /// It returns normally.
    Done,
    /// It returns the error of the operation that failed last.
    Failed,
    /// It returns an error of its own.
    Invalid(Invalid),
    /// The program aborts.
    Abort(AbortReason),
}

/// How a handler starts: it ends at once, or runs a machine that asks for a
/// first operation.
pub enum Begin<M, A> {
    Finished(Outcome),
    Running(M, A),
}

/// Which handlers a voice-state change runs: the one for the channel left,
/// then the one for the channel joined.
#[derive(Clone, Copy, Debug, PartialEq, Eq, Structural)]
pub struct VoiceRoute {
    pub disconnect: bool,
    pub connect: bool,
}

/// The channel of an optional voice state, `None` when there is no state.
pub open spec fn old_channel(old: Option<&VoiceStateInfo>) -> Option<u64> {
    match old {
        Some(s) => s.channel_id,
        None => None,
    }
}

/// Whether a change keeps the member where they were: the old channel is
/// the new one (an absent new channel counting as the default id).
pub open spec fn stays_in_channel(old: Option<&VoiceStateInfo>, new: &VoiceStateInfo) -> bool {
    old_channel(old) matches Some(c) && c == new.channel_id.unwrap_or(DEFAULT_CHANNEL_ID)
}

/// The route of a voice-state change: nothing when the member stays in
/// their channel; otherwise the channel left (if any) is handled, then the
/// channel joined (if any).
pub open spec fn routes(old: Option<&VoiceStateInfo>, new: &VoiceStateInfo, r: VoiceRoute) -> bool {
    &&& r.disconnect == (!stays_in_channel(old, new) && old_channel(old) is Some)
    &&& r.connect == (!stays_in_channel(old, new) && new.channel_id is Some)
}

/// Routes a voice-state change.
pub fn route_voice_update(old: Option<&VoiceStateInfo>, new: &VoiceStateInfo) -> (r: VoiceRoute)
    ensures
        routes(old, new, r),
{
    if let Some(o) = old {
        if let Some(cid) = o.channel_id {
            let new_channel = match new.channel_id {
                Some(c) => c,
                None => DEFAULT_CHANNEL_ID,
            };
            if cid == new_channel {
                return VoiceRoute { disconnect: false, connect: false };
            }
        }
    }
    let disconnect = match old {
        Some(o) => o.channel_id.is_some(),
        None => false,
    };
    VoiceRoute { disconnect, connect: new.channel_id.is_some() }
}

/// Moving from one channel to another runs both handlers: the one for the
/// channel left and the one for the channel joined.
pub proof fn law_moving_runs_both_handlers(old: Option<&VoiceStateInfo>, new: &VoiceStateInfo, r: VoiceRoute, left: u64, joined: u64)
    requires
        routes(old, new, r),
        old_channel(old) == Some(left),
        new.channel_id == Some(joined),
        left != joined,
    ensures
        r.disconnect,
        r.connect,
{
}

/// Staying in the same channel (a mute toggle, say) runs no handler.
pub proof fn law_staying_runs_no_handler(old: Option<&VoiceStateInfo>, new: &VoiceStateInfo, r: VoiceRoute, channel: u64)
    requires
        routes(old, new, r),
        old_channel(old) == Some(channel),
        new.channel_id == Some(channel),
    ensures
        !r.disconnect,
        !r.connect,
{
}

/// Leaving voice altogether runs only the handler for the channel left,
/// unless that channel has the default id, which an absent channel stands
/// for.
pub proof fn law_leaving_voice_runs_the_leave_handler(old: Option<&VoiceStateInfo>, new: &VoiceStateInfo, r: VoiceRoute, left: u64)
    requires
        routes(old, new, r),
        old_channel(old) == Some(left),
        new.channel_id is None,
    ensures
        r.disconnect == (left != DEFAULT_CHANNEL_ID),
        !r.connect,
{
}

/// Without an old channel, only the join handler can run, and it runs
/// exactly when there is a new channel.
pub proof fn law_first_join_runs_only_the_join_handler(old: Option<&VoiceStateInfo>, new: &VoiceStateInfo, r: VoiceRoute)
    requires
        routes(old, new, r),
        old_channel(old) is None,
    ensures
        !r.disconnect,
        r.connect == (new.channel_id is Some),
{
}

/// The users, in order, whose voice-state channel satisfies `pred`.
pub open spec fn users_where(states: Seq<VoiceEntry>, pred: spec_fn(Option<u64>) -> bool) -> Seq<u64>
    decreases states.len(),
{
    if states.len() == 0 {
        Seq::empty()
    } else {
        let rest = users_where(states.drop_last(), pred);
        if pred(states.last().channel_id) {
            rest.push(states.last().user_id)
        } else {
            rest
        }
    }
}

/// A channel that is `channel`.
pub open spec fn is_channel(channel: u64) -> spec_fn(Option<u64>) -> bool {
    |c: Option<u64>| c == Some(channel)
}

/// A channel whose decimal id is the text `id`.
pub open spec fn has_id_text(id: Seq<char>) -> spec_fn(Option<u64>) -> bool {
    |c: Option<u64>| c matches Some(x) && decimal(x as nat) == id
}

/// Every user of `users_where` comes from an entry that satisfies `pred`.
pub proof fn lemma_users_where_sound(states: Seq<VoiceEntry>, pred: spec_fn(Option<u64>) -> bool, u: u64)
    requires
        users_where(states, pred).contains(u),
    ensures
        exists|i: int| 0 <= i < states.len() && states[i].user_id == u && pred(#[trigger] states[i].channel_id),
    decreases states.len(),
{
    if states.len() > 0 {
        let rest = users_where(states.drop_last(), pred);
        if rest.contains(u) {
            lemma_users_where_sound(states.drop_last(), pred, u);
            let i = choose|i: int| 0 <= i < states.drop_last().len() && states.drop_last()[i].user_id == u
                && pred(#[trigger] states.drop_last()[i].channel_id);
            assert(states[i] == states.drop_last()[i]);
        } else {
            let k = states.len() - 1;
            assert(states[k] == states.last());
        }
    }
}

/// The user of every entry that satisfies `pred` is among `users_where`.
pub proof fn lemma_users_where_complete(states: Seq<VoiceEntry>, pred: spec_fn(Option<u64>) -> bool, i: int)
    requires
        0 <= i < states.len(),
        pred(states[i].channel_id),
    ensures
        users_where(states, pred).contains(states[i].user_id),
    decreases states.len(),
{
    let rest = users_where(states.drop_last(), pred);
    if i < states.len() - 1 {
        assert(states.drop_last()[i] == states[i]);
        lemma_users_where_complete(states.drop_last(), pred, i);
        let k = choose|k: int| 0 <= k < rest.len() && rest[k] == states[i].user_id;
        let full = users_where(states, pred);
        if pred(states.last().channel_id) {
            assert(full[k] == rest[k]);
        }
        assert(full[k] == states[i].user_id);
    } else {
        let full = users_where(states, pred);
        assert(states.last() == states[i]);
        assert(full[full.len() - 1] == states[i].user_id);
    }
}

/// The users in channel `channel`, in the order of `states`.
pub fn users_in_channel(states: &Vec<VoiceEntry>, channel: u64) -> (r: Vec<u64>)
    ensures
        r@ == users_where(states@, is_channel(channel)),
{
    let mut r: Vec<u64> = Vec::new();
    let n = states.len();
    for i in 0..n
        invariant
            n == states.len(),
            r@ == users_where(states@.take(i as int), is_channel(channel)),
    {
        assert(states@.take(i + 1).drop_last() =~= states@.take(i as int));
        let e = states[i];
        if e.channel_id == Some(channel) {
            r.push(e.user_id);
        }
    }
    assert(states@.take(n as int) =~= states@);
    r
}

/// The users in the channel whose decimal id is the text `id`, in the order
/// of `states`.
pub fn users_in_channel_text(states: &Vec<VoiceEntry>, id: &String) -> (r: Vec<u64>)
    ensures
        r@ == users_where(states@, has_id_text(id@)),
{
    let mut r: Vec<u64> = Vec::new();
    let n = states.len();
    for i in 0..n
        invariant
            n == states.len(),
            r@ == users_where(states@.take(i as int), has_id_text(id@)),
    {
        assert(states@.take(i + 1).drop_last() =~= states@.take(i as int));
        let e = states[i];
        if let Some(c) = e.channel_id {
            let text = u64_to_string(c);
            if text == *id {
                r.push(e.user_id);
            }
        }
    }
    assert(states@.take(n as int) =~= states@);
    r
}

/// Whether `ids` holds `id`.
pub fn contains_id(ids: &Vec<u64>, id: u64) -> (r: bool)
    ensures
        r == ids@.contains(id),
{
    let n = ids.len();
    for i in 0..n
        invariant
            n == ids.len(),
            forall|j: int| 0 <= j < i ==> ids@[j] != id,
    {
        if ids[i] == id {
            return true;
        }
    }
    false
}

} // verus!
