use rs_voice_controller::connect::{begin_connect, ConnectAction, ConnectEvent, ConnectMachine, StartChannelCache};
use rs_voice_controller::models::{User, VoiceInfo};
use rs_voice_controller::permissions::{owner_deny, owner_grant};
use rs_voice_controller::voice::{
    AbortReason, Begin, ChannelKind, Config, Fetched, Invalid, MemberInfo, Outcome, VoiceEntry, VoiceStateInfo,
};

const GUILD: u64 = 100;
const START: u64 = 200;
const CATEGORY: u64 = 300;
const MEMBER: u64 = 42;

fn config() -> Config {
    Config { guild_id: GUILD, voice_id: START }
}

fn member(global: Option<&str>) -> MemberInfo {
    MemberInfo {
        user_id: MEMBER,
        name: "alice".to_string(),
        global_name: global.map(|g| g.to_string()),
        deaf: false,
        mute: false,
    }
}

fn joining(channel: Option<u64>) -> VoiceStateInfo {
    VoiceStateInfo { member: Some(member(Some("Alice"))), channel_id: channel, guild_id: Some(GUILD) }
}

fn user(return_to_owned_channel: bool) -> User {
    User { id: MEMBER.to_string(), return_to_owned_channel }
}

fn running(state: VoiceStateInfo) -> (ConnectMachine, ConnectAction) {
    match begin_connect(state, config()) {
        Begin::Running(m, a) => (m, a),
        Begin::Finished(_) => panic!("the run should start"),
    }
}

fn step(m: ConnectMachine, e: ConnectEvent) -> (ConnectMachine, ConnectAction) {
    assert!(m.accepts(&e));
    m.step(e)
}

/// Runs up to the question about the member's own channel.
fn up_to_owned_channel(configured: Option<&str>) -> ConnectMachine {
    let (m, a) = running(joining(Some(START)));
    assert!(matches!(a, ConnectAction::FetchGuild { guild: GUILD }));
    let (m, a) = step(m, ConnectEvent::GuildFetched { ok: true });
    assert!(matches!(a, ConnectAction::ReadParentSource { guild: GUILD, start_channel: START }));
    let (m, a) = step(m, ConnectEvent::ParentSource {
        configured: configured.map(|s| s.to_string()),
        cache: StartChannelCache::InCategory(CATEGORY),
    });
    match a {
        ConnectAction::FetchUserInfo { user_id } => assert_eq!(user_id, "42"),
        _ => panic!("expected the settings read"),
    }
    let (m, a) = step(m, ConnectEvent::UserInfo(Fetched::Got(user(false))));
    assert!(matches!(a, ConnectAction::FetchOwnedChannel { owner_number: 42 }));
    m
}

fn expect_create(a: ConnectAction, category: u64) {
    match a {
        ConnectAction::CreateChannel { guild, name, kind, category: c, owner, grant, deny, reason } => {
            assert_eq!(guild, GUILD);
            assert_eq!(kind, ChannelKind::Voice);
            assert_eq!(deny, owner_deny());
            assert!(!deny.manage_channels && !deny.move_members && !deny.mute_members && !deny.deafen_members);
            assert_eq!(name, "Alice's channel");
            assert_eq!(c, category);
            assert_eq!(owner, MEMBER);
            assert_eq!(grant, owner_grant());
            assert_eq!(reason, "User Alice created voice chat");
        }
        _ => panic!("expected a channel creation"),
    }
}

fn expect_finish(a: ConnectAction, o: Outcome) {
    match a {
        ConnectAction::Finish(x) => assert_eq!(x, o),
        _ => panic!("expected the end"),
    }
}

#[test]
fn join_creates_owned_channel() {
    let m = up_to_owned_channel(None);
    let (m, a) = step(m, ConnectEvent::OwnedChannel(Fetched::Got(None)));
    expect_create(a, CATEGORY);
    let (m, a) = step(m, ConnectEvent::ChannelCreated(Some(777)));
    assert!(matches!(a, ConnectAction::MoveMember { channel: 777 }));
    let (m, a) = step(m, ConnectEvent::Completed { ok: true });
    match a {
        ConnectAction::InsertRecord { voice_id, owner_id } => {
            assert_eq!(voice_id, "777");
            assert_eq!(owner_id, "42");
        }
        _ => panic!("expected the row insert"),
    }
    let (m, a) = step(m, ConnectEvent::Completed { ok: true });
    expect_finish(a, Outcome::Done);
    assert!(!m.accepts(&ConnectEvent::Completed { ok: true }));
}

#[test]
fn configured_parent_overrides_the_start_category() {
    let m = up_to_owned_channel(Some("555"));
    let (_, a) = step(m, ConnectEvent::OwnedChannel(Fetched::Got(None)));
    expect_create(a, 555);
}

#[test]
fn unparsable_configured_parent_aborts() {
    let (m, _) = running(joining(Some(START)));
    let (m, _) = step(m, ConnectEvent::GuildFetched { ok: true });
    let (_, a) = step(m, ConnectEvent::ParentSource {
        configured: Some("abc".to_string()),
        cache: StartChannelCache::InCategory(CATEGORY),
    });
    expect_finish(a, Outcome::Abort(AbortReason::ParentIdNotNumeric));
}

#[test]
fn uncached_guild_ends_even_with_configured_parent() {
    let (m, _) = running(joining(Some(START)));
    let (m, _) = step(m, ConnectEvent::GuildFetched { ok: true });
    let (_, a) = step(m, ConnectEvent::ParentSource {
        configured: Some("555".to_string()),
        cache: StartChannelCache::GuildNotCached,
    });
    expect_finish(a, Outcome::Done);
}

#[test]
fn start_channel_problems_abort() {
    for (cache, reason) in [
        (StartChannelCache::ChannelNotCached, AbortReason::StartChannelNotFound),
        (StartChannelCache::NoCategory, AbortReason::StartChannelWithoutCategory),
    ] {
        let (m, _) = running(joining(Some(START)));
        let (m, _) = step(m, ConnectEvent::GuildFetched { ok: true });
        let (_, a) = step(m, ConnectEvent::ParentSource { configured: None, cache });
        expect_finish(a, Outcome::Abort(reason));
    }
}

#[test]
fn join_elsewhere_changes_nothing() {
    let (m, _) = running(joining(Some(999)));
    let (m, _) = step(m, ConnectEvent::GuildFetched { ok: true });
    let (m, _) = step(m, ConnectEvent::ParentSource { configured: None, cache: StartChannelCache::InCategory(CATEGORY) });
    let (_, a) = step(m, ConnectEvent::UserInfo(Fetched::Got(user(false))));
    expect_finish(a, Outcome::Done);
}

#[test]
fn missing_member_or_guild_ends_at_once() {
    let state = VoiceStateInfo { member: None, channel_id: Some(START), guild_id: Some(GUILD) };
    assert!(matches!(begin_connect(state, config()), Begin::Finished(Outcome::Done)));
    let state = VoiceStateInfo { member: Some(member(None)), channel_id: Some(START), guild_id: None };
    assert!(matches!(begin_connect(state, config()), Begin::Finished(Outcome::Done)));
}

#[test]
fn other_guild_or_failed_fetch() {
    let state = VoiceStateInfo { member: Some(member(None)), channel_id: Some(START), guild_id: Some(GUILD + 1) };
    let (m, _) = running(state);
    let (_, a) = step(m, ConnectEvent::GuildFetched { ok: true });
    expect_finish(a, Outcome::Done);
    let (m, _) = running(joining(Some(START)));
    let (_, a) = step(m, ConnectEvent::GuildFetched { ok: false });
    expect_finish(a, Outcome::Failed);
}

#[test]
fn user_name_shown_without_global_name() {
    let state = VoiceStateInfo { member: Some(member(None)), channel_id: Some(START), guild_id: Some(GUILD) };
    let (m, _) = running(state);
    let (m, _) = step(m, ConnectEvent::GuildFetched { ok: true });
    let (m, _) = step(m, ConnectEvent::ParentSource { configured: None, cache: StartChannelCache::InCategory(CATEGORY) });
    let (m, _) = step(m, ConnectEvent::UserInfo(Fetched::Got(user(false))));
    let (_, a) = step(m, ConnectEvent::OwnedChannel(Fetched::Got(None)));
    match a {
        ConnectAction::CreateChannel { name, reason, .. } => {
            assert_eq!(name, "alice's channel");
            assert_eq!(reason, "User alice created voice chat");
        }
        _ => panic!("expected a channel creation"),
    }
}

fn owned(voice_id: &str) -> VoiceInfo {
    VoiceInfo { voice_id: voice_id.to_string(), owner_id: "42".to_string() }
}

#[test]
fn rejoin_returns_to_empty_owned_channel() {
    let m = up_to_owned_channel(None);
    let (m, a) = step(m, ConnectEvent::OwnedChannel(Fetched::Got(Some(owned("888")))));
    assert!(matches!(a, ConnectAction::ReadGuildChannels { guild: GUILD }));
    let (m, a) = step(m, ConnectEvent::GuildChannels(Some(vec![1, 888, 3])));
    assert!(matches!(a, ConnectAction::ReadVoiceStates { guild: GUILD }));
    let states = vec![VoiceEntry { user_id: 7, channel_id: Some(5) }];
    let (m, a) = step(m, ConnectEvent::VoiceStates(Some(states)));
    assert!(matches!(a, ConnectAction::MoveMember { channel: 888 }));
    let (_, a) = step(m, ConnectEvent::Completed { ok: true });
    expect_finish(a, Outcome::Done);
}

#[test]
fn owned_channel_gone_creates_a_new_one() {
    let m = up_to_owned_channel(None);
    let (m, _) = step(m, ConnectEvent::OwnedChannel(Fetched::Got(Some(owned("888")))));
    let (_, a) = step(m, ConnectEvent::GuildChannels(Some(vec![1, 3])));
    expect_create(a, CATEGORY);
}

#[test]
fn occupied_owned_channel_is_handed_on_then_a_new_one_is_created() {
    let m = up_to_owned_channel(None);
    let (m, _) = step(m, ConnectEvent::OwnedChannel(Fetched::Got(Some(owned("888")))));
    let (m, _) = step(m, ConnectEvent::GuildChannels(Some(vec![888])));
    let states = vec![
        VoiceEntry { user_id: 7, channel_id: Some(888) },
        VoiceEntry { user_id: 8, channel_id: Some(888) },
        VoiceEntry { user_id: 9, channel_id: Some(5) },
    ];
    let (m, a) = step(m, ConnectEvent::VoiceStates(Some(states)));
    let chosen = match a {
        ConnectAction::TransferOwnership { channel, new_owner } => {
            assert_eq!(channel, 888);
            assert!(new_owner == 7 || new_owner == 8);
            new_owner
        }
        _ => panic!("expected an ownership transfer"),
    };
    let (m, a) = step(m, ConnectEvent::Completed { ok: true });
    match a {
        ConnectAction::UpdateOwnerRecord { record, owner_id } => {
            assert_eq!(record.voice_id, "888");
            assert_eq!(owner_id, chosen.to_string());
        }
        _ => panic!("expected the owner update"),
    }
    let (_, a) = step(m, ConnectEvent::Completed { ok: true });
    expect_create(a, CATEGORY);
}

#[test]
fn return_setting_moves_back_then_creates() {
    let (m, _) = running(joining(Some(START)));
    let (m, _) = step(m, ConnectEvent::GuildFetched { ok: true });
    let (m, _) = step(m, ConnectEvent::ParentSource { configured: None, cache: StartChannelCache::InCategory(CATEGORY) });
    let (m, _) = step(m, ConnectEvent::UserInfo(Fetched::Got(user(true))));
    let (m, _) = step(m, ConnectEvent::OwnedChannel(Fetched::Got(Some(owned("888")))));
    let (m, _) = step(m, ConnectEvent::GuildChannels(Some(vec![888])));
    let states = vec![VoiceEntry { user_id: 7, channel_id: Some(888) }];
    let (m, a) = step(m, ConnectEvent::VoiceStates(Some(states)));
    assert!(matches!(a, ConnectAction::MoveMember { channel: 888 }));
    let (_, a) = step(m, ConnectEvent::Completed { ok: true });
    expect_create(a, CATEGORY);
}

#[test]
fn bad_stored_channel_ids() {
    let m = up_to_owned_channel(None);
    let (m, _) = step(m, ConnectEvent::OwnedChannel(Fetched::Got(Some(owned("x1")))));
    let (_, a) = step(m, ConnectEvent::GuildChannels(Some(vec![1])));
    expect_finish(a, Outcome::Invalid(Invalid::ChannelIdNotNumeric));

    let m = up_to_owned_channel(None);
    let (m, _) = step(m, ConnectEvent::OwnedChannel(Fetched::Got(Some(owned("0")))));
    let (_, a) = step(m, ConnectEvent::GuildChannels(Some(vec![1])));
    expect_finish(a, Outcome::Abort(AbortReason::ZeroChannelId));
}

#[test]
fn failures_propagate_or_abort() {
    let m = up_to_owned_channel(None);
    let (_, a) = step(m, ConnectEvent::OwnedChannel(Fetched::Failed));
    expect_finish(a, Outcome::Failed);

    let m = up_to_owned_channel(None);
    let (m, _) = step(m, ConnectEvent::OwnedChannel(Fetched::Got(None)));
    let (_, a) = step(m, ConnectEvent::ChannelCreated(None));
    expect_finish(a, Outcome::Failed);

    let m = up_to_owned_channel(None);
    let (m, _) = step(m, ConnectEvent::OwnedChannel(Fetched::Got(None)));
    let (m, _) = step(m, ConnectEvent::ChannelCreated(Some(5)));
    let (m, _) = step(m, ConnectEvent::Completed { ok: true });
    let (_, a) = step(m, ConnectEvent::Completed { ok: false });
    expect_finish(a, Outcome::Abort(AbortReason::DatabaseFailed));
}

#[test]
fn wrong_report_is_not_accepted() {
    let (m, _) = running(joining(Some(START)));
    assert!(!m.accepts(&ConnectEvent::Completed { ok: true }));
    assert!(m.accepts(&ConnectEvent::GuildFetched { ok: true }));
}
