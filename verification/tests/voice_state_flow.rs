use rs_voice_controller::models::VoicesInfo;
use rs_voice_controller::voice::{AbortReason, Begin, ChannelKind, Config, Fetched, MemberInfo, Outcome, VoiceStateInfo};
use rs_voice_controller::voice_state::{
    begin_voice_state, ChannelMembersRead, StartChannelFetch, VoiceStateAction, VoiceStateEvent, VoiceStateMachine,
};

const GUILD: u64 = 100;
const START: u64 = 200;
const CATEGORY: u64 = 300;

fn member() -> MemberInfo {
    MemberInfo { user_id: 42, name: "alice".to_string(), global_name: Some("Alice".to_string()), deaf: false, mute: false }
}

fn state(channel: Option<u64>) -> VoiceStateInfo {
    VoiceStateInfo { member: Some(member()), channel_id: channel, guild_id: Some(GUILD) }
}

fn step(m: VoiceStateMachine, e: VoiceStateEvent) -> (VoiceStateMachine, VoiceStateAction) {
    assert!(m.accepts(&e));
    m.step(e)
}

fn up_to_parent(old: Option<VoiceStateInfo>, new: VoiceStateInfo) -> (VoiceStateMachine, VoiceStateAction) {
    let (m, a) = match begin_voice_state(old, new, Config { guild_id: GUILD, voice_id: START }) {
        Begin::Running(m, a) => (m, a),
        Begin::Finished(_) => panic!("the run should start"),
    };
    assert!(matches!(a, VoiceStateAction::FetchGuild { guild: GUILD }));
    let (m, a) = step(m, VoiceStateEvent::GuildFetched(Some(GUILD)));
    assert!(matches!(a, VoiceStateAction::ReadParentSource { guild: GUILD, start_channel: START }));
    step(m, VoiceStateEvent::ParentSource { configured: None, start: StartChannelFetch::InCategory(CATEGORY) })
}

fn record(channel: &str, owner: &str) -> VoicesInfo {
    VoicesInfo { id: 1, channel_id: channel.to_string(), owner_id: owner.to_string() }
}

fn expect_finish(a: VoiceStateAction, o: Outcome) {
    match a {
        VoiceStateAction::Finish(x) => assert_eq!(x, o),
        _ => panic!("expected the end"),
    }
}

#[test]
fn joining_start_channel_creates_channel_named_after_user_name() {
    let (m, a) = up_to_parent(None, state(Some(START)));
    match a {
        VoiceStateAction::FetchOwnedRecord { owner_id } => assert_eq!(owner_id, "42"),
        _ => panic!("expected the owned row read"),
    }
    let (m, a) = step(m, VoiceStateEvent::OwnedRecord(Fetched::Got(None)));
    match a {
        VoiceStateAction::CreateChannel { guild, name, kind, category, reason } => {
            assert_eq!(guild, GUILD);
            assert_eq!(kind, ChannelKind::Voice);
            assert_eq!(name, "alice's channel");
            assert_eq!(category, CATEGORY);
            assert_eq!(reason, "User alice created voice chat");
        }
        _ => panic!("expected a channel creation"),
    }
    let (m, a) = step(m, VoiceStateEvent::ChannelCreated(Some(900)));
    assert!(matches!(a, VoiceStateAction::MoveMember { channel: 900 }));
    let (m, a) = step(m, VoiceStateEvent::Completed { ok: false });
    match a {
        VoiceStateAction::InsertRecord { channel_id, owner_id } => {
            assert_eq!(channel_id, "900");
            assert_eq!(owner_id, "42");
        }
        _ => panic!("expected the row insert"),
    }
    let (_, a) = step(m, VoiceStateEvent::Completed { ok: true });
    expect_finish(a, Outcome::Done);
}

#[test]
fn joining_start_channel_returns_to_existing_owned_channel() {
    let (m, _) = up_to_parent(None, state(Some(START)));
    let (m, a) = step(m, VoiceStateEvent::OwnedRecord(Fetched::Got(Some(record("901", "42")))));
    assert!(matches!(a, VoiceStateAction::FetchGuildChannels { guild: GUILD }));
    let (m, a) = step(m, VoiceStateEvent::GuildChannels(Some(vec![901])));
    assert!(matches!(a, VoiceStateAction::MoveMember { channel: 901 }));
    let (_, a) = step(m, VoiceStateEvent::Completed { ok: false });
    expect_finish(a, Outcome::Done);
}

#[test]
fn stale_owned_row_is_dropped_before_creating() {
    let (m, _) = up_to_parent(None, state(Some(START)));
    let (m, _) = step(m, VoiceStateEvent::OwnedRecord(Fetched::Got(Some(record("901", "42")))));
    let (m, a) = step(m, VoiceStateEvent::GuildChannels(Some(vec![5])));
    assert!(matches!(a, VoiceStateAction::DeleteRecord { .. }));
    let (_, a) = step(m, VoiceStateEvent::Completed { ok: true });
    assert!(matches!(a, VoiceStateAction::CreateChannel { .. }));
}

#[test]
fn joining_elsewhere_ends() {
    let (_, a) = up_to_parent(None, state(Some(5)));
    expect_finish(a, Outcome::Done);
}

#[test]
fn owner_leaving_hands_on_or_deletes() {
    let (m, a) = up_to_parent(Some(state(Some(901))), state(None));
    match a {
        VoiceStateAction::FetchChannelRecord { channel_id } => assert_eq!(channel_id, "901"),
        _ => panic!("expected the row read"),
    }
    let (m, a) = step(m, VoiceStateEvent::ChannelRecord(Fetched::Got(Some(record("901", "42")))));
    assert!(matches!(a, VoiceStateAction::ReadChannelMembers { channel: 901 }));
    let (_, a) = step(m, VoiceStateEvent::ChannelMembers(ChannelMembersRead::Members(vec![7])));
    match a {
        VoiceStateAction::UpdateOwnerRecord { owner_id, .. } => assert_eq!(owner_id, "7"),
        _ => panic!("expected the owner update"),
    }

    let (m, _) = up_to_parent(Some(state(Some(901))), state(None));
    let (m, _) = step(m, VoiceStateEvent::ChannelRecord(Fetched::Got(Some(record("901", "42")))));
    let (m, a) = step(m, VoiceStateEvent::ChannelMembers(ChannelMembersRead::Members(vec![])));
    assert!(matches!(a, VoiceStateAction::DeleteChannel { channel: 901 }));
    let (m, a) = step(m, VoiceStateEvent::Completed { ok: false });
    assert!(matches!(a, VoiceStateAction::DeleteRecord { .. }));
    let (_, a) = step(m, VoiceStateEvent::Completed { ok: true });
    expect_finish(a, Outcome::Done);
}

#[test]
fn leaving_start_channel_or_a_foreign_channel_ends() {
    let (_, a) = up_to_parent(Some(state(Some(START))), state(None));
    expect_finish(a, Outcome::Done);
    let (m, _) = up_to_parent(Some(state(Some(901))), state(None));
    let (_, a) = step(m, VoiceStateEvent::ChannelRecord(Fetched::Got(Some(record("901", "43")))));
    expect_finish(a, Outcome::Done);
}

#[test]
fn old_state_without_channel_aborts() {
    let (_, a) = up_to_parent(Some(state(None)), state(Some(START)));
    expect_finish(a, Outcome::Abort(AbortReason::MissingChannel));
}

#[test]
fn unreadable_members_abort() {
    let (m, _) = up_to_parent(Some(state(Some(901))), state(None));
    let (m, _) = step(m, VoiceStateEvent::ChannelRecord(Fetched::Got(Some(record("901", "42")))));
    let (_, a) = step(m, VoiceStateEvent::ChannelMembers(ChannelMembersRead::NotGuildChannel));
    expect_finish(a, Outcome::Abort(AbortReason::NotAGuildChannel));
}

#[test]
fn missing_member_aborts() {
    let new = VoiceStateInfo { member: None, channel_id: Some(START), guild_id: Some(GUILD) };
    let r = begin_voice_state(None, new, Config { guild_id: GUILD, voice_id: START });
    assert!(matches!(r, Begin::Finished(Outcome::Abort(AbortReason::MissingMember))));
}
