use rs_voice_controller::disconnect::{begin_disconnect, DisconnectAction, DisconnectEvent, DisconnectMachine};
use rs_voice_controller::models::VoiceInfo;
use rs_voice_controller::voice::{AbortReason, Begin, Config, Fetched, MemberInfo, Outcome, VoiceEntry, VoiceStateInfo};

const GUILD: u64 = 100;
const START: u64 = 200;
const LEFT: u64 = 888;

fn member(deaf: bool, mute: bool) -> MemberInfo {
    MemberInfo { user_id: 42, name: "alice".to_string(), global_name: None, deaf, mute }
}

fn leaving(deaf: bool, mute: bool) -> (DisconnectMachine, DisconnectAction) {
    let state = VoiceStateInfo { member: Some(member(deaf, mute)), channel_id: Some(LEFT), guild_id: Some(GUILD) };
    match begin_disconnect(state, Config { guild_id: GUILD, voice_id: START }) {
        Begin::Running(m, a) => (m, a),
        Begin::Finished(_) => panic!("the run should start"),
    }
}

fn step(m: DisconnectMachine, e: DisconnectEvent) -> (DisconnectMachine, DisconnectAction) {
    assert!(m.accepts(&e));
    m.step(e)
}

fn record(owner: &str) -> VoiceInfo {
    VoiceInfo { voice_id: LEFT.to_string(), owner_id: owner.to_string() }
}

fn up_to_record(deaf: bool, mute: bool) -> DisconnectMachine {
    let (m, a) = leaving(deaf, mute);
    assert!(matches!(a, DisconnectAction::FetchGuild { guild: GUILD }));
    let (m, a) = step(m, DisconnectEvent::GuildFetched { ok: true });
    match a {
        DisconnectAction::FetchChannelRecord { voice_id } => assert_eq!(voice_id, "888"),
        _ => panic!("expected the row read"),
    }
    m
}

fn expect_finish(a: DisconnectAction, o: Outcome) {
    match a {
        DisconnectAction::Finish(x) => assert_eq!(x, o),
        _ => panic!("expected the end"),
    }
}

#[test]
fn owner_leaving_empty_channel_deletes_it() {
    let m = up_to_record(false, false);
    let (m, a) = step(m, DisconnectEvent::ChannelRecord(Fetched::Got(Some(record("42")))));
    assert!(matches!(a, DisconnectAction::ReadVoiceStates { guild: GUILD }));
    let states = vec![VoiceEntry { user_id: 7, channel_id: Some(5) }];
    let (m, a) = step(m, DisconnectEvent::VoiceStates(Some(states)));
    assert!(matches!(a, DisconnectAction::DeleteChannel { channel: LEFT }));
    let (m, a) = step(m, DisconnectEvent::Completed { ok: true });
    match a {
        DisconnectAction::DeleteRecord { record } => assert_eq!(record.voice_id, "888"),
        _ => panic!("expected the row deletion"),
    }
    let (_, a) = step(m, DisconnectEvent::Completed { ok: true });
    expect_finish(a, Outcome::Done);
}

#[test]
fn owner_leaving_hands_channel_on() {
    let m = up_to_record(false, false);
    let (m, _) = step(m, DisconnectEvent::ChannelRecord(Fetched::Got(Some(record("42")))));
    let states = vec![
        VoiceEntry { user_id: 7, channel_id: Some(LEFT) },
        VoiceEntry { user_id: 9, channel_id: Some(5) },
    ];
    let (m, a) = step(m, DisconnectEvent::VoiceStates(Some(states)));
    assert!(matches!(a, DisconnectAction::TransferOwnership { channel: LEFT, new_owner: 7 }));
    let (m, a) = step(m, DisconnectEvent::Completed { ok: true });
    match a {
        DisconnectAction::UpdateOwnerRecord { owner_id, .. } => assert_eq!(owner_id, "7"),
        _ => panic!("expected the owner update"),
    }
    let (_, a) = step(m, DisconnectEvent::Completed { ok: true });
    expect_finish(a, Outcome::Done);
}

#[test]
fn muted_owner_gets_voice_back_after_handover() {
    let m = up_to_record(false, true);
    let (m, _) = step(m, DisconnectEvent::ChannelRecord(Fetched::Got(Some(record("42")))));
    let states = vec![VoiceEntry { user_id: 7, channel_id: Some(LEFT) }];
    let (m, _) = step(m, DisconnectEvent::VoiceStates(Some(states)));
    let (m, _) = step(m, DisconnectEvent::Completed { ok: true });
    let (m, a) = step(m, DisconnectEvent::Completed { ok: true });
    assert!(matches!(a, DisconnectAction::RestoreVoice));
    let (_, a) = step(m, DisconnectEvent::Completed { ok: true });
    expect_finish(a, Outcome::Done);
}

#[test]
fn non_owner_leaving_changes_nothing() {
    let m = up_to_record(true, true);
    let (_, a) = step(m, DisconnectEvent::ChannelRecord(Fetched::Got(Some(record("43")))));
    expect_finish(a, Outcome::Done);
}

#[test]
fn leaving_an_ordinary_channel_restores_a_deafened_member() {
    let m = up_to_record(true, false);
    let (m, a) = step(m, DisconnectEvent::ChannelRecord(Fetched::Got(None)));
    assert!(matches!(a, DisconnectAction::RestoreVoice));
    let (_, a) = step(m, DisconnectEvent::Completed { ok: false });
    expect_finish(a, Outcome::Failed);

    let m = up_to_record(false, false);
    let (_, a) = step(m, DisconnectEvent::ChannelRecord(Fetched::Got(None)));
    expect_finish(a, Outcome::Done);
}

#[test]
fn missing_member_or_guild_aborts() {
    let config = Config { guild_id: GUILD, voice_id: START };
    let state = VoiceStateInfo { member: None, channel_id: Some(LEFT), guild_id: Some(GUILD) };
    assert!(matches!(begin_disconnect(state, config), Begin::Finished(Outcome::Abort(AbortReason::MissingMember))));
    let state = VoiceStateInfo { member: Some(member(false, false)), channel_id: Some(LEFT), guild_id: None };
    assert!(matches!(begin_disconnect(state, config), Begin::Finished(Outcome::Abort(AbortReason::MissingGuild))));
}

#[test]
fn failed_owner_update_aborts() {
    let m = up_to_record(false, false);
    let (m, _) = step(m, DisconnectEvent::ChannelRecord(Fetched::Got(Some(record("42")))));
    let states = vec![VoiceEntry { user_id: 7, channel_id: Some(LEFT) }];
    let (m, _) = step(m, DisconnectEvent::VoiceStates(Some(states)));
    let (m, _) = step(m, DisconnectEvent::Completed { ok: true });
    let (_, a) = step(m, DisconnectEvent::Completed { ok: false });
    expect_finish(a, Outcome::Abort(AbortReason::DatabaseFailed));
}

#[test]
fn uncached_guild_ends() {
    let m = up_to_record(false, false);
    let (m, _) = step(m, DisconnectEvent::ChannelRecord(Fetched::Got(Some(record("42")))));
    let (_, a) = step(m, DisconnectEvent::VoiceStates(None));
    expect_finish(a, Outcome::Done);
}
