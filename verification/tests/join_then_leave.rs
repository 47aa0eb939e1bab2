use rs_voice_controller::connect::{begin_connect, ConnectAction, ConnectEvent, StartChannelCache};
use rs_voice_controller::disconnect::{begin_disconnect, DisconnectAction, DisconnectEvent};
use rs_voice_controller::models::{User, VoiceInfo};
use rs_voice_controller::voice::{Begin, Config, Fetched, MemberInfo, VoiceStateInfo};

fn member() -> MemberInfo {
    MemberInfo { user_id: 4242, name: "bob".to_string(), global_name: None, deaf: false, mute: false }
}

#[test]
fn creator_is_owner_on_leave() {
    let config = Config { guild_id: 1, voice_id: 2 };
    let joined = VoiceStateInfo { member: Some(member()), channel_id: Some(2), guild_id: Some(1) };
    let (m, _) = match begin_connect(joined, config) {
        Begin::Running(m, a) => (m, a),
        Begin::Finished(_) => panic!("the join should run"),
    };
    let (m, _) = m.step(ConnectEvent::GuildFetched { ok: true });
    let (m, _) = m.step(ConnectEvent::ParentSource { configured: None, cache: StartChannelCache::InCategory(3) });
    let (m, _) = m.step(ConnectEvent::UserInfo(Fetched::Got(User { id: "4242".to_string(), return_to_owned_channel: false })));
    let (m, _) = m.step(ConnectEvent::OwnedChannel(Fetched::Got(None)));
    let (m, _) = m.step(ConnectEvent::ChannelCreated(Some(98765)));
    let (_, a) = m.step(ConnectEvent::Completed { ok: true });
    let row = match a {
        ConnectAction::InsertRecord { voice_id, owner_id } => VoiceInfo { voice_id, owner_id },
        _ => panic!("expected the row insert"),
    };

    let left = VoiceStateInfo { member: Some(member()), channel_id: Some(98765), guild_id: Some(1) };
    let (m, _) = match begin_disconnect(left, config) {
        Begin::Running(m, a) => (m, a),
        Begin::Finished(_) => panic!("the leave should run"),
    };
    let (m, a) = m.step(DisconnectEvent::GuildFetched { ok: true });
    match &a {
        DisconnectAction::FetchChannelRecord { voice_id } => assert_eq!(voice_id, &row.voice_id),
        _ => panic!("expected the row read"),
    }
    let (_, a) = m.step(DisconnectEvent::ChannelRecord(Fetched::Got(Some(row))));
    assert!(matches!(a, DisconnectAction::ReadVoiceStates { guild: 1 }));
}
