use rs_voice_controller::voice::{
    contains_id, route_voice_update, users_in_channel, users_in_channel_text, MemberInfo, VoiceEntry,
    VoiceRoute, VoiceStateInfo,
};

fn state(channel: Option<u64>) -> VoiceStateInfo {
    VoiceStateInfo { member: None, channel_id: channel, guild_id: Some(1) }
}

#[test]
fn staying_in_the_channel_runs_nothing() {
    let r = route_voice_update(Some(&state(Some(5))), &state(Some(5)));
    assert_eq!(r, VoiceRoute { disconnect: false, connect: false });
}

#[test]
fn switching_channels_runs_both() {
    let r = route_voice_update(Some(&state(Some(5))), &state(Some(6)));
    assert_eq!(r, VoiceRoute { disconnect: true, connect: true });
}

#[test]
fn first_join_runs_only_connect() {
    let r = route_voice_update(None, &state(Some(6)));
    assert_eq!(r, VoiceRoute { disconnect: false, connect: true });
    let r = route_voice_update(Some(&state(None)), &state(Some(6)));
    assert_eq!(r, VoiceRoute { disconnect: false, connect: true });
}

#[test]
fn leaving_voice_runs_only_disconnect() {
    let r = route_voice_update(Some(&state(Some(5))), &state(None));
    assert_eq!(r, VoiceRoute { disconnect: true, connect: false });
}

#[test]
fn leaving_channel_one_counts_as_staying() {
    // An absent new channel compares as the default id 1.
    let r = route_voice_update(Some(&state(Some(1))), &state(None));
    assert_eq!(r, VoiceRoute { disconnect: false, connect: false });
}

#[test]
fn no_state_at_all_runs_nothing() {
    let r = route_voice_update(None, &state(None));
    assert_eq!(r, VoiceRoute { disconnect: false, connect: false });
}

#[test]
fn shown_name_prefers_global_name() {
    let m = MemberInfo { user_id: 1, name: "user".to_string(), global_name: Some("Global".to_string()), deaf: false, mute: false };
    assert_eq!(m.display_name(), "Global");
    let m = MemberInfo { user_id: 1, name: "user".to_string(), global_name: None, deaf: false, mute: false };
    assert_eq!(m.display_name(), "user");
}

fn entries() -> Vec<VoiceEntry> {
    vec![
        VoiceEntry { user_id: 1, channel_id: Some(10) },
        VoiceEntry { user_id: 2, channel_id: None },
        VoiceEntry { user_id: 3, channel_id: Some(12) },
        VoiceEntry { user_id: 4, channel_id: Some(10) },
    ]
}

#[test]
fn users_of_a_channel_in_order() {
    assert_eq!(users_in_channel(&entries(), 10), vec![1, 4]);
    assert_eq!(users_in_channel(&entries(), 12), vec![3]);
    assert_eq!(users_in_channel(&entries(), 99), Vec::<u64>::new());
}

#[test]
fn users_of_a_channel_by_text_id() {
    assert_eq!(users_in_channel_text(&entries(), &"10".to_string()), vec![1, 4]);
    // The text must be the exact decimal rendering.
    assert_eq!(users_in_channel_text(&entries(), &"010".to_string()), Vec::<u64>::new());
    assert_eq!(users_in_channel_text(&entries(), &"+10".to_string()), Vec::<u64>::new());
}

#[test]
fn membership_of_ids() {
    assert!(contains_id(&vec![3, 4, 5], 4));
    assert!(!contains_id(&vec![3, 4, 5], 6));
    assert!(!contains_id(&vec![], 6));
}
