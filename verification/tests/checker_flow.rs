use rs_voice_controller::checker::{begin_checker, scan_for_owner, should_stop, CheckerAction, CheckerEvent, CheckerMachine, OwnerScan};
use rs_voice_controller::models::VoiceInfo;
use rs_voice_controller::voice::{AbortReason, Fetched, Outcome};

const GUILD: u64 = 100;

fn step(m: CheckerMachine, e: CheckerEvent) -> (CheckerMachine, CheckerAction) {
    assert!(m.accepts(&e));
    m.step(e)
}

fn row(voice: &str, owner: &str) -> VoiceInfo {
    VoiceInfo { voice_id: voice.to_string(), owner_id: owner.to_string() }
}

#[test]
fn stop_rule() {
    // The first instance (number 0) stops as soon as the counter reads 1.
    assert!(should_stop(1, 0));
    assert!(should_stop(5, 3));
    assert!(!should_stop(u64::MAX, 0));
    assert!(!should_stop(u64::MAX - 3, 3));
    assert!(should_stop(u64::MAX - 4, 3));
}

#[test]
fn owner_scan() {
    assert_eq!(scan_for_owner(&vec![], &"x".to_string()), OwnerScan::Absent);
    assert_eq!(scan_for_owner(&vec![1, 2], &"x".to_string()), OwnerScan::Unreadable);
    assert_eq!(scan_for_owner(&vec![1, 2], &"2".to_string()), OwnerScan::Present);
    assert_eq!(scan_for_owner(&vec![1, 2], &"3".to_string()), OwnerScan::Absent);
}

/// A sweep instance numbered so that it does not stop.
fn running_sweep(guilds: Vec<u64>, rows: Vec<VoiceInfo>) -> (CheckerMachine, CheckerAction) {
    let (m, a) = begin_checker(guilds, GUILD, u64::MAX);
    assert!(matches!(a, CheckerAction::ReadInstanceCounter));
    let (m, a) = step(m, CheckerEvent::Counter(0));
    assert!(matches!(a, CheckerAction::FetchRecords));
    step(m, CheckerEvent::Records(Fetched::Got(rows)))
}

#[test]
fn instance_stops_at_once_when_told() {
    let (m, _) = begin_checker(vec![GUILD], GUILD, 0);
    let (_, a) = step(m, CheckerEvent::Counter(1));
    assert!(matches!(a, CheckerAction::Finish(Outcome::Done)));
}

#[test]
fn empty_round_waits_then_starts_again() {
    let (m, a) = running_sweep(vec![GUILD], vec![]);
    assert!(matches!(a, CheckerAction::Tick));
    let (_, a) = step(m, CheckerEvent::Completed { ok: true });
    assert!(matches!(a, CheckerAction::ReadInstanceCounter));
}

#[test]
fn rows_of_an_unknown_guild_are_dropped() {
    let (m, a) = running_sweep(vec![7], vec![row("5", "1")]);
    assert!(matches!(a, CheckerAction::ReadInstanceCounter));
    let (m, a) = step(m, CheckerEvent::Counter(0));
    match a {
        CheckerAction::DeleteRecord { record } => assert_eq!(record.voice_id, "5"),
        _ => panic!("expected the row deletion"),
    }
    let (_, a) = step(m, CheckerEvent::Completed { ok: true });
    assert!(matches!(a, CheckerAction::Tick));
}

#[test]
fn rows_of_missing_channels_are_dropped() {
    let (m, _) = running_sweep(vec![GUILD], vec![row("5", "1"), row("6", "1")]);
    let (m, a) = step(m, CheckerEvent::Counter(0));
    assert!(matches!(a, CheckerAction::ReadGuildCache { guild: GUILD }));
    let (m, a) = step(m, CheckerEvent::GuildCache(Some(vec![6])));
    match a {
        CheckerAction::DeleteRecord { record } => assert_eq!(record.voice_id, "5"),
        _ => panic!("expected the row deletion"),
    }
    let (m, a) = step(m, CheckerEvent::Completed { ok: true });
    assert!(matches!(a, CheckerAction::ReadInstanceCounter));
    let (m, _) = step(m, CheckerEvent::Counter(0));
    let (_, a) = step(m, CheckerEvent::GuildCache(Some(vec![6])));
    assert!(matches!(a, CheckerAction::ReadChannelMembers { channel: 6 }));
}

#[test]
fn empty_channel_without_owner_is_deleted() {
    let (m, _) = running_sweep(vec![GUILD], vec![row("5", "1")]);
    let (m, _) = step(m, CheckerEvent::Counter(0));
    let (m, _) = step(m, CheckerEvent::GuildCache(Some(vec![5])));
    let (m, a) = step(m, CheckerEvent::Members(Some(vec![])));
    match a {
        CheckerAction::DeleteChannel { channel, reason } => {
            assert_eq!(channel, 5);
            assert_eq!(reason, "No one here :c");
        }
        _ => panic!("expected the channel deletion"),
    }
    let (m, a) = step(m, CheckerEvent::Completed { ok: false });
    assert!(matches!(a, CheckerAction::DeleteRecord { .. }));
    let (_, a) = step(m, CheckerEvent::Completed { ok: false });
    assert!(matches!(a, CheckerAction::Finish(Outcome::Abort(AbortReason::DatabaseFailed))));
}

#[test]
fn owner_gone_from_occupied_channel_keeps_it() {
    let (m, _) = running_sweep(vec![GUILD], vec![row("5", "1")]);
    let (m, _) = step(m, CheckerEvent::Counter(0));
    let (m, _) = step(m, CheckerEvent::GuildCache(Some(vec![5])));
    let (_, a) = step(m, CheckerEvent::Members(Some(vec![2, 3])));
    assert!(matches!(a, CheckerAction::Tick));
}

#[test]
fn owner_present_keeps_channel() {
    let (m, _) = running_sweep(vec![GUILD], vec![row("5", "1")]);
    let (m, _) = step(m, CheckerEvent::Counter(0));
    let (m, _) = step(m, CheckerEvent::GuildCache(Some(vec![5])));
    let (_, a) = step(m, CheckerEvent::Members(Some(vec![2, 1])));
    assert!(matches!(a, CheckerAction::Tick));
}

#[test]
fn unreadable_ids_abort() {
    let (m, _) = running_sweep(vec![GUILD], vec![row("5", "one")]);
    let (m, _) = step(m, CheckerEvent::Counter(0));
    let (m, _) = step(m, CheckerEvent::GuildCache(Some(vec![5])));
    let (_, a) = step(m, CheckerEvent::Members(Some(vec![2])));
    assert!(matches!(a, CheckerAction::Finish(Outcome::Abort(AbortReason::OwnerIdNotNumeric))));

    let (m, _) = running_sweep(vec![GUILD], vec![row("five", "1")]);
    let (m, _) = step(m, CheckerEvent::Counter(0));
    let (_, a) = step(m, CheckerEvent::GuildCache(Some(vec![5])));
    assert!(matches!(a, CheckerAction::Finish(Outcome::Abort(AbortReason::ChannelIdNotNumeric))));
}

#[test]
fn stop_during_a_round_waits_then_ends() {
    let (m, _) = begin_checker(vec![GUILD], GUILD, u64::MAX - 10);
    let (m, _) = step(m, CheckerEvent::Counter(10));
    let (m, a) = step(m, CheckerEvent::Records(Fetched::Got(vec![row("5", "1")])));
    assert!(matches!(a, CheckerAction::ReadInstanceCounter));
    let (m, a) = step(m, CheckerEvent::Counter(0));
    assert!(matches!(a, CheckerAction::Tick));
    let (m, _) = step(m, CheckerEvent::Completed { ok: true });
    let (_, a) = step(m, CheckerEvent::Counter(0));
    assert!(matches!(a, CheckerAction::Finish(Outcome::Done)));
}

#[test]
fn failed_read_of_rows_aborts() {
    let (m, _) = begin_checker(vec![GUILD], GUILD, u64::MAX);
    let (m, _) = step(m, CheckerEvent::Counter(0));
    let (_, a) = step(m, CheckerEvent::Records(Fetched::Failed));
    assert!(matches!(a, CheckerAction::Finish(Outcome::Abort(AbortReason::DatabaseFailed))));
}
