use rs_voice_controller::permissions::{has_operating_permissions, owner_grant, PermissionSet};
use rs_voice_controller::random::select_random_owner_id;
use rs_voice_controller::text::{channel_name, creation_reason, parse_u64, u64_to_string};

#[test]
fn decimal_rendering_of_ids() {
    assert_eq!(u64_to_string(0), "0");
    assert_eq!(u64_to_string(7), "7");
    assert_eq!(u64_to_string(1234567890123456789), "1234567890123456789");
    assert_eq!(u64_to_string(u64::MAX), "18446744073709551615");
}

#[test]
fn parsing_accepts_digits_with_optional_plus() {
    assert_eq!(parse_u64("123"), Some(123));
    assert_eq!(parse_u64("+7"), Some(7));
    assert_eq!(parse_u64("007"), Some(7));
    assert_eq!(parse_u64("18446744073709551615"), Some(u64::MAX));
    assert_eq!(parse_u64("000000000000000000000018446744073709551615"), Some(u64::MAX));
    assert_eq!(parse_u64("+0"), Some(0));
}

#[test]
fn parsing_agrees_with_std() {
    for s in ["", "+", "-", "-0", "+12", "12", "0012", "1a", "a1", "99999999999999999999", "18446744073709551616", "٣", " 5", "5 "] {
        assert_eq!(parse_u64(s), s.parse::<u64>().ok(), "{}", s);
    }
}

#[test]
fn parsing_rejects_everything_else() {
    assert_eq!(parse_u64(""), None);
    assert_eq!(parse_u64("+"), None);
    assert_eq!(parse_u64("-1"), None);
    assert_eq!(parse_u64("12a"), None);
    assert_eq!(parse_u64(" 1"), None);
    assert_eq!(parse_u64("18446744073709551616"), None);
}

#[test]
fn stored_ids_read_back_unchanged() {
    for n in [0u64, 1, 9, 10, 99, 100, 987654321, 1_000_000_000_000, u64::MAX - 1, u64::MAX] {
        assert_eq!(parse_u64(&u64_to_string(n)), Some(n));
    }
}

#[test]
fn channel_and_reason_texts() {
    assert_eq!(channel_name("Bob"), "Bob's channel");
    assert_eq!(channel_name(""), "'s channel");
    assert_eq!(creation_reason("Bob"), "User Bob created voice chat");
}

#[test]
fn random_owner_is_a_member() {
    let members = vec![11u64, 22, 33];
    for _ in 0..50 {
        let chosen = *select_random_owner_id(&members);
        assert!(members.contains(&chosen));
    }
    assert_eq!(*select_random_owner_id(&vec![42u64]), 42);
}

fn set(manage: bool, mv: bool, mute: bool, deafen: bool) -> PermissionSet {
    PermissionSet { manage_channels: manage, move_members: mv, mute_members: mute, deafen_members: deafen }
}

#[test]
fn bot_needs_one_of_the_four_permissions() {
    assert!(!has_operating_permissions(&set(false, false, false, false)));
    assert!(has_operating_permissions(&set(true, false, false, false)));
    assert!(has_operating_permissions(&set(false, true, false, false)));
    assert!(has_operating_permissions(&set(false, false, true, false)));
    assert!(has_operating_permissions(&set(false, false, false, true)));
    assert!(has_operating_permissions(&set(true, true, true, true)));
}

#[test]
fn owners_may_manage_mute_and_deafen() {
    assert_eq!(owner_grant(), set(true, false, true, true));
}
