use zsh_prompt::classify::{
    cmd_symbol, get_uid_and_host, key_mode, CmdSymbol, KeyMode, LastCommandExitStatus, PromptUid,
};

#[test]
fn exit_zero_is_success() {
    assert!(matches!(
        LastCommandExitStatus::from_exit_status(0),
        LastCommandExitStatus::Success
    ));
}

#[test]
fn small_nonzero_codes_are_errors() {
    for code in 1..=127 {
        assert!(matches!(
            LastCommandExitStatus::from_exit_status(code),
            LastCommandExitStatus::Error
        ));
    }
}

#[test]
fn negative_codes_are_errors() {
    assert!(matches!(
        LastCommandExitStatus::from_exit_status(-1),
        LastCommandExitStatus::Error
    ));
    assert!(matches!(
        LastCommandExitStatus::from_exit_status(i32::MIN),
        LastCommandExitStatus::Error
    ));
}

#[test]
fn signal_codes_name_the_signal() {
    match LastCommandExitStatus::from_exit_status(130) {
        LastCommandExitStatus::Signal(name) => assert_eq!(name, "SIGINT"),
        _ => panic!("130 should classify as a signal"),
    }
    match LastCommandExitStatus::from_exit_status(128 + 9) {
        LastCommandExitStatus::Signal(name) => assert_eq!(name, "SIGKILL"),
        _ => panic!("137 should classify as a signal"),
    }
    match LastCommandExitStatus::from_exit_status(128 + 15) {
        LastCommandExitStatus::Signal(name) => assert_eq!(name, "SIGTERM"),
        _ => panic!("143 should classify as a signal"),
    }
}

#[test]
fn pseudo_signal_codes_fall_back_to_error() {
    assert!(matches!(
        LastCommandExitStatus::from_exit_status(128),
        LastCommandExitStatus::Error
    ));
    assert!(matches!(
        LastCommandExitStatus::from_exit_status(128 + 100),
        LastCommandExitStatus::Error
    ));
    assert!(matches!(
        LastCommandExitStatus::from_exit_status(i32::MAX),
        LastCommandExitStatus::Error
    ));
}

#[test]
fn root_wins_over_username() {
    let r = get_uid_and_host(true, &Some("other".to_string()), &"me".to_string(), false);
    assert!(matches!(r.uid, PromptUid::Root));
    assert!(!r.via_ssh);
}

#[test]
fn matching_username_is_normal() {
    let r = get_uid_and_host(false, &Some("me".to_string()), &"me".to_string(), false);
    assert!(matches!(r.uid, PromptUid::Normal));
}

#[test]
fn absent_username_is_other_user() {
    let r = get_uid_and_host(false, &None, &"me".to_string(), true);
    assert!(matches!(r.uid, PromptUid::OtherUser));
    assert!(r.via_ssh);
}

#[test]
fn differing_username_is_other_user() {
    let r = get_uid_and_host(false, &Some("guest".to_string()), &"me".to_string(), false);
    assert!(matches!(r.uid, PromptUid::OtherUser));
}

#[test]
fn main_keymap_is_emacs_without_vi_mode() {
    assert!(matches!(
        key_mode(false, &Some("main".to_string())),
        KeyMode::Emacs
    ));
}

#[test]
fn main_keymap_is_insert_with_vi_mode() {
    assert!(matches!(
        key_mode(true, &Some("main".to_string())),
        KeyMode::Insert
    ));
}

#[test]
fn vicmd_keymap_is_normal() {
    assert!(matches!(
        key_mode(true, &Some("vicmd".to_string())),
        KeyMode::Normal
    ));
    assert!(matches!(
        key_mode(false, &Some("vicmd".to_string())),
        KeyMode::Normal
    ));
}

#[test]
fn other_keymap_is_carried_through() {
    match key_mode(false, &Some("viopp".to_string())) {
        KeyMode::Unknown(raw) => assert_eq!(raw, "viopp"),
        _ => panic!("unexpected keymap classification"),
    }
}

#[test]
fn unset_keymap_uses_the_marker() {
    match key_mode(false, &None) {
        KeyMode::Unknown(raw) => assert_eq!(raw, "< $KEYMAP unset >"),
        _ => panic!("unexpected keymap classification"),
    }
}

#[test]
fn cmd_symbol_follows_root() {
    assert!(matches!(cmd_symbol(true), CmdSymbol::Root));
    assert!(matches!(cmd_symbol(false), CmdSymbol::NotRoot));
}
