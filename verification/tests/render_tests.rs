use zsh_prompt::classify::{CmdSymbol, KeyMode, LastCommandExitStatus, PromptUid, UidAndHost};
use zsh_prompt::git_head::{GitHead, HeadError, Location};
use zsh_prompt::render::{
    cmd_fragment, compose_prompt, exit_fragment, keymode_fragment, location_fragment,
    pretty_elapsed, timing_fragment, uid_fragment,
};
use zsh_prompt::timing::LastCommandTiming;

#[test]
fn root_user_fragment() {
    let u = UidAndHost {
        uid: PromptUid::Root,
        via_ssh: false,
    };
    assert_eq!(uid_fragment(&u), "%B%F{red}%n%f%b%F{yellow}@%f ");
}

#[test]
fn other_user_over_ssh_fragment() {
    let u = UidAndHost {
        uid: PromptUid::OtherUser,
        via_ssh: true,
    };
    assert_eq!(
        uid_fragment(&u),
        "%B%F{yellow}%n%f%b%F{yellow}@%f%B%F{green}%M%f%b "
    );
}

#[test]
fn normal_user_locally_shows_nothing() {
    let u = UidAndHost {
        uid: PromptUid::Normal,
        via_ssh: false,
    };
    assert_eq!(uid_fragment(&u), "");
}

#[test]
fn normal_user_over_ssh_shows_the_host() {
    let u = UidAndHost {
        uid: PromptUid::Normal,
        via_ssh: true,
    };
    assert_eq!(uid_fragment(&u), "%F{green}@%f%B%F{green}%M%f%b ");
}

#[test]
fn outside_a_repository_the_location_is_plain() {
    assert_eq!(location_fragment(&Location::NotGit), "%B%F{blue}%~%f%b");
}

#[test]
fn repository_location_fragment() {
    let loc = Location::Git {
        repo: "project".to_string(),
        branch: Ok(GitHead::Branch("main".to_string())),
        prefix: Some("sub".to_string()),
    };
    assert_eq!(
        location_fragment(&loc),
        "%F{green}±%f %Bproject%b:%F{green}main%f:%B%F{blue}/sub%f%b"
    );
}

#[test]
fn detached_head_and_failed_prefix_fragment() {
    let loc = Location::Git {
        repo: "project".to_string(),
        branch: Ok(GitHead::Detached("abcdef".to_string())),
        prefix: None,
    };
    assert_eq!(
        location_fragment(&loc),
        "%F{green}±%f %Bproject%b:%F{yellow}(detached HEAD: abcdef)%f:%B%F{red}(err)%f%b"
    );
}

#[test]
fn unresolved_head_shows_an_error_marker() {
    let loc = Location::Git {
        repo: "project".to_string(),
        branch: Err(HeadError::Unreadable),
        prefix: Some("".to_string()),
    };
    assert_eq!(
        location_fragment(&loc),
        "%F{green}±%f %Bproject%b:%B%F{red}(err)%f%b:%B%F{blue}/%f%b"
    );
}

#[test]
fn short_durations_are_milliseconds() {
    assert_eq!(pretty_elapsed(0), "0ms");
    assert_eq!(pretty_elapsed(999), "999ms");
}

#[test]
fn a_minute_and_some_seconds() {
    assert_eq!(pretty_elapsed(65432), "1m 5.432s");
}

#[test]
fn seconds_carry_their_millisecond_remainder() {
    assert_eq!(pretty_elapsed(1000), "1.000s");
    assert_eq!(pretty_elapsed(59999), "59.999s");
}

#[test]
fn from_an_hour_on_the_remainder_is_dropped() {
    assert_eq!(pretty_elapsed(3600000), "1h 0m 0s");
    assert_eq!(pretty_elapsed(3599999), "59m 59.999s");
}

#[test]
fn days_cascade_through_the_inner_zeros() {
    assert_eq!(pretty_elapsed(90061500), "1d 1h 1m 1s");
    assert_eq!(pretty_elapsed(86400000), "1d 0h 0m 0s");
}

#[test]
fn timing_is_shown_exactly_from_the_threshold_on() {
    let at = LastCommandTiming {
        elapsed_ms: Some(500),
    };
    let below = LastCommandTiming {
        elapsed_ms: Some(499),
    };
    let none = LastCommandTiming { elapsed_ms: None };
    assert_eq!(timing_fragment(&at, 500), "⏱500ms\n");
    assert_eq!(timing_fragment(&below, 500), "");
    assert_eq!(timing_fragment(&none, 500), "");
    assert_eq!(timing_fragment(&below, 499), "⏱499ms\n");
    assert_eq!(timing_fragment(&below, 0), "⏱499ms\n");
}

#[test]
fn success_prints_no_exit_note() {
    assert_eq!(
        exit_fragment(&LastCommandExitStatus::Success, &Some("now".to_string())),
        ""
    );
}

#[test]
fn errors_print_the_status_note() {
    assert_eq!(
        exit_fragment(&LastCommandExitStatus::Error, &None),
        "%F{red}%B(last command returned %?%)%b%f\n"
    );
    assert_eq!(
        exit_fragment(
            &LastCommandExitStatus::Error,
            &Some("2024-05-01T12:00:00+00:00".to_string())
        ),
        "%F{red}%B(last command returned %?%b; failed at 2024-05-01T12:00:00+00:00%B%)%b%f\n"
    );
}

#[test]
fn signals_print_their_name() {
    assert_eq!(
        exit_fragment(&LastCommandExitStatus::Signal("SIGINT".to_string()), &None),
        "%F{red}%B(last command got signal SIGINT)%b%f\n"
    );
}

#[test]
fn keymode_fragments() {
    assert_eq!(keymode_fragment(&KeyMode::Emacs), "");
    assert_eq!(keymode_fragment(&KeyMode::Insert), "[%{\x1b[92m%}i%{\x1b[0m%}] ");
    assert_eq!(keymode_fragment(&KeyMode::Normal), "[%{\x1b[93m%}n%{\x1b[0m%}] ");
    assert_eq!(
        keymode_fragment(&KeyMode::Unknown("viopp".to_string())),
        "[? (viopp)] "
    );
}

#[test]
fn cmd_fragments() {
    assert_eq!(cmd_fragment(&CmdSymbol::Root), "%F{red}%B#%b%f");
    assert_eq!(
        cmd_fragment(&CmdSymbol::NotRoot),
        "%{\x1b[1;38;5;033m%}»%{\x1b[0m%}"
    );
}

#[test]
fn the_fragments_concatenate_in_order() {
    let u = UidAndHost {
        uid: PromptUid::Normal,
        via_ssh: false,
    };
    let timing = LastCommandTiming {
        elapsed_ms: Some(65432),
    };
    let out = compose_prompt(
        &u,
        &Location::NotGit,
        &timing,
        500,
        &LastCommandExitStatus::Error,
        &None,
        &KeyMode::Emacs,
        &CmdSymbol::NotRoot,
    );
    assert_eq!(
        out,
        "%B%F{blue}%~%f%b\n⏱1m 5.432s\n%F{red}%B(last command returned %?%)%b%f\n%{\x1b[1;38;5;033m%}»%{\x1b[0m%} "
    );
}
