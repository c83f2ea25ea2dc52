use zsh_prompt::timing::{
    pre_cmd, pre_exec, set_timing_threshold, LastCommandTiming, ThresholdError, TimingInfo,
};

#[test]
fn a_fresh_timer_reports_nothing() {
    let t = TimingInfo::new();
    assert!(LastCommandTiming::get(&t).elapsed_ms.is_none());
}

#[test]
fn a_start_and_a_stop_yield_a_duration() {
    let mut t = TimingInfo::new();
    pre_exec(&mut t);
    pre_cmd(&mut t);
    assert!(LastCommandTiming::get(&t).elapsed_ms.is_some());
    assert!(t.last_end.is_some());
}

#[test]
fn a_second_stop_clears_the_duration() {
    let mut t = TimingInfo::new();
    pre_exec(&mut t);
    pre_cmd(&mut t);
    pre_cmd(&mut t);
    assert!(LastCommandTiming::get(&t).elapsed_ms.is_none());
}

#[test]
fn a_stop_without_a_start_reports_nothing() {
    let mut t = TimingInfo::new();
    pre_cmd(&mut t);
    assert!(LastCommandTiming::get(&t).elapsed_ms.is_none());
}

#[test]
fn the_threshold_takes_a_plain_numeral() {
    let mut th: u32 = 500;
    assert!(set_timing_threshold(&mut th, &vec!["250".to_string()]).is_ok());
    assert_eq!(th, 250);
    assert!(set_timing_threshold(&mut th, &vec!["0".to_string()]).is_ok());
    assert_eq!(th, 0);
    assert!(set_timing_threshold(&mut th, &vec!["+42".to_string()]).is_ok());
    assert_eq!(th, 42);
}

#[test]
fn a_bad_numeral_leaves_the_threshold_alone() {
    let mut th: u32 = 500;
    match set_timing_threshold(&mut th, &vec!["abc".to_string()]) {
        Err(e) => {
            assert!(matches!(e, ThresholdError::NotUnsigned));
            assert_eq!(e.exit_code(), 1);
            assert!(e.message().contains("unsigned integer"));
        }
        Ok(()) => panic!("a non-numeral must be refused"),
    }
    assert_eq!(th, 500);
}

#[test]
fn an_overflowing_numeral_is_refused() {
    let mut th: u32 = 500;
    assert!(matches!(
        set_timing_threshold(&mut th, &vec!["4294967296".to_string()]),
        Err(ThresholdError::NotUnsigned)
    ));
    assert_eq!(th, 500);
    assert!(set_timing_threshold(&mut th, &vec!["4294967295".to_string()]).is_ok());
    assert_eq!(th, u32::MAX);
}

#[test]
fn a_new_threshold_moves_the_boundary_for_later_renders() {
    let timing = LastCommandTiming {
        elapsed_ms: Some(300),
    };
    let mut th: u32 = 500;
    assert_eq!(zsh_prompt::render::timing_fragment(&timing, th), "");
    set_timing_threshold(&mut th, &vec!["250".to_string()]).unwrap();
    assert_eq!(zsh_prompt::render::timing_fragment(&timing, th), "⏱300ms\n");
}

#[test]
fn a_wrong_argument_count_is_a_usage_error() {
    let mut th: u32 = 500;
    match set_timing_threshold(&mut th, &vec![]) {
        Err(e) => {
            assert!(matches!(e, ThresholdError::Usage));
            assert!(e.message().starts_with("Usage:"));
        }
        Ok(()) => panic!("an empty argument list must be refused"),
    }
    assert!(matches!(
        set_timing_threshold(&mut th, &vec!["1".to_string(), "2".to_string()]),
        Err(ThresholdError::Usage)
    ));
    assert_eq!(th, 500);
}
