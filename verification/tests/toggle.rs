use grove::toggle::{after_delivery, parse_args, ArgsError, Next};

fn args(list: &[&str]) -> Vec<String> {
    list.iter().map(|s| (*s).to_string()).collect()
}

#[test]
fn no_argument_means_the_window() {
    assert_eq!(parse_args(&Vec::new()), Ok(None));
}

#[test]
fn parses_a_number() {
    assert_eq!(parse_args(&args(&["1"])), Ok(Some(1)));
    assert_eq!(parse_args(&args(&["9"])), Ok(Some(9)));
}

#[test]
fn rejects_numbers_no_worktree_can_carry() {
    assert_eq!(parse_args(&args(&["0"])), Err(ArgsError::BadSlot("0".into())));
    assert_eq!(parse_args(&args(&["10"])), Err(ArgsError::BadSlot("10".into())));
    assert_eq!(parse_args(&args(&["main"])), Err(ArgsError::BadSlot("main".into())));
}

#[test]
fn rejects_a_second_argument_and_unknown_options() {
    assert_eq!(parse_args(&args(&["1", "2"])), Err(ArgsError::Unexpected("2".into())));
    assert_eq!(
        parse_args(&args(&["--slot=1"])),
        Err(ArgsError::Unknown("--slot=1".into()))
    );
}

#[test]
fn a_missing_gui_asks_for_one() {
    assert_eq!(after_delivery(Some(3), false), Next::LaunchGui { slot: Some(3) });
    assert_eq!(after_delivery(Some(3), true), Next::Done);
}

#[test]
fn each_toggle_error_says_what_is_wrong() {
    assert_eq!(
        ArgsError::BadSlot("0".into()).message(),
        "`0` is not a number a worktree can carry: expected 1–9"
    );
    assert_eq!(ArgsError::Unexpected("2".into()).message(), "unexpected argument `2`");
    assert_eq!(ArgsError::Unknown("-x".into()).message(), "unknown option `-x`");
}
