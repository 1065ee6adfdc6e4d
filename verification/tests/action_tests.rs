use mci::Action;
use mci::MciError;
use mci::parse_action;

#[test]
fn parses_every_action_name() {
    assert_eq!(parse_action("on"), Ok(Action::On));
    assert_eq!(parse_action("off"), Ok(Action::Off));
    assert_eq!(parse_action("inc_brightness"), Ok(Action::BrightnessUp));
    assert_eq!(parse_action("dec_brightness"), Ok(Action::BrightnessDown));
    assert_eq!(parse_action("inc_warmth"), Ok(Action::WarmthUp));
    assert_eq!(parse_action("dec_warmth"), Ok(Action::WarmthDown));
    assert_eq!(parse_action("bright_mode"), Ok(Action::FullBrightness));
    assert_eq!(parse_action("night_mode"), Ok(Action::NightMode));
}

#[test]
fn unknown_name_is_a_distinct_diagnostic() {
    assert_eq!(parse_action("disco_mode"), Err(MciError::UnknownAction));
    assert_eq!(parse_action(""), Err(MciError::UnknownAction));
    assert_eq!(parse_action("ON"), Err(MciError::UnknownAction));
    assert_eq!(parse_action("on "), Err(MciError::UnknownAction));
}
