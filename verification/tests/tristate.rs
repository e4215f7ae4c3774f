use redo_env::tristate::OptionalBool;

#[test]
fn levels_decode_to_settings() {
    assert_eq!(OptionalBool::from_level(0), OptionalBool::Off);
    assert_eq!(OptionalBool::from_level(1), OptionalBool::Auto);
    assert_eq!(OptionalBool::from_level(2), OptionalBool::On);
}

#[test]
fn unknown_levels_are_on() {
    assert_eq!(OptionalBool::from_level(3), OptionalBool::On);
    assert_eq!(OptionalBool::from_level(-1), OptionalBool::On);
    assert_eq!(OptionalBool::from_level(i32::MAX), OptionalBool::On);
    assert_eq!(OptionalBool::from_level(i32::MIN), OptionalBool::On);
}

#[test]
fn unwrap_or_uses_default_only_for_auto() {
    assert!(OptionalBool::On.unwrap_or(false));
    assert!(OptionalBool::On.unwrap_or(true));
    assert!(!OptionalBool::Off.unwrap_or(false));
    assert!(!OptionalBool::Off.unwrap_or(true));
    assert!(!OptionalBool::Auto.unwrap_or(false));
    assert!(OptionalBool::Auto.unwrap_or(true));
}

#[test]
fn unwrap_or_else_calls_closure_only_for_auto() {
    assert!(OptionalBool::On.unwrap_or_else(|| panic!("forced on")));
    assert!(!OptionalBool::Off.unwrap_or_else(|| panic!("forced off")));
    assert!(OptionalBool::Auto.unwrap_or_else(|| true));
    assert!(!OptionalBool::Auto.unwrap_or_else(|| false));
}

#[test]
fn default_is_auto() {
    assert_eq!(OptionalBool::default(), OptionalBool::Auto);
}

#[test]
fn settings_are_shown_as_words() {
    assert_eq!(OptionalBool::Off.as_str(), "false");
    assert_eq!(OptionalBool::Auto.as_str(), "auto");
    assert_eq!(OptionalBool::On.as_str(), "true");
}

#[test]
fn converts_from_option() {
    assert_eq!(OptionalBool::from(Some(true)), OptionalBool::On);
    assert_eq!(OptionalBool::from(Some(false)), OptionalBool::Off);
    assert_eq!(OptionalBool::from(None), OptionalBool::Auto);
}

#[test]
fn converts_to_option() {
    assert_eq!(Option::<bool>::from(OptionalBool::On), Some(true));
    assert_eq!(Option::<bool>::from(OptionalBool::Off), Some(false));
    assert_eq!(Option::<bool>::from(OptionalBool::Auto), None);
}

#[test]
fn settings_are_ordered_off_auto_on() {
    assert!(OptionalBool::Off < OptionalBool::Auto);
    assert!(OptionalBool::Auto < OptionalBool::On);
}
