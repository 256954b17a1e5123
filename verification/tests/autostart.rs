use aibar::autostart::{manage_autostart, AutostartAction, AUTOSTART_APP_NAME};

#[test]
fn autostart_is_enabled_when_wanted_and_missing() {
    assert_eq!(manage_autostart(true, Some(false)), AutostartAction::Enable);
}

#[test]
fn autostart_is_disabled_when_unwanted_and_present() {
    assert_eq!(manage_autostart(false, Some(true)), AutostartAction::Disable);
}

#[test]
fn autostart_is_kept_when_as_wanted() {
    assert_eq!(manage_autostart(true, Some(true)), AutostartAction::Keep);
    assert_eq!(manage_autostart(false, Some(false)), AutostartAction::Keep);
}

#[test]
fn unknown_autostart_state_counts_as_not_enabled() {
    assert_eq!(manage_autostart(true, None), AutostartAction::Enable);
    assert_eq!(manage_autostart(false, None), AutostartAction::Keep);
}

#[test]
fn autostart_registration_is_named_after_the_program() {
    assert_eq!(AUTOSTART_APP_NAME, "AIBar");
}
