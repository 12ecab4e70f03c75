use bezy::editing::nudge::{EditEvent, NudgeState};
use bezy::font_loading::{load_fontir_font, DeferredFontLoading};
use bezy::settings::BezySettings;

#[test]
fn test_nudge_amounts() {
    // Test that nudge amounts are reasonable
    let settings = BezySettings::default();
    assert!(
        settings.nudge.default > 0,
        "Default nudge amount should be positive"
    );
    assert!(
        settings.nudge.shift > settings.nudge.default,
        "Shift nudge should be larger than default"
    );
    assert!(
        settings.nudge.cmd > settings.nudge.shift,
        "Cmd nudge should be larger than shift"
    );
}

#[test]
fn test_nudge_state_default() {
    let nudge_state = NudgeState::default();
    assert!(
        !nudge_state.is_nudging,
        "Default nudge state should not be nudging"
    );
    assert_eq!(
        nudge_state.last_nudge_time, 0,
        "Default last nudge time should be 0"
    );
}

#[test]
fn test_edit_event_creation() {
    let event = EditEvent {};

    assert!(
        matches!(event, EditEvent {}),
        "Edit event should have correct type"
    );
}

#[test]
fn nudge_amounts_match_the_key_bindings() {
    let settings = BezySettings::default();
    assert_eq!(settings.nudge.default, 1);
    assert_eq!(settings.nudge.shift, 10);
    assert_eq!(settings.nudge.cmd, 100);
}

#[test]
fn the_font_is_loaded_once_after_startup() {
    let mut d = load_fontir_font(Some("fonts/Test.ufo".to_string()));
    assert!(!d.loading && !d.loaded);
    assert_eq!(d.start_loading(), Some("fonts/Test.ufo".to_string()));
    assert!(d.loading);
    assert_eq!(d.start_loading(), None);
    d.finish_loading();
    assert!(d.loaded && !d.loading);
    assert_eq!(d.start_loading(), None);

    let mut none = load_fontir_font(None);
    assert_eq!(none.start_loading(), None);
    assert!(!none.loading);
    let mut default = DeferredFontLoading::default();
    assert_eq!(default.start_loading(), None);
}
