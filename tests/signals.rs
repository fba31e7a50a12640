use gse::ime::{
    ime_active_after_event, is_ime_candidate_class, is_ime_focus_element, resolve_ime_signals,
    EVENT_OBJECT_IME_CHANGE, EVENT_OBJECT_IME_HIDE, EVENT_OBJECT_IME_SHOW,
};
use gse::keystrokes::{KeystrokeTracker, Measurement};
use gse::rules::FlowState;
use gse::score::BACKSPACE_KEY;

#[test]
fn ime_events_set_and_clear_the_flag() {
    assert!(ime_active_after_event(false, EVENT_OBJECT_IME_SHOW));
    assert!(ime_active_after_event(false, EVENT_OBJECT_IME_CHANGE));
    assert!(!ime_active_after_event(true, EVENT_OBJECT_IME_HIDE));
    assert!(ime_active_after_event(true, 0x8019));
    assert!(!ime_active_after_event(false, 0x0003));
}

#[test]
fn stale_ime_flag_is_cleared() {
    let v = resolve_ime_signals(true, false, false);
    assert!(!v.composing && v.clear_stale_flag);
    let v = resolve_ime_signals(true, true, false);
    assert!(v.composing && !v.clear_stale_flag);
    let v = resolve_ime_signals(false, false, true);
    assert!(v.composing && !v.clear_stale_flag);
    let v = resolve_ime_signals(false, false, false);
    assert!(!v.composing && !v.clear_stale_flag);
}

#[test]
fn candidate_window_classes() {
    assert!(is_ime_candidate_class("CandidateUI_UIElement"));
    assert!(is_ime_candidate_class("IME"));
    assert!(is_ime_candidate_class("MyCandidateList"));
    assert!(!is_ime_candidate_class("MSCTFIME UI"));
    assert!(!is_ime_candidate_class("IMEX"));
    assert!(!is_ime_candidate_class("ime"));
    assert!(!is_ime_candidate_class(""));
}

#[test]
fn focused_element_checks() {
    assert!(is_ime_focus_element(Some("ImeCandidateWindow"), None));
    assert!(is_ime_focus_element(Some("MicrosoftImeView"), Some("x")));
    assert!(is_ime_focus_element(Some("Edit"), Some("\u{5019}\u{88dc} 1")));
    assert!(!is_ime_focus_element(Some("Edit"), Some("Document")));
    assert!(!is_ime_focus_element(None, None));
}

#[test]
fn tracker_measures_flight_time() {
    let mut t = KeystrokeTracker::new();
    assert_eq!(t.on_key_down(1_000, 0x41), None);
    assert_eq!(
        t.on_key_down(1_120, 0x42),
        Some(Measurement { flight_time_ms: 120, backspace_count: 0, pause_after_delete_ms: None })
    );
    // too short to be measured, but it becomes the last key
    assert_eq!(t.on_key_down(1_125, 0x43), None);
    assert_eq!(
        t.on_key_down(1_200, 0x44),
        Some(Measurement { flight_time_ms: 75, backspace_count: 0, pause_after_delete_ms: None })
    );
}

#[test]
fn tracker_counts_recent_backspaces() {
    let mut t = KeystrokeTracker::new();
    t.on_key_down(0, 0x41);
    assert_eq!(t.on_key_down(100, BACKSPACE_KEY), None);
    t.on_key_down(200, BACKSPACE_KEY);
    t.on_key_down(300, BACKSPACE_KEY);
    assert_eq!(t.backspace_count(), 3);
    let m = t.on_key_down(2_800, 0x41).unwrap();
    assert_eq!(m, Measurement { flight_time_ms: 2_800, backspace_count: 3, pause_after_delete_ms: Some(2_500) });
    assert_eq!(classify_from(m), FlowState::Stuck);
    // a backspace five seconds after the first ones pushes them out of the window
    t.on_key_down(5_250, BACKSPACE_KEY);
    assert_eq!(t.backspace_count(), 2);
    t.on_key_down(5_300, BACKSPACE_KEY);
    assert_eq!(t.backspace_count(), 2);
    let m = t.on_key_down(5_350, 0x41).unwrap();
    assert_eq!(m.flight_time_ms, 2_550);
    assert_eq!(m.pause_after_delete_ms, Some(50));
}

#[test]
fn tracker_reports_state_changes() {
    let mut t = KeystrokeTracker::new();
    assert!(t.note_state(FlowState::Flow));
    assert!(!t.note_state(FlowState::Flow));
    assert!(t.note_state(FlowState::Stuck));
}

fn classify_from(m: Measurement) -> FlowState {
    gse::rules::classify_state(m.flight_time_ms, m.backspace_count, m.pause_after_delete_ms)
}
