use gse::rules::{classify_state, FlowState};

#[test]
fn test_flow_state() {
    assert_eq!(classify_state(50, 0, None), FlowState::Flow);
    assert_eq!(classify_state(99, 1, None), FlowState::Flow);
}

#[test]
fn test_incubation_state() {
    assert_eq!(classify_state(250, 2, None), FlowState::Incubation);
    assert_eq!(classify_state(150, 1, None), FlowState::Incubation);
}

#[test]
fn test_stuck_state() {
    assert_eq!(classify_state(600, 0, None), FlowState::Stuck);
    assert_eq!(classify_state(100, 6, None), FlowState::Stuck);
    assert_eq!(classify_state(800, 3, None), FlowState::Stuck);
    // a long pause after deleting counts as hesitation
    assert_eq!(classify_state(50, 0, Some(2500)), FlowState::Stuck);
}

#[test]
fn test_rule_based_flow_detection() {
    assert_eq!(classify_state(75, 0, None), FlowState::Flow);
}

#[test]
fn test_rule_based_stuck_detection_slow_typing() {
    assert_eq!(classify_state(800, 1, None), FlowState::Stuck);
}

#[test]
fn test_rule_based_stuck_detection_many_backspaces() {
    assert_eq!(classify_state(150, 10, None), FlowState::Stuck);
}

#[test]
fn test_rule_based_incubation_detection() {
    assert_eq!(classify_state(250, 2, None), FlowState::Incubation);
}

#[test]
fn test_backspace_window_five_second_decay() {
    let window_start_backspaces = 3;
    let time_1sec_after = window_start_backspaces;
    assert_eq!(
        classify_state(100, time_1sec_after, None),
        FlowState::Incubation,
        "3 backspaces with 100ms flight time should be INCUBATION"
    );
    let time_6sec_after = 0;
    // Flow needs a flight time under 100 ms, so exactly 100 ms is INCUBATION, not FLOW,
    // even with no backspaces left in the window.
    assert_eq!(
        classify_state(100, time_6sec_after, None),
        FlowState::Incubation,
        "100ms flight time with 0 backspaces is at the flow bound, so INCUBATION"
    );
    assert_eq!(classify_state(99, time_6sec_after, None), FlowState::Flow);
}

#[test]
fn test_edge_case_zero_flight_time() {
    let state = classify_state(0, 0, None);
    assert_eq!(state, FlowState::Flow, "Zero flight time should be FLOW");
}

#[test]
fn rule_boundaries() {
    assert_eq!(classify_state(500, 5, None), FlowState::Incubation);
    assert_eq!(classify_state(501, 0, None), FlowState::Stuck);
    assert_eq!(classify_state(100, 0, None), FlowState::Incubation);
    assert_eq!(classify_state(500, 2, None), FlowState::Incubation);
    assert_eq!(classify_state(99, 2, None), FlowState::Incubation);
    assert_eq!(classify_state(50, 0, Some(1999)), FlowState::Flow);
    assert_eq!(classify_state(50, 0, Some(2000)), FlowState::Stuck);
}

#[test]
fn state_names() {
    assert_eq!(FlowState::Flow.as_str(), "FLOW");
    assert_eq!(FlowState::Incubation.as_str(), "INCUBATION");
    assert_eq!(FlowState::Stuck.as_str(), "STUCK");
}
