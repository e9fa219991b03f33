//! Checks on the interactive control state.

use three_body::control::{FixState, GuiState};

#[test]
fn new_session_defaults() {
    let g = GuiState::new();
    assert!(g.general_open);
    assert_eq!(g.body_panel_open, (false, false, false));
    assert_eq!(g.selected_preset, 0);
    assert!(g.preset_changed);
    assert!(!g.paused);
    assert!(!g.reset);
    assert!(!g.clear_trails);
    assert_eq!(g.trail_length, 500);
    assert_eq!(g.simulation_speed, 10);
    assert_eq!(g.substeps, 10);
    assert_eq!(g.follow, None);
    assert_eq!(g.fix, FixState::Free);
}

#[test]
fn fix_center_reports_the_pinned_body() {
    assert_eq!(FixState::Free.fix_center(), None);
    assert_eq!(FixState::Fix(1, None).fix_center(), Some(1));
    assert_eq!(FixState::Fix(2, Some(0)).fix_center(), Some(2));
}

#[test]
fn fix_rot_reports_the_alignment_body() {
    assert_eq!(FixState::Free.fix_rot(), None);
    assert_eq!(FixState::Fix(1, None).fix_rot(), None);
    assert_eq!(FixState::Fix(1, Some(0)).fix_rot(), Some(0));
}
