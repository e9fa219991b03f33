//! Control state for an interactive driver of the engine.
//!
//! The rendering layer owns a [`GuiState`] describing what the user is
//! looking at and how fast the simulation runs; [`FixState`] records which
//! body, if any, the display frame is pinned to.  Neither type touches the
//! physics: the driver reads them to decide how often to call the integrator
//! and which frame operations to apply.

use vstd::prelude::*;

verus! {

/// How the display frame is fixed to the simulated bodies.
#[derive(Clone, Copy, Debug, PartialEq, Eq)]
pub enum FixState {
    /// The frame is recentered on the body with the first index; when the
    /// second index is present, the frame is also rotationally aligned to
    /// that body.
    Fix(usize, Option<usize>),
    /// The frame follows no body.
    Free,
}

impl FixState {
    /// The body the frame is recentered on, if any.
    pub fn fix_center(&self) -> (r: Option<usize>)
        ensures
            r == (match *self {
                FixState::Fix(f, _) => Some(f),
                FixState::Free => None::<usize>,
            }),
    {
        match *self {
            FixState::Fix(f, _) => Some(f),
            FixState::Free => None,
        }
    }

    /// The body the frame is rotationally aligned to, if any.
    pub fn fix_rot(&self) -> (r: Option<usize>)
        ensures
            r == (match *self {
                FixState::Fix(_, f) => f,
                FixState::Free => None::<usize>,
            }),
    {
        match *self {
            FixState::Fix(_, f) => f,
            FixState::Free => None,
        }
    }
}

/// The adjustable state of an interactive session: which panels are open,
/// which preset is selected, how fast the simulation runs, and how the
/// display frame follows the bodies.
#[derive(Clone, Copy, Debug, PartialEq, Eq)]
pub struct GuiState {
    pub general_open: bool,
    pub body_panel_open: (bool, bool, bool),
    pub selected_preset: usize,
    pub preset_changed: bool,
    pub paused: bool,
    pub reset: bool,
    pub clear_trails: bool,
    pub trail_length: usize,
    pub simulation_speed: usize,
    pub substeps: usize,
    pub follow: Option<usize>,
    pub fix: FixState,
}

impl GuiState {
    /// The state a fresh session starts in: the general panel open, the
    /// first preset selected and marked as newly chosen, the simulation
    /// running at ten integrator calls of ten sub-steps each per tick, a
    /// trail of five hundred points, and the frame following no body.
    pub fn new() -> (g: GuiState)
        ensures
            g.general_open == true,
            g.body_panel_open == (false, false, false),
            g.selected_preset == 0,
            g.preset_changed == true,
            g.paused == false,
            g.reset == false,
            g.clear_trails == false,
            g.trail_length == 500,
            g.simulation_speed == 10,
            g.substeps == 10,
            g.follow == None::<usize>,
            g.fix == FixState::Free,
    {
        GuiState {
            general_open: true,
            body_panel_open: (false, false, false),
            selected_preset: 0,
            preset_changed: true,
            paused: false,
            reset: false,
            clear_trails: false,
            trail_length: 500,
            simulation_speed: 10,
            substeps: 10,
            follow: None,
            fix: FixState::Free,
        }
    }
}

} // verus!
