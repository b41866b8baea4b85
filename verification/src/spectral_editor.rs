//! The Spectral Compressor's egui editor: its mode, the window size that belongs to each mode,
//! and the button that shows or hides the analyzer.

use vstd::prelude::*;
use crossbeam::atomic::AtomicCell;
use nih_plug_egui::EguiState;
use std::sync::Arc;
use crate::outside::{atomic_cell_load, atomic_cell_store, egui_state_created_size, egui_state_from_size};

verus! {

/// The entire editor's width with the analyzer shown, in logical pixels.
pub const EXPANDED_GUI_WIDTH: u32 = 1360;
/// The width of the editor's part holding the controls, without the analyzer.
pub const COLLAPSED_GUI_WIDTH: u32 = 680;
/// The entire editor's height, in logical pixels.
pub const GUI_HEIGHT: u32 = 530;

/// The editor's mode: whether the analyzer is shown next to the controls.
#[derive(Debug, Clone, Copy, PartialEq, Eq, Structural)]
pub enum EditorMode {
    Collapsed,
    AnalyzerVisible,
}

impl Default for EditorMode {
    /// The analyzer is shown by default.
    fn default() -> (mode: Self)
        ensures
            mode == EditorMode::AnalyzerVisible,
    {
        EditorMode::AnalyzerVisible
    }
}

/// The window size `(width, height)` in logical pixels for a mode.
pub open spec fn editor_size_spec(mode: EditorMode) -> (u32, u32) {
    match mode {
        EditorMode::Collapsed => (COLLAPSED_GUI_WIDTH, GUI_HEIGHT),
        EditorMode::AnalyzerVisible => (EXPANDED_GUI_WIDTH, GUI_HEIGHT),
    }
}

/// The other mode.
pub open spec fn toggled_spec(mode: EditorMode) -> EditorMode {
    match mode {
        EditorMode::Collapsed => EditorMode::AnalyzerVisible,
        EditorMode::AnalyzerVisible => EditorMode::Collapsed,
    }
}

/// The window size `(width, height)` in logical pixels for a mode: the controls alone when
/// collapsed, the controls and the analyzer otherwise.
pub fn editor_size(mode: EditorMode) -> (size: (u32, u32))
    ensures
        size == editor_size_spec(mode),
{
    match mode {
        EditorMode::Collapsed => (COLLAPSED_GUI_WIDTH, GUI_HEIGHT),
        EditorMode::AnalyzerVisible => (EXPANDED_GUI_WIDTH, GUI_HEIGHT),
    }
}

/// The editor's default state, sized for the mode that `editor_mode` holds when it is read.
/// Which mode that is depends on what other threads stored into the shared cell; whichever it
/// is, the state is created with that mode's window size.
pub fn default_state(editor_mode: Arc<AtomicCell<EditorMode>>) -> (state: Arc<EguiState>)
    ensures
        exists|mode: EditorMode| egui_state_created_size(state) == editor_size_spec(mode),
{
    let mode = atomic_cell_load(&*editor_mode);
    let (width, height) = editor_size(mode);
    let state = egui_state_from_size(width, height);
    assert(egui_state_created_size(state) == editor_size_spec(mode));
    state
}

/// Whether the analyzer panel is shown in `mode`.
pub fn shows_analyzer(mode: EditorMode) -> (shown: bool)
    ensures
        shown == (mode == EditorMode::AnalyzerVisible),
{
    match mode {
        EditorMode::Collapsed => false,
        EditorMode::AnalyzerVisible => true,
    }
}

/// The mode that the mode button switches to from `mode`.
pub fn toggled_mode(mode: EditorMode) -> (other: EditorMode)
    ensures
        other == toggled_spec(mode),
{
    match mode {
        EditorMode::Collapsed => EditorMode::AnalyzerVisible,
        EditorMode::AnalyzerVisible => EditorMode::Collapsed,
    }
}

/// The label of the mode button while the editor is in `mode`.
pub fn mode_button_label(mode: EditorMode) -> (label: &'static str)
    ensures
        mode == EditorMode::AnalyzerVisible ==> label@ == "Hide analyzer"@,
        mode == EditorMode::Collapsed ==> label@ == "Show analyzer"@,
{
    match mode {
        EditorMode::Collapsed => "Show analyzer",
        EditorMode::AnalyzerVisible => "Hide analyzer",
    }
}

/// Reads the current mode from `editor_mode` for drawing the mode button, and returns it with
/// the button's label.
pub fn mode_button(editor_mode: &AtomicCell<EditorMode>) -> (button: (EditorMode, &'static str))
    ensures
        button.0 == EditorMode::AnalyzerVisible ==> button.1@ == "Hide analyzer"@,
        button.0 == EditorMode::Collapsed ==> button.1@ == "Show analyzer"@,
{
    let mode = atomic_cell_load(editor_mode);
    (mode, mode_button_label(mode))
}

/// Handles a click on the mode button that was drawn for `shown_mode`: stores the other mode
/// into `editor_mode` and returns the mode stored.
pub fn click_mode_button(editor_mode: &AtomicCell<EditorMode>, shown_mode: EditorMode) -> (stored:
    EditorMode)
    ensures
        stored == toggled_spec(shown_mode),
{
    let new_mode = toggled_mode(shown_mode);
    atomic_cell_store(editor_mode, new_mode);
    new_mode
}

/// Reads the current mode from `editor_mode` and tells whether the analyzer panel is drawn.
/// Which mode is read depends on what other threads stored into the shared cell.
pub fn analyzer_panel_shown(editor_mode: &AtomicCell<EditorMode>) -> bool {
    shows_analyzer(atomic_cell_load(editor_mode))
}

/// Switching modes twice returns to the original mode, and every switch changes whether the
/// analyzer is shown.
pub proof fn lemma_toggle_involution(mode: EditorMode)
    ensures
        toggled_spec(toggled_spec(mode)) == mode,
        toggled_spec(mode) != mode,
        (toggled_spec(mode) == EditorMode::AnalyzerVisible) != (mode
            == EditorMode::AnalyzerVisible),
{
}

/// Both modes have the same height, and the collapsed editor, which leaves out the analyzer, is
/// narrower than the expanded one.
pub proof fn lemma_sizes(mode: EditorMode)
    ensures
        editor_size_spec(mode).1 == GUI_HEIGHT,
        editor_size_spec(EditorMode::Collapsed).0 < editor_size_spec(
            EditorMode::AnalyzerVisible,
        ).0,
        editor_size_spec(toggled_spec(mode)).1 == editor_size_spec(mode).1,
{
}

} // verus!
