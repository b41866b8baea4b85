use crossbeam::atomic::AtomicCell;
use plugin_editors::spectral_editor::{
    analyzer_panel_shown, click_mode_button, default_state, editor_size, mode_button,
    mode_button_label, shows_analyzer, toggled_mode, EditorMode, COLLAPSED_GUI_WIDTH,
    EXPANDED_GUI_WIDTH, GUI_HEIGHT,
};
use plugin_editors::{crisp_editor, crisp_editor_egui};
use std::sync::Arc;

#[test]
fn analyzer_visible_by_default() {
    assert_eq!(EditorMode::default(), EditorMode::AnalyzerVisible);
}

#[test]
fn sizes_per_mode() {
    assert_eq!(editor_size(EditorMode::Collapsed), (680, 530));
    assert_eq!(editor_size(EditorMode::AnalyzerVisible), (1360, 530));
    assert_eq!((COLLAPSED_GUI_WIDTH, EXPANDED_GUI_WIDTH, GUI_HEIGHT), (680, 1360, 530));
}

#[test]
fn default_state_follows_stored_mode() {
    let collapsed = default_state(Arc::new(AtomicCell::new(EditorMode::Collapsed)));
    assert_eq!(collapsed.size(), (680, 530));
    assert!(!collapsed.is_open());
    let expanded = default_state(Arc::new(AtomicCell::new(EditorMode::AnalyzerVisible)));
    assert_eq!(expanded.size(), (1360, 530));
}

#[test]
fn toggle_twice_restores() {
    for mode in [EditorMode::Collapsed, EditorMode::AnalyzerVisible] {
        assert_ne!(toggled_mode(mode), mode);
        assert_eq!(toggled_mode(toggled_mode(mode)), mode);
        assert_ne!(shows_analyzer(toggled_mode(mode)), shows_analyzer(mode));
    }
}

#[test]
fn button_labels() {
    assert_eq!(mode_button_label(EditorMode::AnalyzerVisible), "Hide analyzer");
    assert_eq!(mode_button_label(EditorMode::Collapsed), "Show analyzer");
}

#[test]
fn clicking_the_button_switches_mode() {
    let cell = AtomicCell::new(EditorMode::AnalyzerVisible);
    let (shown, label) = mode_button(&cell);
    assert_eq!((shown, label), (EditorMode::AnalyzerVisible, "Hide analyzer"));
    assert!(analyzer_panel_shown(&cell));
    assert_eq!(click_mode_button(&cell, shown), EditorMode::Collapsed);
    assert_eq!(cell.load(), EditorMode::Collapsed);
    assert!(!analyzer_panel_shown(&cell));
    assert_eq!(mode_button(&cell), (EditorMode::Collapsed, "Show analyzer"));
    assert_eq!(click_mode_button(&cell, EditorMode::Collapsed), EditorMode::AnalyzerVisible);
    assert_eq!(cell.load(), EditorMode::AnalyzerVisible);
}

#[test]
fn crisp_default_sizes() {
    assert_eq!(crisp_editor::default_state(), (400, 390));
    let state = crisp_editor_egui::default_state();
    assert_eq!(state.size(), (400, 390));
    assert_eq!((crisp_editor_egui::EDITOR_WIDTH, crisp_editor_egui::EDITOR_HEIGHT), (400, 390));
}
