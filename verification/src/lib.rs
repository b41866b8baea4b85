//! Verified editor logic for the Crisp and Spectral Compressor plugin GUIs and the resize
//! handle widget: window sizes, the editor mode toggle, the analyzer's colors and threshold
//! curve layout, and the drag state machine of the resize handle.

pub mod analyzer;
pub mod analyzer_egui;
pub mod crisp_editor;
pub mod crisp_editor_egui;
pub mod outside;
pub mod resize_handle;
pub mod spectral_editor;
