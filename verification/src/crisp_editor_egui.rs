//! The default window of Crisp's egui editor.

use vstd::prelude::*;
use nih_plug_egui::EguiState;
use std::sync::Arc;
use crate::outside::{egui_state_created_size, egui_state_from_size};

verus! {

/// The width of the editor in logical pixels.
pub const EDITOR_WIDTH: u32 = 400;
/// The height of the editor in logical pixels.
pub const EDITOR_HEIGHT: u32 = 390;

/// The editor state that Crisp's egui editor starts with, sized [`EDITOR_WIDTH`] by
/// [`EDITOR_HEIGHT`].
pub fn default_state() -> (state: Arc<EguiState>)
    ensures
        egui_state_created_size(state) == (EDITOR_WIDTH, EDITOR_HEIGHT),
        egui_state_created_size(state) == (400u32, 390u32),
{
    egui_state_from_size(EDITOR_WIDTH, EDITOR_HEIGHT)
}

} // verus!
