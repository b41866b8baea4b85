//! Declarations of the outside types that the editor logic carries through, and the calls
//! into outside crates that it makes. Verus believes these contracts without proof.

use vstd::prelude::*;
use crossbeam::atomic::AtomicCell;
use nih_plug_egui::EguiState;
use std::sync::Arc;

verus! {

/// `crossbeam::atomic::AtomicCell<T>`: a cell shared between threads. Opaque here.
#[verifier::external_type_specification]
#[verifier::external_body]
#[verifier::reject_recursive_types(T)]
pub struct ExAtomicCell<T>(crossbeam::atomic::AtomicCell<T>);

/// `nih_plug_egui::EguiState`: the persisted size and open state of an egui editor window.
/// Opaque here; its fields are private to that crate.
#[verifier::external_type_specification]
#[verifier::external_body]
pub struct ExEguiState(nih_plug_egui::EguiState);

/// Calls `AtomicCell::load`. The cell is shared with other threads, which may store into it at
/// any time, so nothing is promised of which value comes back.
#[verifier::external_body]
pub(crate) fn atomic_cell_load<T: Copy>(cell: &AtomicCell<T>) -> (value: T) {
    cell.load()
}

/// Calls `AtomicCell::store`, which replaces the cell's value and does not fail. What a later
/// load returns is not stated: other threads share the cell.
#[verifier::external_body]
pub(crate) fn atomic_cell_store<T>(cell: &AtomicCell<T>, value: T) {
    cell.store(value)
}

/// The size `(width, height)` in logical pixels that an editor state was created with. The
/// editor later updates the state's current size while its window is open; the size it was
/// created with stays fixed.
pub uninterp spec fn egui_state_created_size(state: Arc<EguiState>) -> (u32, u32);

/// Calls `EguiState::from_size`, which creates a closed editor state whose size cell starts out
/// holding `(width, height)`. The contract states that creation size; what the size cell holds
/// later, once the editor resizes the window, is not stated.
#[verifier::external_body]
pub(crate) fn egui_state_from_size(width: u32, height: u32) -> (state: Arc<EguiState>)
    ensures
        egui_state_created_size(state) == (width, height),
{
    EguiState::from_size(width, height)
}

} // verus!
