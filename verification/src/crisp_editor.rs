//! The default window of Crisp's vizia editor.

use vstd::prelude::*;

verus! {

/// The default window size `(width, height)` of Crisp's vizia editor in logical pixels, which
/// the editor state is created with.
pub fn default_state() -> (size: (u32, u32))
    ensures
        size == (400u32, 390u32),
{
    (400, 390)
}

} // verus!
