//! The decisions of the resize handle placed at the bottom right of a plugin window.
//!
//! The handle is a triangle. A left click inside the triangle starts a drag, releasing the left
//! button ends it, and moving the cursor updates the hover state and, while dragging, rescales
//! the window. Whether the cursor lies inside the triangle, and the new scale factor itself, are
//! computed by the caller; this module decides what to do with those events.

use vstd::prelude::*;

verus! {

/// A window event, reduced to what the resize handle decides on.
#[derive(Debug, Clone, Copy, PartialEq, Eq, Structural)]
pub enum HandleInput {
    /// The left mouse button went down; `on_handle` tells whether the cursor is inside the
    /// handle's triangle.
    LeftDown { on_handle: bool },
    /// The left mouse button went up.
    LeftUp,
    /// The cursor moved; `on_handle` tells whether its new position is inside the triangle.
    Moved { on_handle: bool },
    /// Any other window event.
    Other,
}

/// What the handle asks its caller to do in response to an input.
#[derive(Debug, Clone, Copy, PartialEq, Eq, Structural)]
pub enum HandleAction {
    /// Nothing.
    Nothing,
    /// Capture the mouse, mark the handle active, remember the current scale factor and the
    /// cursor position in physical pixels, and consume the event.
    BeginDrag,
    /// Release the mouse and mark the handle inactive.
    EndDrag,
    /// Set the handle's hover state to `hovered`. When `rescale` holds, also compute the new
    /// scale factor from the cursor position relative to the start of the drag and emit it.
    Hover { hovered: bool, rescale: bool },
}

/// Whether the handle is being dragged after `input`, given whether it was before.
pub open spec fn next_dragging(dragging: bool, input: HandleInput) -> bool {
    match input {
        HandleInput::LeftDown { on_handle } => on_handle || dragging,
        HandleInput::LeftUp => false,
        HandleInput::Moved { .. } => dragging,
        HandleInput::Other => dragging,
    }
}

/// The action the handle takes on `input`, given whether it is being dragged.
pub open spec fn action_on(dragging: bool, input: HandleInput) -> HandleAction {
    match input {
        HandleInput::LeftDown { on_handle } => if on_handle {
            HandleAction::BeginDrag
        } else {
            HandleAction::Nothing
        },
        HandleInput::LeftUp => if dragging {
            HandleAction::EndDrag
        } else {
            HandleAction::Nothing
        },
        HandleInput::Moved { on_handle } => HandleAction::Hover {
            hovered: on_handle,
            rescale: dragging,
        },
        HandleInput::Other => HandleAction::Nothing,
    }
}

/// The drag state of a resize handle.
pub struct DragState {
    /// Set while the user drags the handle. Clicking outside of the triangle does not start a
    /// drag.
    drag_active: bool,
}

impl View for DragState {
    type V = bool;

    /// Whether a drag is in progress.
    closed spec fn view(&self) -> bool {
        self.drag_active
    }
}

impl DragState {
    /// The state of a freshly created handle: not dragging.
    pub fn new() -> (state: Self)
        ensures
            !state@,
    {
        DragState { drag_active: false }
    }

    /// Whether a drag is in progress.
    pub fn is_dragging(&self) -> (dragging: bool)
        ensures
            dragging == self@,
    {
        self.drag_active
    }

    /// Handles one input and returns what the caller has to do.
    pub fn handle(&mut self, input: HandleInput) -> (action: HandleAction)
        ensures
            action == action_on(old(self)@, input),
            final(self)@ == next_dragging(old(self)@, input),
            action == HandleAction::BeginDrag <==> input == (HandleInput::LeftDown {
                on_handle: true,
            }),
            action == HandleAction::EndDrag <==> (input == HandleInput::LeftUp && old(self)@),
            action is Hover <==> input is Moved,
            input is Other ==> action == HandleAction::Nothing && final(self)@ == old(self)@,
    {
        match input {
            HandleInput::LeftDown { on_handle } => {
                if on_handle {
                    self.drag_active = true;
                    HandleAction::BeginDrag
                } else {
                    HandleAction::Nothing
                }
            },
            HandleInput::LeftUp => {
                if self.drag_active {
                    self.drag_active = false;
                    HandleAction::EndDrag
                } else {
                    HandleAction::Nothing
                }
            },
            HandleInput::Moved { on_handle } => HandleAction::Hover {
                hovered: on_handle,
                rescale: self.drag_active,
            },
            HandleInput::Other => HandleAction::Nothing,
        }
    }
}

/// Whether the handle is being dragged after `inputs`, starting from `dragging`.
pub open spec fn dragging_after(dragging: bool, inputs: Seq<HandleInput>) -> bool
    decreases inputs.len(),
{
    if inputs.len() == 0 {
        dragging
    } else {
        next_dragging(dragging_after(dragging, inputs.drop_last()), inputs.last())
    }
}

/// How many times the handle captures the mouse (begins a drag) over `inputs`, starting from
/// `dragging`.
pub open spec fn captures(dragging: bool, inputs: Seq<HandleInput>) -> nat
    decreases inputs.len(),
{
    if inputs.len() == 0 {
        0
    } else {
        let before = dragging_after(dragging, inputs.drop_last());
        captures(dragging, inputs.drop_last()) + if action_on(before, inputs.last())
            == HandleAction::BeginDrag {
            1nat
        } else {
            0nat
        }
    }
}

/// How many times the handle releases the mouse (ends a drag) over `inputs`, starting from
/// `dragging`.
pub open spec fn releases(dragging: bool, inputs: Seq<HandleInput>) -> nat
    decreases inputs.len(),
{
    if inputs.len() == 0 {
        0
    } else {
        let before = dragging_after(dragging, inputs.drop_last());
        releases(dragging, inputs.drop_last()) + if action_on(before, inputs.last())
            == HandleAction::EndDrag {
            1nat
        } else {
            0nat
        }
    }
}

/// A rescale is only requested while a drag is in progress, and every cursor move updates the
/// hover state to whether the cursor is on the handle.
pub proof fn lemma_rescale_only_while_dragging(dragging: bool, input: HandleInput)
    ensures
        action_on(dragging, input) matches HandleAction::Hover { rescale, .. } ==> rescale
            == dragging,
        input matches HandleInput::Moved { on_handle } ==> action_on(dragging, input)
            == (HandleAction::Hover { hovered: on_handle, rescale: dragging }),
        action_on(dragging, input) matches HandleAction::Hover { .. } ==> input is Moved,
{
}

/// What each action answers: a drag begins only on a left press on the handle, ends only on a
/// left release during a drag, the hover state is set only on cursor moves, and any other event
/// (another button, a key, a scroll) is ignored and leaves the drag state unchanged.
pub proof fn lemma_actions_answer_their_inputs(dragging: bool, input: HandleInput)
    ensures
        action_on(dragging, input) == HandleAction::BeginDrag <==> input == (HandleInput::LeftDown {
            on_handle: true,
        }),
        action_on(dragging, input) == HandleAction::EndDrag <==> (input == HandleInput::LeftUp
            && dragging),
        action_on(dragging, input) is Hover <==> input is Moved,
        action_on(dragging, input) == HandleAction::Nothing <==> (input is Other || input == (
        HandleInput::LeftDown { on_handle: false }) || (input == HandleInput::LeftUp && !dragging)),
        input is Other ==> next_dragging(dragging, input) == dragging,
        next_dragging(dragging, input) != dragging ==> (action_on(dragging, input)
            == HandleAction::BeginDrag || action_on(dragging, input) == HandleAction::EndDrag),
{
}

/// Releasing the left button always leaves the handle idle, and the mouse is only released
/// when a drag was in progress.
pub proof fn lemma_release_ends_drag(dragging: bool)
    ensures
        !next_dragging(dragging, HandleInput::LeftUp),
        action_on(dragging, HandleInput::LeftUp) == HandleAction::EndDrag <==> dragging,
{
}

/// A drag starts exactly when the left button goes down on the handle; a click beside the
/// triangle changes nothing.
pub proof fn lemma_drag_starts_on_handle(dragging: bool, on_handle: bool)
    ensures
        action_on(dragging, HandleInput::LeftDown { on_handle }) == HandleAction::BeginDrag
            <==> on_handle,
        !on_handle ==> next_dragging(dragging, HandleInput::LeftDown { on_handle }) == dragging,
        on_handle ==> next_dragging(dragging, HandleInput::LeftDown { on_handle }),
{
}

/// Over any sequence of inputs to a fresh handle, the mouse is never released more often than
/// it was captured, and while a drag is in progress it has been captured more often than
/// released.
pub proof fn lemma_release_follows_capture(inputs: Seq<HandleInput>)
    ensures
        releases(false, inputs) <= captures(false, inputs),
        dragging_after(false, inputs) ==> releases(false, inputs) < captures(false, inputs),
    decreases inputs.len(),
{
    if inputs.len() > 0 {
        lemma_release_follows_capture(inputs.drop_last());
    }
}

/// Whether some input in `inputs` pressed the left button on the handle and no left-button
/// release came after it.
pub open spec fn pressed_on_handle_since_release(inputs: Seq<HandleInput>) -> bool {
    exists|i: int|
        0 <= i < inputs.len() && #[trigger] inputs[i] == (HandleInput::LeftDown { on_handle: true })
            && forall|j: int| i < j < inputs.len() ==> #[trigger] inputs[j] != HandleInput::LeftUp
}

/// A fresh handle is dragging after a sequence of inputs exactly when the left button was
/// pressed on the handle and not released since.
pub proof fn lemma_dragging_iff_pressed_since_release(inputs: Seq<HandleInput>)
    ensures
        dragging_after(false, inputs) <==> pressed_on_handle_since_release(inputs),
    decreases inputs.len(),
{
    if inputs.len() > 0 {
        let prefix = inputs.drop_last();
        let n = inputs.len() - 1;
        let last = inputs.last();
        lemma_dragging_iff_pressed_since_release(prefix);
        if last == (HandleInput::LeftDown { on_handle: true }) {
            assert(inputs[n] == (HandleInput::LeftDown { on_handle: true }));
            assert(pressed_on_handle_since_release(inputs));
        } else if last == HandleInput::LeftUp {
            if pressed_on_handle_since_release(inputs) {
                let i = choose|i: int|
                    0 <= i < inputs.len() && #[trigger] inputs[i] == (HandleInput::LeftDown {
                        on_handle: true,
                    }) && forall|j: int|
                        i < j < inputs.len() ==> #[trigger] inputs[j] != HandleInput::LeftUp;
                assert(i != n);
                assert(inputs[n] != HandleInput::LeftUp);
            }
        } else {
            if pressed_on_handle_since_release(prefix) {
                let i = choose|i: int|
                    0 <= i < prefix.len() && #[trigger] prefix[i] == (HandleInput::LeftDown {
                        on_handle: true,
                    }) && forall|j: int|
                        i < j < prefix.len() ==> #[trigger] prefix[j] != HandleInput::LeftUp;
                assert(inputs[i] == prefix[i]);
                assert forall|j: int| i < j < inputs.len() implies #[trigger] inputs[j]
                    != HandleInput::LeftUp by {
                    if j < n {
                        assert(inputs[j] == prefix[j]);
                    }
                }
                assert(pressed_on_handle_since_release(inputs));
            }
            if pressed_on_handle_since_release(inputs) {
                let i = choose|i: int|
                    0 <= i < inputs.len() && #[trigger] inputs[i] == (HandleInput::LeftDown {
                        on_handle: true,
                    }) && forall|j: int|
                        i < j < inputs.len() ==> #[trigger] inputs[j] != HandleInput::LeftUp;
                assert(i != n);
                assert(prefix[i] == inputs[i]);
                assert forall|j: int| i < j < prefix.len() implies #[trigger] prefix[j]
                    != HandleInput::LeftUp by {
                    assert(prefix[j] == inputs[j]);
                }
                assert(pressed_on_handle_since_release(prefix));
            }
        }
    }
}

/// Over any sequence of inputs to a fresh handle, a cursor move requests a rescale exactly when
/// the left button was pressed on the handle and not released since: after a release no rescale
/// is requested until the next press on the handle.
pub proof fn lemma_rescale_only_after_press_on_handle(inputs: Seq<HandleInput>, on_handle: bool)
    ensures
        action_on(dragging_after(false, inputs), HandleInput::Moved { on_handle })
            == (HandleAction::Hover {
            hovered: on_handle,
            rescale: pressed_on_handle_since_release(inputs),
        }),
{
    lemma_dragging_iff_pressed_since_release(inputs);
}

} // verus!
