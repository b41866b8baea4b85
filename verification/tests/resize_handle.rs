use plugin_editors::resize_handle::{DragState, HandleAction, HandleInput};

#[test]
fn new_handle_is_idle() {
    let state = DragState::new();
    assert!(!state.is_dragging());
}

#[test]
fn click_on_handle_starts_drag() {
    let mut state = DragState::new();
    assert_eq!(
        state.handle(HandleInput::LeftDown { on_handle: true }),
        HandleAction::BeginDrag
    );
    assert!(state.is_dragging());
}

#[test]
fn click_beside_handle_does_nothing() {
    let mut state = DragState::new();
    assert_eq!(
        state.handle(HandleInput::LeftDown { on_handle: false }),
        HandleAction::Nothing
    );
    assert!(!state.is_dragging());
}

#[test]
fn moves_hover_and_rescale_only_while_dragging() {
    let mut state = DragState::new();
    assert_eq!(
        state.handle(HandleInput::Moved { on_handle: true }),
        HandleAction::Hover { hovered: true, rescale: false }
    );
    state.handle(HandleInput::LeftDown { on_handle: true });
    assert_eq!(
        state.handle(HandleInput::Moved { on_handle: false }),
        HandleAction::Hover { hovered: false, rescale: true }
    );
    assert!(state.is_dragging());
}

#[test]
fn release_ends_drag_once() {
    let mut state = DragState::new();
    state.handle(HandleInput::LeftDown { on_handle: true });
    assert_eq!(state.handle(HandleInput::LeftUp), HandleAction::EndDrag);
    assert!(!state.is_dragging());
    assert_eq!(state.handle(HandleInput::LeftUp), HandleAction::Nothing);
    assert!(!state.is_dragging());
}

#[test]
fn other_events_change_nothing() {
    let mut state = DragState::new();
    state.handle(HandleInput::LeftDown { on_handle: true });
    assert_eq!(state.handle(HandleInput::Other), HandleAction::Nothing);
    assert!(state.is_dragging());
    assert_eq!(
        state.handle(HandleInput::LeftDown { on_handle: false }),
        HandleAction::Nothing
    );
    assert!(state.is_dragging());
}

#[test]
fn releases_never_outnumber_captures() {
    let inputs = [
        HandleInput::LeftUp,
        HandleInput::LeftDown { on_handle: true },
        HandleInput::Moved { on_handle: true },
        HandleInput::LeftDown { on_handle: true },
        HandleInput::LeftUp,
        HandleInput::LeftUp,
        HandleInput::LeftDown { on_handle: false },
        HandleInput::LeftUp,
    ];
    let mut state = DragState::new();
    let (mut captures, mut releases) = (0, 0);
    for input in inputs {
        match state.handle(input) {
            HandleAction::BeginDrag => captures += 1,
            HandleAction::EndDrag => releases += 1,
            _ => {}
        }
        assert!(releases <= captures);
        if state.is_dragging() {
            assert!(releases < captures);
        }
    }
    assert_eq!((captures, releases), (2, 1));
}

#[test]
fn no_rescale_after_release_until_next_press_on_handle() {
    let mut state = DragState::new();
    state.handle(HandleInput::LeftDown { on_handle: true });
    state.handle(HandleInput::LeftUp);
    assert_eq!(
        state.handle(HandleInput::Moved { on_handle: true }),
        HandleAction::Hover { hovered: true, rescale: false }
    );
    state.handle(HandleInput::LeftDown { on_handle: false });
    assert_eq!(
        state.handle(HandleInput::Moved { on_handle: false }),
        HandleAction::Hover { hovered: false, rescale: false }
    );
    state.handle(HandleInput::LeftDown { on_handle: true });
    assert_eq!(
        state.handle(HandleInput::Moved { on_handle: false }),
        HandleAction::Hover { hovered: false, rescale: true }
    );
}
