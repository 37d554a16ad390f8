use wrg_ui::{ButtonState, FrameInput};

fn frame(hovered: bool, pressed: bool, released: bool) -> FrameInput {
    FrameInput { hovered, pressed, released }
}

#[test]
fn press_and_release_inside_fires_one_click() {
    let mut s = ButtonState::new();
    assert_eq!(s, ButtonState { hovered: false, clicked_in: false, clicked: false });

    // Pointer enters the rectangle on the press-edge frame.
    s.update(frame(true, true, false));
    assert_eq!(s, ButtonState { hovered: true, clicked_in: true, clicked: false });

    // Still inside on the release-edge frame: the click fires.
    s.update(frame(true, false, true));
    assert_eq!(s, ButtonState { hovered: true, clicked_in: false, clicked: true });

    // Following frame with no input change: the pulse resets.
    s.update(frame(true, false, false));
    assert_eq!(s, ButtonState { hovered: true, clicked_in: false, clicked: false });
}

#[test]
fn press_outside_then_drag_inside_never_clicks() {
    let mut s = ButtonState::new();

    // Press while outside: arming needs the pointer over the widget.
    s.update(frame(false, true, false));
    assert!(!s.clicked_in);
    assert!(!s.clicked);

    // Drag inside with the button held.
    s.update(frame(true, false, false));
    assert!(!s.clicked_in);
    assert!(!s.clicked);

    // Release inside: still no click for that press.
    s.update(frame(true, false, true));
    assert!(!s.clicked_in);
    assert!(!s.clicked);
}

#[test]
fn press_inside_then_drag_outside_cancels() {
    let mut s = ButtonState::new();

    // Press inside: armed.
    s.update(frame(true, true, false));
    assert!(s.clicked_in);

    // Pointer exits with the button still held: disarmed that frame.
    s.update(frame(false, false, false));
    assert!(!s.clicked_in);
    assert!(!s.clicked);

    // Release outside: no click.
    s.update(frame(false, false, true));
    assert!(!s.clicked_in);
    assert!(!s.clicked);
}

#[test]
fn reentry_without_a_fresh_press_does_not_rearm() {
    let mut s = ButtonState::new();
    s.update(frame(true, true, false));
    assert!(s.clicked_in);

    // Out, then back in, with the button held the whole time.
    s.update(frame(false, false, false));
    s.update(frame(true, false, false));
    assert!(!s.clicked_in);

    // Releasing inside now fires nothing: the arming was lost on exit.
    s.update(frame(true, false, true));
    assert!(!s.clicked);
}

#[test]
fn click_pulse_lasts_exactly_one_frame() {
    let mut s = ButtonState::new();
    s.update(frame(true, true, false));
    s.update(frame(true, false, true));
    assert!(s.clicked);

    // Whatever comes next, the pulse is down again.
    let mut t = s;
    t.update(frame(true, true, true));
    assert!(!t.clicked);

    let mut u = s;
    u.update(frame(false, false, false));
    assert!(!u.clicked);
}

#[test]
fn hovered_tracks_the_current_frame() {
    let mut s = ButtonState::new();
    s.update(frame(true, false, false));
    assert!(s.hovered);
    s.update(frame(false, false, false));
    assert!(!s.hovered);
}
