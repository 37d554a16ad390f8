use wrg_ui::{
    Button, ButtonConfig, ButtonState, Color, TextConfig, Transform, Vec2,
};

const RED: Color = Color { r: 255, g: 0, b: 0, a: 255 };
const GREEN: Color = Color { r: 0, g: 255, b: 0, a: 255 };
const BLUE: Color = Color { r: 0, g: 0, b: 255, a: 255 };
const WHITE: Color = Color { r: 255, g: 255, b: 255, a: 255 };

fn test_button() -> Button {
    Button::new(
        Transform {
            pos: Vec2 { x: 20000, y: 10000 },
            size: Vec2 { x: 55000, y: 65000 },
            pivot: Vec2 { x: 5000, y: 5000 },
        },
        ButtonConfig { hovered_color: GREEN, clicked_color: BLUE, color: RED, render_order: 7 },
    )
}

const INSIDE: Vec2 = Vec2 { x: 0, y: 0 };
const OUTSIDE: Vec2 = Vec2 { x: 50000, y: 0 };

#[test]
fn new_button_starts_idle() {
    let b = test_button();
    assert_eq!(b.state, ButtonState { hovered: false, clicked_in: false, clicked: false });
    let h = b.handle();
    assert!(!h.hovered());
    assert!(!h.clicked());
}

#[test]
fn render_shows_the_state_colors() {
    let mut b = test_button();

    // Idle: default colour at the rectangle's bottom-left.
    let d = b.render();
    assert_eq!(d.color, RED);
    assert_eq!((d.x, d.y, d.width, d.height), (-7500, -22500, 55000, 65000));

    // Hovered only.
    b.tick(INSIDE, false, false);
    assert_eq!(b.render().color, GREEN);

    // Armed by a press inside.
    b.tick(INSIDE, true, false);
    assert_eq!(b.render().color, BLUE);

    // The click pulse frame still shows the clicked colour.
    b.tick(INSIDE, false, true);
    assert!(b.state.clicked);
    assert_eq!(b.render().color, BLUE);

    // Afterwards, back to hovered.
    b.tick(INSIDE, false, false);
    assert_eq!(b.render().color, GREEN);

    // And once the pointer leaves, back to the default.
    b.tick(OUTSIDE, false, false);
    assert_eq!(b.render().color, RED);
}

#[test]
fn render_order_comes_from_the_config() {
    let b = test_button();
    assert_eq!(b.render_order(), 7);
}

#[test]
fn handle_reflects_the_latest_frame() {
    let mut b = test_button();

    b.tick(INSIDE, true, false);
    b.tick(INSIDE, false, true);
    let h = b.handle();
    assert!(h.hovered());
    assert!(h.clicked());

    // A snapshot taken earlier is not disturbed by later frames, and a
    // clone of a snapshot reads the same values.
    let kept = h.clone();
    b.tick(OUTSIDE, false, false);
    assert!(kept.clicked());
    assert!(!b.handle().clicked());
    assert!(!b.handle().hovered());
}

#[test]
fn full_click_needs_press_and_release_inside() {
    let mut b = test_button();

    // Press outside, drag inside, release: no click.
    b.tick(OUTSIDE, true, false);
    b.tick(INSIDE, false, false);
    b.tick(INSIDE, false, true);
    assert!(!b.handle().clicked());

    // Press inside, drag outside, release: no click either.
    b.tick(INSIDE, true, false);
    b.tick(OUTSIDE, false, false);
    b.tick(OUTSIDE, false, true);
    assert!(!b.handle().clicked());

    // Press and release inside: click.
    b.tick(INSIDE, true, false);
    b.tick(INSIDE, false, true);
    assert!(b.handle().clicked());
}

#[test]
fn take_text_hands_out_the_label_once() {
    let mut b = test_button();
    assert!(b.take_text().is_none());

    b.set_text(TextConfig { color: WHITE, text: String::from("go"), font_size: 160000, render_order: 8 });
    let label = b.take_text().expect("a label was set");
    assert_eq!(label.config.text, "go");
    assert_eq!(label.config.color, WHITE);
    assert_eq!(label.transform.pos, Vec2 { x: 20000, y: 10000 });
    assert_eq!(label.render_order(), 8);

    // The label is gone now.
    assert!(b.take_text().is_none());
}

#[test]
fn text_renders_centred_with_a_baseline_drop() {
    let mut b = test_button();
    // Font size 16 pixels; the baseline drops by 16 * 0.6 / 2 = 4.8 pixels.
    b.set_text(TextConfig { color: WHITE, text: String::from("go"), font_size: 160000, render_order: 8 });
    let label = b.take_text().unwrap();

    let d = label.render();
    assert_eq!(d.text, "go");
    assert_eq!(d.x, 20000);
    assert_eq!(d.y, 10000 - 48000);
    assert_eq!(d.font_size, 160000);
    assert_eq!(d.color, WHITE);
}
