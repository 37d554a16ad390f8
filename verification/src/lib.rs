//! A small immediate-feedback widget core: a pivot-anchored rectangular
//! transform with containment queries, a per-frame click state machine, and
//! a button and text-label facade over the two. Geometry is fixed-point —
//! `UNIT` subunits to the pixel — so every contract here is exact integer
//! arithmetic; a host engine converts to its own units at the edge, feeds
//! pointer input in once per frame, and draws from the returned parameters.

mod button;
mod color;
mod interaction;
mod text;
mod transform;

pub use button::{spec_style, Button, ButtonConfig, ButtonHandle, RectDraw};
pub use color::Color;
pub use text::{spec_baseline_offset, Text, TextConfig, TextDraw, FONT_SIZE_HEIGHT_RATIO};
pub use interaction::{
    lemma_click_is_single_pulse, lemma_clicked_requires_armed, lemma_exit_cancels_click,
    lemma_exit_disarms, lemma_press_outside_never_clicks, lemma_press_then_release_clicks,
    spec_run, spec_step, ButtonState, FrameInput,
};
pub use transform::{
    in_coord_range, lemma_contains_is_inclusive, lemma_pos_within_rect, spec_resolve_x,
    spec_resolve_y, trunc_div, Transform, TransformVector, Vec2, COORD_LIMIT, UNIT,
};
