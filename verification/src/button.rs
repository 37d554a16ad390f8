use vstd::prelude::*;
use crate::color::Color;
use crate::interaction::{spec_step, ButtonState, FrameInput};
use crate::text::{Text, TextConfig};
use crate::transform::{Transform, Vec2};

verus! {

/// What a button is built from: a colour for each visual state and the
/// order the host renders it in.
#[derive(Clone, Copy, PartialEq, Eq, Debug)]
pub struct ButtonConfig {
    pub hovered_color: Color,
    pub clicked_color: Color,
    pub color: Color,

    pub render_order: i32,
}

/// A clickable rectangle: a transform for geometry, a click state machine
/// fed once per frame, a style configuration, and an optional text label
/// handed to the host once, when the button is spawned.
pub struct Button {
    pub transform: Transform,
    pub config: ButtonConfig,
    pub state: ButtonState,

    pub text_config: Option<TextConfig>,
}

/// A read-only snapshot of a button's state machine, issued by
/// `Button::handle`: it reports the hovered and clicked flags of the frame
/// it was taken in, and nothing can write through it.
#[derive(Clone, Copy, PartialEq, Eq, Debug)]
pub struct ButtonHandle {
    pub hovered: bool,
    pub clicked: bool,
}

/// The parameters of one filled-rectangle draw call on the host render
/// surface, in subunits.
#[derive(Clone, Copy, PartialEq, Eq, Debug)]
pub struct RectDraw {
    pub x: i64,
    pub y: i64,
    pub width: i64,
    pub height: i64,
    pub color: Color,
}

/// The colour a button shows for a given machine state: the clicked colour
/// while armed or on the click pulse, else the hovered colour while
/// hovered, else the default.
pub open spec fn spec_style(state: ButtonState, config: ButtonConfig) -> Color {
    if state.clicked_in || state.clicked {
        config.clicked_color
    } else if state.hovered {
        config.hovered_color
    } else {
        config.color
    }
}

impl Button {
    /// A button over `transform`, styled by `config`, with its state
    /// machine at the all-flags-down start and no text label yet.
    pub fn new(transform: Transform, config: ButtonConfig) -> (b: Button)
        ensures
            b.transform == transform,
            b.config == config,
            b.state == ButtonState::spec_initial(),
            b.text_config is None,
    {
        Button { transform, config, state: ButtonState::new(), text_config: None }
    }

    /// Give the button a text label to spawn; replaces any label set
    /// earlier that was not spawned yet.
    pub fn set_text(&mut self, text_config: TextConfig)
        ensures
            final(self).text_config == Some(text_config),
            final(self).transform == old(self).transform,
            final(self).config == old(self).config,
            final(self).state == old(self).state,
    {
        self.text_config = Some(text_config);
    }

    /// Surrender the text label as a child widget, centred on this button's
    /// transform, to be spawned by the host; at most one label ever comes
    /// out, however often this is called.
    pub fn take_text(&mut self) -> (t: Option<Text>)
        ensures
            t == (match old(self).text_config {
                Some(c) => Some(Text { transform: old(self).transform, config: c }),
                None => None::<Text>,
            }),
            final(self).text_config is None,
            final(self).transform == old(self).transform,
            final(self).config == old(self).config,
            final(self).state == old(self).state,
    {
        match self.text_config.take() {
            Some(config) => Some(Text::new(self.transform.clone(), config)),
            None => None,
        }
    }

    /// Consume one frame of pointer input: the state machine steps on this
    /// frame's containment test and button edges. Everything else about the
    /// button is unchanged.
    pub fn tick(&mut self, pointer: Vec2, pressed: bool, released: bool)
        requires
            old(self).transform.valid(),
        ensures
            final(self).state == spec_step(
                old(self).state,
                (FrameInput {
                    hovered: old(self).transform.spec_contains(pointer),
                    pressed,
                    released,
                }),
            ),
            final(self).transform == old(self).transform,
            final(self).config == old(self).config,
            final(self).text_config == old(self).text_config,
    {
        let hovered = self.transform.contains(pointer);
        self.state.update(FrameInput { hovered, pressed, released });
    }

    /// The draw call this button emits: its rectangle from the bottom-left
    /// corner, in the colour its current state selects.
    pub fn render(&self) -> (d: RectDraw)
        requires
            self.transform.valid(),
        ensures
            d.x == self.transform.spec_bottom_left_x(),
            d.y == self.transform.spec_bottom_left_y(),
            d.width == self.transform.size.x,
            d.height == self.transform.size.y,
            d.color == spec_style(self.state, self.config),
    {
        let bottom_left = self.transform.bottom_left();

        let color = if self.state.clicked_in || self.state.clicked {
            self.config.clicked_color
        } else if self.state.hovered {
            self.config.hovered_color
        } else {
            self.config.color
        };

        RectDraw {
            x: bottom_left.x,
            y: bottom_left.y,
            width: self.transform.size.x,
            height: self.transform.size.y,
            color,
        }
    }

    /// The order the host's render scheduler draws this button in.
    pub fn render_order(&self) -> (r: i32)
        ensures
            r == self.config.render_order,
    {
        self.config.render_order
    }

    /// An untorn snapshot of the state machine as of the last completed
    /// frame; taking it changes nothing.
    pub fn handle(&self) -> (h: ButtonHandle)
        ensures
            h.hovered == self.state.hovered,
            h.clicked == self.state.clicked,
    {
        ButtonHandle { hovered: self.state.hovered, clicked: self.state.clicked }
    }
}

impl ButtonHandle {
    /// Whether the pointer was over the button in the frame this snapshot
    /// was taken.
    pub fn hovered(&self) -> (r: bool)
        ensures
            r == self.hovered,
    {
        self.hovered
    }

    /// Whether the button's click pulse fired in the frame this snapshot
    /// was taken.
    pub fn clicked(&self) -> (r: bool)
        ensures
            r == self.clicked,
    {
        self.clicked
    }
}

} // verus!
