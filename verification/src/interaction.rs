use vstd::prelude::*;

verus! {

/// The pointer signals a widget's click state machine consumes in one
/// frame: whether the pointer is over the widget this frame, and whether
/// the primary button was pressed or released this frame (edge events,
/// not levels).
#[derive(Clone, Copy, PartialEq, Eq, Debug)]
pub struct FrameInput {
    pub hovered: bool,
    pub pressed: bool,
    pub released: bool,
}

/// The observable state of a widget's click state machine. `hovered` is the
/// last frame's containment test; `clicked_in` means a press started over
/// the widget and the pointer has stayed over it since ("armed");
/// `clicked` is a single-frame pulse raised on the frame of an eligible
/// release.
#[derive(Clone, Copy, PartialEq, Eq, Debug)]
pub struct ButtonState {
    pub hovered: bool,
    pub clicked_in: bool,
    pub clicked: bool,
}

/// One step of the click state machine:
/// a click fires iff the machine was armed and the button was released this
/// frame; the machine stays armed only while the pointer remains over the
/// widget and the click has not just fired, and it arms only on a fresh
/// press that starts over the widget.
pub open spec fn spec_step(prev: ButtonState, input: FrameInput) -> ButtonState {
    let clicked = prev.clicked_in && input.released;
    let clicked_in = if prev.clicked_in {
        input.hovered && !clicked
    } else {
        input.hovered && input.pressed
    };
    ButtonState { hovered: input.hovered, clicked_in, clicked }
}

/// The state after consuming `frames` one per frame, oldest first,
/// starting from `s`.
pub open spec fn spec_run(s: ButtonState, frames: Seq<FrameInput>) -> ButtonState
    decreases frames.len(),
{
    if frames.len() == 0 {
        s
    } else {
        spec_run(spec_step(s, frames[0]), frames.drop_first())
    }
}

impl ButtonState {
    /// The state a widget starts in: nothing hovered, armed or clicked.
    pub open spec fn spec_initial() -> ButtonState {
        ButtonState { hovered: false, clicked_in: false, clicked: false }
    }

    /// A fresh state machine with all flags down.
    pub fn new() -> (s: ButtonState)
        ensures
            s == ButtonState::spec_initial(),
    {
        ButtonState { hovered: false, clicked_in: false, clicked: false }
    }

    /// Advance the machine by one frame.
    pub fn update(&mut self, input: FrameInput)
        ensures
            *final(self) == spec_step(*old(self), input),
    {
        let clicked = self.clicked_in && input.released;
        let clicked_in = if self.clicked_in {
            input.hovered && !clicked
        } else {
            input.hovered && input.pressed
        };
        self.hovered = input.hovered;
        self.clicked_in = clicked_in;
        self.clicked = clicked;
    }
}

/// A click can only fire out of an armed state, on a release: whenever a
/// step reports `clicked`, the previous frame's state was `clicked_in` and
/// the button was released this frame.
pub proof fn lemma_clicked_requires_armed(prev: ButtonState, input: FrameInput)
    ensures
        spec_step(prev, input).clicked ==> prev.clicked_in && input.released,
{
}

/// A click is a single-frame pulse: the step that raises `clicked` also
/// disarms the machine, so the following frame never reports a click,
/// whatever its input.
pub proof fn lemma_click_is_single_pulse(prev: ButtonState, input: FrameInput)
    ensures
        spec_step(prev, input).clicked ==> !spec_step(prev, input).clicked_in,
        forall|next: FrameInput|
            spec_step(prev, input).clicked
                ==> !spec_step(spec_step(prev, input), next).clicked,
{
}

/// From the all-flags-down starting state, a press over the widget arms the
/// machine without clicking; a release on a later frame with the pointer
/// still over the widget fires the click and disarms; and the frame after
/// that reports no click, whatever its input.
pub proof fn lemma_press_then_release_clicks(
    s0: ButtonState,
    press: FrameInput,
    release: FrameInput,
)
    requires
        s0 == ButtonState::spec_initial(),
        press.hovered,
        press.pressed,
        release.hovered,
        release.released,
    ensures
        spec_step(s0, press) == (ButtonState { hovered: true, clicked_in: true, clicked: false }),
        spec_step(spec_step(s0, press), release) == (ButtonState {
            hovered: true,
            clicked_in: false,
            clicked: true,
        }),
        forall|next: FrameInput|
            !spec_step(spec_step(spec_step(s0, press), release), next).clicked,
{
}

/// While the machine is unarmed, only a press that happens over the widget
/// can arm it: over any run of frames none of which combines `hovered` with
/// `pressed`, the machine stays unarmed and never reports a click.
pub proof fn lemma_press_outside_never_clicks(s0: ButtonState, frames: Seq<FrameInput>)
    requires
        !s0.clicked_in,
        forall|i: int|
            0 <= i < frames.len() ==> !((#[trigger] frames[i]).hovered && frames[i].pressed),
    ensures
        !spec_run(s0, frames).clicked_in,
        frames.len() > 0 ==> !spec_run(s0, frames).clicked,
    decreases frames.len(),
{
    if frames.len() > 0 {
        let s1 = spec_step(s0, frames[0]);
        let rest = frames.drop_first();
        assert forall|i: int|
            0 <= i < rest.len() implies !((#[trigger] rest[i]).hovered && rest[i].pressed) by {
            assert(rest[i] == frames[i + 1]);
        }
        lemma_press_outside_never_clicks(s1, rest);
    }
}

/// A frame on which the pointer is off the widget and the button is not
/// released disarms the machine without clicking.
pub proof fn lemma_exit_disarms(prev: ButtonState, input: FrameInput)
    requires
        !input.hovered,
        !input.released,
    ensures
        !spec_step(prev, input).clicked_in,
        !spec_step(prev, input).clicked,
{
}

/// Leaving the widget before the release cancels the click: on the frame
/// the pointer exits (button still held) the machine disarms, and for as
/// long as no new press happens over the widget afterwards — in particular
/// over a release that happens outside — no click ever fires.
pub proof fn lemma_exit_cancels_click(
    s0: ButtonState,
    exit: FrameInput,
    rest: Seq<FrameInput>,
)
    requires
        !exit.hovered,
        !exit.released,
        forall|i: int|
            0 <= i < rest.len() ==> !((#[trigger] rest[i]).hovered && rest[i].pressed),
    ensures
        !spec_step(s0, exit).clicked_in,
        !spec_step(s0, exit).clicked,
        !spec_run(spec_step(s0, exit), rest).clicked_in,
        rest.len() > 0 ==> !spec_run(spec_step(s0, exit), rest).clicked,
{
    lemma_exit_disarms(s0, exit);
    lemma_press_outside_never_clicks(spec_step(s0, exit), rest);
}

} // verus!
