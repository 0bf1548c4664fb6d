//! The demo's state and its transition rules: what each input event does to
//! the background color and the active channel, and what must be redrawn
//! afterwards.

use vstd::prelude::*;

verus! {

/// Amount by which one key press raises or lowers the active channel.
pub const COLOR_STEP: u8 = 5;

/// Number of color channels (red, green, blue).
pub const CHANNEL_COUNT: usize = 3;

/// An input the demo reacts to, once the keyboard has been decoded.
#[derive(Clone, Copy, Debug, PartialEq, Eq, Structural)]
pub enum InputEvent {
    /// Raise the active channel by one step (the up arrow).
    RaiseChannel,
    /// Lower the active channel by one step (the down arrow).
    LowerChannel,
    /// Make the next channel active, wrapping after blue (the right arrow).
    NextChannel,
    /// Make the previous channel active, wrapping before red (the left arrow).
    PrevChannel,
    /// Restore the background color to black (the space key).
    Reset,
    /// Leave the demo (escape, the Q key, or closing the window).
    Quit,
    /// Any event the demo does not react to.
    Other,
}

/// What the event loop must do after a state transition.
#[derive(Clone, Copy, Debug, PartialEq, Eq, Structural)]
pub enum Action {
    /// Clear the window to the background color, then repaint the swatch.
    Redraw,
    /// Repaint only the indicator swatch.
    RefreshIndicator,
    /// Leave the event loop.
    Exit,
    /// Nothing changed on screen.
    Idle,
}

/// The whole state of the demo: a color triple and the index of the channel
/// the arrow keys currently edit.
#[derive(Clone, Copy, Debug, PartialEq, Eq, Structural)]
pub struct ColorState {
    pub red: u8,
    pub green: u8,
    pub blue: u8,
    /// Which channel is being edited: 0 is red, 1 is green, 2 is blue.
    pub active: usize,
}

/// Raising clamps at 255 rather than wrapping.
pub open spec fn clamp_up(v: u8) -> u8 {
    if v + COLOR_STEP > 255 {
        255u8
    } else {
        (v + COLOR_STEP) as u8
    }
}

/// Lowering clamps at 0 rather than wrapping.
pub open spec fn clamp_down(v: u8) -> u8 {
    if v < COLOR_STEP {
        0u8
    } else {
        (v - COLOR_STEP) as u8
    }
}

/// The given state with its active channel set to `v`.
pub open spec fn with_active_channel(s: ColorState, v: u8) -> ColorState {
    if s.active == 0 {
        ColorState { red: v, green: s.green, blue: s.blue, active: s.active }
    } else if s.active == 1 {
        ColorState { red: s.red, green: v, blue: s.blue, active: s.active }
    } else {
        ColorState { red: s.red, green: s.green, blue: v, active: s.active }
    }
}

/// The state an event leads to.
pub open spec fn step_state(s: ColorState, event: InputEvent) -> ColorState {
    match event {
        InputEvent::RaiseChannel => with_active_channel(s, clamp_up(s.channel(s.active as int))),
        InputEvent::LowerChannel => with_active_channel(s, clamp_down(s.channel(s.active as int))),
        InputEvent::NextChannel => ColorState {
            red: s.red,
            green: s.green,
            blue: s.blue,
            active: if s.active < 2 { (s.active + 1) as usize } else { 0usize },
        },
        InputEvent::PrevChannel => ColorState {
            red: s.red,
            green: s.green,
            blue: s.blue,
            active: if s.active > 0 { (s.active - 1) as usize } else { 2usize },
        },
        InputEvent::Reset => ColorState { red: 0u8, green: 0u8, blue: 0u8, active: s.active },
        InputEvent::Quit => s,
        InputEvent::Other => s,
    }
}

/// The redrawing an event calls for: a full redraw when the color changed,
/// a swatch repaint when only the active channel moved, exit on quit.
pub open spec fn step_action(s: ColorState, event: InputEvent) -> Action {
    match event {
        InputEvent::RaiseChannel => if s.channel(s.active as int) < 255 {
            Action::Redraw
        } else {
            Action::Idle
        },
        InputEvent::LowerChannel => if s.channel(s.active as int) > 0 {
            Action::Redraw
        } else {
            Action::Idle
        },
        InputEvent::NextChannel => Action::RefreshIndicator,
        InputEvent::PrevChannel => Action::RefreshIndicator,
        InputEvent::Reset => Action::Redraw,
        InputEvent::Quit => Action::Exit,
        InputEvent::Other => Action::Idle,
    }
}

impl ColorState {
    /// The active-channel index always names one of the three channels.
    pub open spec fn wf(self) -> bool {
        self.active < CHANNEL_COUNT
    }

    /// The value of channel `i`: 0 is red, 1 is green, 2 is blue.
    pub open spec fn channel(self, i: int) -> u8 {
        if i == 0 {
            self.red
        } else if i == 1 {
            self.green
        } else {
            self.blue
        }
    }

    /// All three channels are zero.
    pub open spec fn is_black(self) -> bool {
        self.red == 0 && self.green == 0 && self.blue == 0
    }

    /// The demo starts black, editing the red channel.
    pub fn new() -> (s: Self)
        ensures
            s.wf(),
            s.is_black(),
            s.active == 0,
    {
        ColorState { red: 0, green: 0, blue: 0, active: 0 }
    }

    /// The value of the channel currently being edited.
    pub fn active_value(&self) -> (v: u8)
        requires
            self.wf(),
        ensures
            v == self.channel(self.active as int),
    {
        if self.active == 0 {
            self.red
        } else if self.active == 1 {
            self.green
        } else {
            self.blue
        }
    }

    /// Set the channel currently being edited to `v`.
    fn set_active_value(&mut self, v: u8)
        requires
            old(self).wf(),
        ensures
            *final(self) == with_active_channel(*old(self), v),
    {
        if self.active == 0 {
            self.red = v;
        } else if self.active == 1 {
            self.green = v;
        } else {
            self.blue = v;
        }
    }

    /// Apply one input event and say what the event loop must do next.
    pub fn handle_event(&mut self, event: InputEvent) -> (action: Action)
        requires
            old(self).wf(),
        ensures
            *final(self) == step_state(*old(self), event),
            action == step_action(*old(self), event),
            final(self).wf(),
    {
        match event {
            InputEvent::RaiseChannel => {
                let v: u8 = self.active_value();
                if v < 255 {
                    let raised: u8 = if v > 255 - COLOR_STEP {
                        255
                    } else {
                        v + COLOR_STEP
                    };
                    self.set_active_value(raised);
                    Action::Redraw
                } else {
                    Action::Idle
                }
            },
            InputEvent::LowerChannel => {
                let v: u8 = self.active_value();
                if v > 0 {
                    let lowered: u8 = if v < COLOR_STEP {
                        0
                    } else {
                        v - COLOR_STEP
                    };
                    self.set_active_value(lowered);
                    Action::Redraw
                } else {
                    Action::Idle
                }
            },
            InputEvent::NextChannel => {
                self.active = if self.active < 2 {
                    self.active + 1
                } else {
                    0
                };
                Action::RefreshIndicator
            },
            InputEvent::PrevChannel => {
                self.active = if self.active > 0 {
                    self.active - 1
                } else {
                    2
                };
                Action::RefreshIndicator
            },
            InputEvent::Reset => {
                self.red = 0;
                self.green = 0;
                self.blue = 0;
                Action::Redraw
            },
            InputEvent::Quit => Action::Exit,
            InputEvent::Other => Action::Idle,
        }
    }
}

/// The state a whole sequence of events leads to, applied front to back.
pub open spec fn run_events(s: ColorState, events: Seq<InputEvent>) -> ColorState
    decreases events.len(),
{
    if events.len() == 0 {
        s
    } else {
        run_events(step_state(s, events[0]), events.drop_first())
    }
}

/// Law: one event takes a well-formed state to a well-formed state.
pub proof fn lemma_step_preserves_wf(s: ColorState, event: InputEvent)
    requires
        s.wf(),
    ensures
        step_state(s, event).wf(),
{
}

/// Law: under any sequence of events the active-channel index stays one of
/// the three channels, and every channel keeps a byte value in [0, 255].
pub proof fn lemma_events_preserve_wf(s: ColorState, events: Seq<InputEvent>)
    requires
        s.wf(),
    ensures
        run_events(s, events).wf(),
        0 <= run_events(s, events).red <= 255,
        0 <= run_events(s, events).green <= 255,
        0 <= run_events(s, events).blue <= 255,
    decreases events.len(),
{
    if events.len() > 0 {
        lemma_step_preserves_wf(s, events[0]);
        lemma_events_preserve_wf(step_state(s, events[0]), events.drop_first());
    }
}

/// Law: raising and lowering clamp at the byte bounds rather than wrapping:
/// a raised channel never falls, a lowered one never rises, and each moves by
/// exactly one step away from its bound.
pub proof fn lemma_clamp_no_wrap(v: u8)
    ensures
        v <= clamp_up(v) <= 255,
        0 <= clamp_down(v) <= v,
        v + COLOR_STEP <= 255 ==> clamp_up(v) == v + COLOR_STEP,
        v >= COLOR_STEP ==> clamp_down(v) == v - COLOR_STEP,
{
}

/// Law: a reset event restores the color triple to black and keeps the
/// active channel.
pub proof fn lemma_reset_restores_black(s: ColorState)
    ensures
        step_state(s, InputEvent::Reset).is_black(),
        step_state(s, InputEvent::Reset).active == s.active,
{
}

/// Law: a quit event always asks the event loop to exit and changes nothing,
/// whatever the state.
pub proof fn lemma_quit_exits(s: ColorState)
    ensures
        step_action(s, InputEvent::Quit) == Action::Exit,
        step_state(s, InputEvent::Quit) == s,
{
}

} // verus!
