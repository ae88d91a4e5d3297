use vstd::prelude::*;
use crate::event::{ElementState, Event, MouseButton, ScrollDelta, TouchPhase, UiAction};
use crate::keys::{
    VirtualKey, index_of_role, key_index, modifier_of, modifier_of_key, role_of, role_of_key,
};

verus! {

/// The three tracked mouse buttons, each as its latest press or release left it.
#[derive(Clone, Copy, Debug, PartialEq, Eq, Structural)]
pub struct ButtonStates {
    pub left: bool,
    pub middle: bool,
    pub right: bool,
}

/// The input the bridge holds between frames.
#[derive(Clone, Copy, Debug, PartialEq, Eq, Structural)]
pub struct InputState {
    /// Last cursor position, in physical pixels.
    pub mouse_x: i32,
    pub mouse_y: i32,
    pub buttons: ButtonStates,
    /// Latest vertical wheel sample since the last flush, as `f32` bits; 0 is 0.0.
    pub wheel_bits: u32,
    /// Monotonic clock reading, in nanoseconds, at the start of the last frame.
    pub last_frame_nanos: u64,
}

/// What a flush hands to the UI context.
#[derive(Clone, Copy, Debug, PartialEq, Eq)]
pub struct MouseReport {
    /// Cursor position in physical pixels, still to be divided by the display scale.
    pub x: i32,
    pub y: i32,
    /// Button slots in the UI's order: left, right, middle, then two unused slots.
    pub buttons: [bool; 5],
    /// Wheel motion as `f32` bits, still to be divided by the vertical scale.
    pub wheel_bits: u32,
}

/// The action a key event asks for: its slot for a mapped key, its flag for a
/// modifier key, nothing otherwise.
pub open spec fn key_action(key: Option<VirtualKey>, pressed: bool) -> UiAction {
    match key {
        Some(k) => match role_of_key(k) {
            Some(r) => UiAction::SetKey { index: index_of_role(r) as u8, pressed },
            None => match modifier_of_key(k) {
                Some(m) => UiAction::SetModifier { modifier: m, pressed },
                None => UiAction::Nothing,
            },
        },
        None => UiAction::Nothing,
    }
}

/// The vertical amount of a scroll delta, whatever its unit.
pub open spec fn scroll_amount(d: ScrollDelta) -> u32 {
    match d {
        ScrollDelta::LineDelta { y_bits } => y_bits,
        ScrollDelta::PixelDelta { y_bits } => y_bits,
    }
}

/// Nanoseconds from clock reading `last` to `now`; 0 for a reading earlier than `last`.
pub open spec fn elapsed(last: u64, now: u64) -> u64 {
    if now >= last {
        (now - last) as u64
    } else {
        0
    }
}

/// The frame-start reading kept after a frame begins at `now`: the later of the two.
pub open spec fn clock_after(last: u64, now: u64) -> u64 {
    if now >= last {
        now
    } else {
        last
    }
}

impl ButtonStates {
    /// The states after `b` went down (`pressed`) or up; other buttons change nothing.
    pub open spec fn set(self, b: MouseButton, pressed: bool) -> ButtonStates {
        match b {
            MouseButton::Left => ButtonStates { left: pressed, ..self },
            MouseButton::Middle => ButtonStates { middle: pressed, ..self },
            MouseButton::Right => ButtonStates { right: pressed, ..self },
            MouseButton::Other => self,
        }
    }
}

impl InputState {
    /// The state after event `e`, and the action it forwards to the UI context.
    pub open spec fn next(self, e: Event) -> (InputState, UiAction) {
        match e {
            Event::KeyboardInput { state, key } => (
                self,
                key_action(key, state == ElementState::Pressed),
            ),
            Event::MouseMoved { x, y } => (InputState { mouse_x: x, mouse_y: y, ..self }, UiAction::Nothing),
            Event::MouseInput { state, button } => (
                InputState {
                    buttons: self.buttons.set(button, state == ElementState::Pressed),
                    ..self
                },
                UiAction::Nothing,
            ),
            Event::MouseWheel { delta, phase } => if phase == TouchPhase::Moved {
                (InputState { wheel_bits: scroll_amount(delta), ..self }, UiAction::Nothing)
            } else {
                (self, UiAction::Nothing)
            },
            Event::ReceivedCharacter(c) => (self, UiAction::AddCharacter(c)),
            Event::Other => (self, UiAction::Nothing),
        }
    }

    /// Neutral input, with the clock reading `now_nanos` as the last frame's start.
    pub fn new(now_nanos: u64) -> (s: InputState)
        ensures
            s.mouse_x == 0,
            s.mouse_y == 0,
            s.buttons == (ButtonStates { left: false, middle: false, right: false }),
            s.wheel_bits == 0,
            s.last_frame_nanos == now_nanos,
    {
        InputState {
            mouse_x: 0,
            mouse_y: 0,
            buttons: ButtonStates { left: false, middle: false, right: false },
            wheel_bits: 0,
            last_frame_nanos: now_nanos,
        }
    }

    /// Takes in one window-system event: mouse events update the held state,
    /// key and text events come back as the action to forward.
    pub fn handle_event(&mut self, e: &Event) -> (a: UiAction)
        ensures
            (*final(self), a) == old(self).next(*e),
    {
        match *e {
            Event::KeyboardInput { state, key } => {
                let pressed = state == ElementState::Pressed;
                match key {
                    Some(k) => match role_of(k) {
                        Some(r) => UiAction::SetKey { index: key_index(r), pressed },
                        None => match modifier_of(k) {
                            Some(m) => UiAction::SetModifier { modifier: m, pressed },
                            None => UiAction::Nothing,
                        },
                    },
                    None => UiAction::Nothing,
                }
            },
            Event::MouseMoved { x, y } => {
                self.mouse_x = x;
                self.mouse_y = y;
                UiAction::Nothing
            },
            Event::MouseInput { state, button } => {
                let pressed = state == ElementState::Pressed;
                match button {
                    MouseButton::Left => self.buttons.left = pressed,
                    MouseButton::Middle => self.buttons.middle = pressed,
                    MouseButton::Right => self.buttons.right = pressed,
                    MouseButton::Other => {},
                }
                UiAction::Nothing
            },
            Event::MouseWheel { delta, phase } => {
                if phase == TouchPhase::Moved {
                    self.wheel_bits = match delta {
                        ScrollDelta::LineDelta { y_bits } => y_bits,
                        ScrollDelta::PixelDelta { y_bits } => y_bits,
                    };
                }
                UiAction::Nothing
            },
            Event::ReceivedCharacter(c) => UiAction::AddCharacter(c),
            Event::Other => UiAction::Nothing,
        }
    }

    /// Hands the mouse state to the UI context and clears the wheel sample.
    pub fn flush_mouse(&mut self) -> (r: MouseReport)
        ensures
            r.x == old(self).mouse_x,
            r.y == old(self).mouse_y,
            r.buttons@ == seq![
                old(self).buttons.left,
                old(self).buttons.right,
                old(self).buttons.middle,
                false,
                false,
            ],
            r.wheel_bits == old(self).wheel_bits,
            *final(self) == (InputState { wheel_bits: 0, ..*old(self) }),
    {
        let r = MouseReport {
            x: self.mouse_x,
            y: self.mouse_y,
            buttons: [self.buttons.left, self.buttons.right, self.buttons.middle, false, false],
            wheel_bits: self.wheel_bits,
        };
        self.wheel_bits = 0;
        r
    }

    /// Starts a frame at clock reading `now_nanos` and returns the nanoseconds
    /// since the last frame began. The stored reading never moves back: a
    /// reading earlier than it gives 0 and leaves it as it was.
    pub fn begin_frame(&mut self, now_nanos: u64) -> (delta: u64)
        ensures
            delta == elapsed(old(self).last_frame_nanos, now_nanos),
            final(self).last_frame_nanos == clock_after(old(self).last_frame_nanos, now_nanos),
            final(self).mouse_x == old(self).mouse_x,
            final(self).mouse_y == old(self).mouse_y,
            final(self).buttons == old(self).buttons,
            final(self).wheel_bits == old(self).wheel_bits,
    {
        if now_nanos >= self.last_frame_nanos {
            let delta = now_nanos - self.last_frame_nanos;
            self.last_frame_nanos = now_nanos;
            delta
        } else {
            0
        }
    }
}

} // verus!
