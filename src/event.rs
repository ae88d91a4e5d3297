use vstd::prelude::*;
use crate::keys::{Modifier, VirtualKey};

verus! {

/// Whether a key or button went down or up.
#[derive(Clone, Copy, Debug, PartialEq, Eq, Structural)]
pub enum ElementState {
    Pressed,
    Released,
}

/// A mouse button; buttons past the first three are `Other`.
#[derive(Clone, Copy, Debug, PartialEq, Eq, Structural)]
pub enum MouseButton {
    Left,
    Right,
    Middle,
    Other,
}

/// The phase of a scroll gesture.
#[derive(Clone, Copy, Debug, PartialEq, Eq, Structural)]
pub enum TouchPhase {
    Started,
    Moved,
    Ended,
    Cancelled,
}

/// The vertical motion of a scroll event, in lines or in pixels. The amount
/// is carried as the bit pattern of its `f32` value: the bridge stores and
/// clears it and never computes with it.
#[derive(Clone, Copy, Debug, PartialEq, Eq, Structural)]
pub enum ScrollDelta {
    LineDelta { y_bits: u32 },
    PixelDelta { y_bits: u32 },
}

/// A window-system event, as far as the bridge reads it.
#[derive(Clone, Copy, Debug, PartialEq, Eq, Structural)]
pub enum Event {
    KeyboardInput { state: ElementState, key: Option<VirtualKey> },
    MouseMoved { x: i32, y: i32 },
    MouseInput { state: ElementState, button: MouseButton },
    MouseWheel { delta: ScrollDelta, phase: TouchPhase },
    ReceivedCharacter(char),
    Other,
}

/// What an event asks of the UI context right away.
#[derive(Clone, Copy, Debug, PartialEq, Eq, Structural)]
pub enum UiAction {
    /// Set the key slot `index` down or up.
    SetKey { index: u8, pressed: bool },
    /// Set a modifier flag.
    SetModifier { modifier: Modifier, pressed: bool },
    /// Queue a character of text input.
    AddCharacter(char),
    /// Nothing to forward.
    Nothing,
}

} // verus!
