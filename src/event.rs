use vstd::prelude::*;

verus! {

/// A pointer position in logical pixels, relative to the window.
#[derive(Clone, Copy, PartialEq, Eq, Structural, Debug)]
pub struct Position {
    pub x: i32,
    pub y: i32,
}

/// A mouse button together with where it was pressed or released.
#[derive(Clone, Copy, PartialEq, Eq, Structural, Debug)]
pub struct Click {
    pub button: u8,
    pub position: Position,
}

/// The events a guest's handler receives: a closed set, each variant handled
/// explicitly by every consumer.
#[derive(Clone, Copy, PartialEq, Eq, Structural, Debug)]
pub enum Event {
    Close,
    KeyDown(u32),
    KeyUp(u32),
    ClickDown(Click),
    ClickUp(Click),
    Move(Position),
}

/// A native window event, as the UI thread observes it, in plain values.
#[derive(Clone, Copy, PartialEq, Eq, Structural, Debug)]
pub enum NativeInput {
    /// The environment asks for the window to be closed.
    CloseRequested,
    /// A key changed state. `text` is the first character the key produced,
    /// if it produced any.
    Key { pressed: bool, repeat: bool, text: Option<char> },
    /// A mouse button changed state at a position.
    MouseButton { pressed: bool, button: u8, position: Position },
    /// The pointer moved to a position.
    CursorMoved { position: Position },
    /// Anything the windowing capability does not forward.
    Other,
}

/// The guest event that a native event becomes, if any.
///
/// Key auto-repeats are not forwarded. A key is identified to the guest by the
/// code point of the character it produced; a key that produced no character
/// (a modifier, an arrow) has no such code, and is deliberately not forwarded.
pub open spec fn normalized(input: NativeInput) -> Option<Event> {
    match input {
        NativeInput::CloseRequested => Some(Event::Close),
        NativeInput::Key { pressed, repeat, text } => {
            if repeat {
                None
            } else {
                match text {
                    Some(c) => if pressed {
                        Some(Event::KeyDown(c as u32))
                    } else {
                        Some(Event::KeyUp(c as u32))
                    },
                    None => None,
                }
            }
        },
        NativeInput::MouseButton { pressed, button, position } => {
            let click = Click { button, position };
            if pressed {
                Some(Event::ClickDown(click))
            } else {
                Some(Event::ClickUp(click))
            }
        },
        NativeInput::CursorMoved { position } => Some(Event::Move(position)),
        NativeInput::Other => None,
    }
}

/// Translates a native event into the guest's event representation.
pub fn normalize(input: NativeInput) -> (r: Option<Event>)
    ensures
        r == normalized(input),
{
    match input {
        NativeInput::CloseRequested => Some(Event::Close),
        NativeInput::Key { pressed, repeat, text } => {
            if repeat {
                None
            } else {
                match text {
                    Some(c) => if pressed {
                        Some(Event::KeyDown(c as u32))
                    } else {
                        Some(Event::KeyUp(c as u32))
                    },
                    None => None,
                }
            }
        },
        NativeInput::MouseButton { pressed, button, position } => {
            let click = Click { button, position };
            if pressed {
                Some(Event::ClickDown(click))
            } else {
                Some(Event::ClickUp(click))
            }
        },
        NativeInput::CursorMoved { position } => Some(Event::Move(position)),
        NativeInput::Other => None,
    }
}

} // verus!
