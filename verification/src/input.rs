use vstd::prelude::*;
use crate::camera::CameraMovement;

verus! {

/// The keys that the scene listens to; every other key is `Other`.
#[derive(Clone, Copy, Debug, PartialEq, Eq, Structural)]
pub enum Key {
    Escape,
    Tab,
    W,
    A,
    S,
    D,
    Other,
}

/// What happened to a key.
#[derive(Clone, Copy, Debug, PartialEq, Eq, Structural)]
pub enum KeyAction {
    Press,
    Release,
    Repeat,
}

/// What the scene does on a key event.
#[derive(Clone, Copy, Debug, PartialEq, Eq, Structural)]
pub enum Command {
    /// Nothing.
    Ignore,
    /// Close the window.
    Close,
    /// Switch between filled polygons and outlines.
    ToggleWireframe,
    /// Hand the camera a movement key that went down or came up.
    Move { direction: CameraMovement, pressed: bool },
}

/// The direction that a key moves the camera in, if it is a movement key.
pub open spec fn spec_key_direction(key: Key) -> Option<CameraMovement> {
    match key {
        Key::W => Some(CameraMovement::Forward),
        Key::S => Some(CameraMovement::Backward),
        Key::A => Some(CameraMovement::Left),
        Key::D => Some(CameraMovement::Right),
        _ => None,
    }
}

/// The command of a key event: escape and tab act when pressed, the four
/// movement keys act when pressed and when released, and a key that repeats
/// does nothing.
pub open spec fn spec_key_command(key: Key, action: KeyAction) -> Command {
    if action is Repeat {
        Command::Ignore
    } else if key is Escape {
        if action is Press {
            Command::Close
        } else {
            Command::Ignore
        }
    } else if key is Tab {
        if action is Press {
            Command::ToggleWireframe
        } else {
            Command::Ignore
        }
    } else {
        match spec_key_direction(key) {
            Some(direction) => Command::Move { direction, pressed: action is Press },
            None => Command::Ignore,
        }
    }
}

/// The direction that a key moves the camera in, if it is a movement key.
pub fn key_direction(key: Key) -> (r: Option<CameraMovement>)
    ensures
        r == spec_key_direction(key),
{
    match key {
        Key::W => Some(CameraMovement::Forward),
        Key::S => Some(CameraMovement::Backward),
        Key::A => Some(CameraMovement::Left),
        Key::D => Some(CameraMovement::Right),
        _ => None,
    }
}

/// The command of a key event.
pub fn key_command(key: Key, action: KeyAction) -> (r: Command)
    ensures
        r == spec_key_command(key, action),
{
    let pressed = match action {
        KeyAction::Press => true,
        KeyAction::Release => false,
        KeyAction::Repeat => {
            return Command::Ignore;
        },
    };
    match key {
        Key::Escape => if pressed {
            Command::Close
        } else {
            Command::Ignore
        },
        Key::Tab => if pressed {
            Command::ToggleWireframe
        } else {
            Command::Ignore
        },
        _ => match key_direction(key) {
            Some(direction) => Command::Move { direction, pressed },
            None => Command::Ignore,
        },
    }
}

/// What the pointer did: the look button went down or came up, or the
/// cursor moved.
#[derive(Clone, Copy, Debug, PartialEq, Eq, Structural)]
pub enum PointerEvent {
    ButtonPressed,
    ButtonReleased,
    Moved,
}

/// What the scene does with the cursor position of a pointer event.
#[derive(Clone, Copy, Debug, PartialEq, Eq, Structural)]
pub enum PointerAction {
    /// Nothing: the position is not even remembered.
    Ignore,
    /// Remember the position as the reference of the drag that began.
    Anchor,
    /// Turn the camera by the offset from the remembered position, then
    /// remember the new one.
    Look,
}

/// The state of looking around with the mouse: whether the look button is
/// held, and whether the next cursor position starts a drag rather than
/// continues one.
#[derive(Clone, Copy, Debug, PartialEq, Eq, Structural)]
pub struct MouseLook {
    pub dragging: bool,
    pub first: bool,
}

impl MouseLook {
    /// The state after an event.
    pub open spec fn next(self, event: PointerEvent) -> MouseLook {
        match event {
            PointerEvent::ButtonPressed => MouseLook { dragging: true, first: true },
            PointerEvent::ButtonReleased => MouseLook { dragging: false, first: self.first },
            PointerEvent::Moved => if self.dragging {
                MouseLook { dragging: true, first: false }
            } else {
                self
            },
        }
    }

    /// What an event asks for: only a cursor movement during a drag asks
    /// for anything, the first one of the drag for an anchor, the later ones
    /// for a look.
    pub open spec fn action(self, event: PointerEvent) -> PointerAction {
        if event is Moved && self.dragging {
            if self.first {
                PointerAction::Anchor
            } else {
                PointerAction::Look
            }
        } else {
            PointerAction::Ignore
        }
    }

    /// A remembered position exists that a look can be measured from.
    pub open spec fn anchored(self) -> bool {
        self.dragging && !self.first
    }

    /// The state before any event: the button is up, and the first cursor
    /// position of a drag will anchor it.
    pub fn new() -> (r: MouseLook)
        ensures
            !r.dragging,
            r.first,
    {
        MouseLook { dragging: false, first: true }
    }

    /// Takes an event and says what to do with its cursor position.
    pub fn step(&mut self, event: PointerEvent) -> (r: PointerAction)
        ensures
            *final(self) == old(self).next(event),
            r == old(self).action(event),
    {
        match event {
            PointerEvent::ButtonPressed => {
                self.dragging = true;
                self.first = true;
                PointerAction::Ignore
            },
            PointerEvent::ButtonReleased => {
                self.dragging = false;
                PointerAction::Ignore
            },
            PointerEvent::Moved => {
                if !self.dragging {
                    PointerAction::Ignore
                } else if self.first {
                    self.first = false;
                    PointerAction::Anchor
                } else {
                    PointerAction::Look
                }
            },
        }
    }
}

/// A look is asked for only where a position was remembered during the
/// drag that is under way, and a drag is anchored by nothing but its own
/// first cursor movement.
pub proof fn lemma_look_needs_anchor(state: MouseLook, event: PointerEvent)
    ensures
        state.action(event) is Look <==> event is Moved && state.anchored(),
        state.action(event) is Anchor ==> state.next(event).anchored(),
        state.next(event).anchored() && !state.anchored() ==> state.action(event) is Anchor,
        event is ButtonPressed ==> !state.next(event).anchored(),
{
}

} // verus!
