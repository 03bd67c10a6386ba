use vstd::prelude::*;
use crate::controls::{direction_of, held_after_key, ButtonState, CameraControlls, Direction, Key};

verus! {

/// A window-system event, reduced to what the viewer decides on.
/// `in_window` tells whether the event belongs to the viewer's window.
#[derive(Clone, Copy, Debug, PartialEq, Eq, Structural)]
pub enum InputEvent {
    /// The mouse moved (a device event; its delta stays with the caller).
    MouseMotion,
    /// A key went down or up.
    Keyboard { in_window: bool, key: Key, state: ButtonState },
    /// The mouse wheel turned (its delta stays with the caller).
    MouseWheel { in_window: bool },
    /// A mouse button went down or up, in any window.
    MouseButton { left: bool, state: ButtonState },
    /// The user asked to close the window.
    CloseRequested { in_window: bool },
    /// The window's drawable area changed size.
    Resized { in_window: bool, width: u32, height: u32 },
    /// The window system asks for a new frame.
    RedrawRequested { in_window: bool },
    /// All pending events have been delivered.
    MainEventsCleared,
    /// Anything else.
    Other,
}

/// What the caller has to do after an event.
#[derive(Clone, Copy, Debug, PartialEq, Eq, Structural)]
pub enum Reaction {
    /// Nothing handled the event.
    Ignored,
    /// The event was handled by the input state alone.
    Handled,
    /// Handled: rotate the camera by the mouse delta.
    Rotate,
    /// Handled: move the camera along its view by the wheel delta.
    Scroll,
    /// Leave the event loop.
    Exit,
    /// Resize the surface.
    Resize { width: u32, height: u32 },
    /// Update the scene and render a frame.
    Redraw,
    /// Ask the window system for a redraw.
    RequestRedraw,
}

/// What the camera controls make of an event.
pub open spec fn control_reaction(ev: InputEvent, mouse_pressed: bool) -> Reaction {
    match ev {
        InputEvent::MouseMotion => if mouse_pressed {
            Reaction::Rotate
        } else {
            Reaction::Ignored
        },
        InputEvent::Keyboard { in_window, key, state } => if in_window && direction_of(key).is_some() {
            Reaction::Handled
        } else {
            Reaction::Ignored
        },
        InputEvent::MouseWheel { in_window } => if in_window {
            Reaction::Scroll
        } else {
            Reaction::Ignored
        },
        _ => Reaction::Ignored,
    }
}

/// The held directions after the camera controls saw an event.
pub open spec fn controls_after(held: Set<Direction>, ev: InputEvent) -> Set<Direction> {
    match ev {
        InputEvent::Keyboard { in_window, key, state } => if in_window {
            held_after_key(held, key, state)
        } else {
            held
        },
        _ => held,
    }
}

/// What the input state makes of an event: the controls first, then the
/// left mouse button, which arms mouse-look.
pub open spec fn input_reaction(ev: InputEvent, mouse_pressed: bool) -> Reaction {
    if control_reaction(ev, mouse_pressed) != Reaction::Ignored {
        control_reaction(ev, mouse_pressed)
    } else {
        match ev {
            InputEvent::MouseButton { left, state } => if left {
                Reaction::Handled
            } else {
                Reaction::Ignored
            },
            _ => Reaction::Ignored,
        }
    }
}

/// Whether the left mouse button is down after an event.
pub open spec fn mouse_after(ev: InputEvent, mouse_pressed: bool) -> bool {
    match ev {
        InputEvent::MouseButton { left, state } => if left {
            state == ButtonState::Pressed
        } else {
            mouse_pressed
        },
        _ => mouse_pressed,
    }
}

/// What the event loop does with an event that the user interface did not
/// capture and the input state did not handle.
pub open spec fn window_reaction(ev: InputEvent) -> Reaction {
    match ev {
        InputEvent::Keyboard { in_window, key, state } => if in_window && key == Key::Escape && state
            == ButtonState::Pressed {
            Reaction::Exit
        } else {
            Reaction::Ignored
        },
        InputEvent::CloseRequested { in_window } => if in_window {
            Reaction::Exit
        } else {
            Reaction::Ignored
        },
        InputEvent::Resized { in_window, width, height } => if in_window {
            Reaction::Resize { width, height }
        } else {
            Reaction::Ignored
        },
        InputEvent::RedrawRequested { in_window } => if in_window {
            Reaction::Redraw
        } else {
            Reaction::Ignored
        },
        InputEvent::MainEventsCleared => Reaction::RequestRedraw,
        _ => Reaction::Ignored,
    }
}

/// The event loop's whole decision on one event.
pub open spec fn loop_reaction(ev: InputEvent, mouse_pressed: bool, ui_captured: bool) -> Reaction {
    if ui_captured {
        Reaction::Ignored
    } else if input_reaction(ev, mouse_pressed) != Reaction::Ignored {
        input_reaction(ev, mouse_pressed)
    } else {
        window_reaction(ev)
    }
}

impl CameraControlls {
    /// Feeds an event to the controls: movement keys in the viewer's window
    /// change what is held; mouse motion while the button is down asks for a
    /// rotation, the wheel in the window for a scroll.
    pub fn process_event(&mut self, ievent: &InputEvent, mouse_pressed: bool) -> (r: Reaction)
        ensures
            r == control_reaction(*ievent, mouse_pressed),
            final(self)@ == controls_after(old(self)@, *ievent),
    {
        match *ievent {
            InputEvent::MouseMotion => if mouse_pressed {
                Reaction::Rotate
            } else {
                Reaction::Ignored
            },
            InputEvent::Keyboard { in_window, key, state } => {
                if in_window && self.proces_keyboard_input(key, state) {
                    Reaction::Handled
                } else {
                    Reaction::Ignored
                }
            },
            InputEvent::MouseWheel { in_window } => if in_window {
                Reaction::Scroll
            } else {
                Reaction::Ignored
            },
            _ => Reaction::Ignored,
        }
    }
}

/// The viewer's input state: the camera controls and whether the left mouse
/// button is down.
#[derive(Clone, Copy, Debug)]
pub struct InputState {
    pub controls: CameraControlls,
    pub mouse_pressed: bool,
}

impl InputState {
    /// No key held, mouse button up.
    pub fn new() -> (r: Self)
        ensures
            r.controls@ == Set::<Direction>::empty(),
            !r.mouse_pressed,
    {
        InputState { controls: CameraControlls::new(), mouse_pressed: false }
    }

    /// Offers an event to the controls, then to the mouse button.
    pub fn input(&mut self, event: &InputEvent) -> (r: Reaction)
        ensures
            r == input_reaction(*event, old(self).mouse_pressed),
            final(self).controls@ == controls_after(old(self).controls@, *event),
            final(self).mouse_pressed == mouse_after(*event, old(self).mouse_pressed),
    {
        let r = self.controls.process_event(event, self.mouse_pressed);
        if r != Reaction::Ignored {
            return r;
        }
        match *event {
            InputEvent::MouseButton { left, state } => if left {
                self.mouse_pressed = state == ButtonState::Pressed;
                Reaction::Handled
            } else {
                Reaction::Ignored
            },
            _ => Reaction::Ignored,
        }
    }

    /// The event loop's decision on one event. An event captured by the user
    /// interface changes nothing; one the input state handles is answered by
    /// it; of the rest, Escape or a close request exits, a resize resizes,
    /// a redraw request renders, and the end of a batch of events asks for
    /// a redraw.
    pub fn handle_event(&mut self, event: &InputEvent, ui_captured: bool) -> (r: Reaction)
        ensures
            r == loop_reaction(*event, old(self).mouse_pressed, ui_captured),
            ui_captured ==> *final(self) == *old(self),
            !ui_captured ==> final(self).controls@ == controls_after(old(self).controls@, *event),
            !ui_captured ==> final(self).mouse_pressed == mouse_after(*event, old(self).mouse_pressed),
    {
        if ui_captured {
            return Reaction::Ignored;
        }
        let handled = self.input(event);
        if handled != Reaction::Ignored {
            return handled;
        }
        match *event {
            InputEvent::Keyboard { in_window, key, state } => if in_window && key == Key::Escape && state
                == ButtonState::Pressed {
                Reaction::Exit
            } else {
                Reaction::Ignored
            },
            InputEvent::CloseRequested { in_window } => if in_window {
                Reaction::Exit
            } else {
                Reaction::Ignored
            },
            InputEvent::Resized { in_window, width, height } => if in_window {
                Reaction::Resize { width, height }
            } else {
                Reaction::Ignored
            },
            InputEvent::RedrawRequested { in_window } => if in_window {
                Reaction::Redraw
            } else {
                Reaction::Ignored
            },
            InputEvent::MainEventsCleared => Reaction::RequestRedraw,
            _ => Reaction::Ignored,
        }
    }
}

} // verus!
