use vstd::prelude::*;

use crate::render::{clamp_extent, Viewport};

verus! {

/// A pointer button, as far as camera control cares.
#[derive(Debug, Clone, Copy, PartialEq, Eq)]
pub enum MouseButton {
    Left,
    Middle,
    Other,
}

/// An event delivered by the windowing system to the render loop. Pointer and
/// scroll amounts stay with the caller: only the kind of event matters here.
#[derive(Debug, Clone, Copy, PartialEq, Eq)]
pub enum InputEvent {
    /// The user asked to close the window.
    CloseRequested,
    /// The window now measures `width` x `height` pixels.
    Resized { width: u32, height: u32 },
    /// A button was pressed or released.
    Button { button: MouseButton, pressed: bool },
    /// The scroll wheel or touchpad scrolled.
    Scroll,
    /// The pointer moved.
    PointerMotion,
    /// All pending events were handled: time to draw a picture.
    FrameDue,
}

/// What the render loop does in answer to an event.
#[derive(Debug, Clone, Copy, PartialEq, Eq)]
pub enum Action {
    /// Leave the render loop.
    Exit,
    /// Apply this viewport and the aspect ratio it gives before drawing again.
    Resize(Viewport),
    /// Dolly the camera by the scroll amount.
    Zoom,
    /// Orbit the camera by the pointer motion.
    Orbit,
    /// Pan the camera by the pointer motion.
    Pan,
    /// Draw one picture.
    Render,
    /// Nothing to do.
    Ignore,
}

/// Which camera-control buttons are held down.
#[derive(Debug, Clone, Copy, PartialEq, Eq)]
pub struct InputState {
    pub left_pressed: bool,
    pub middle_pressed: bool,
}

impl InputState {
    /// No button held.
    pub fn new() -> (r: InputState)
        ensures
            !r.left_pressed,
            !r.middle_pressed,
    {
        InputState { left_pressed: false, middle_pressed: false }
    }

    /// Updates the button flags for `event` and says what to do; `running` is
    /// whether the viewer still wants pictures. A drag with the left button
    /// orbits, with the middle button (and not the left) pans; scrolling zooms.
    pub fn handle(&mut self, event: InputEvent, running: bool) -> (a: Action)
        ensures
            event is Button ==> a == Action::Ignore && final(self).left_pressed == (
            if event->button == MouseButton::Left {
                event->pressed
            } else {
                old(self).left_pressed
            }) && final(self).middle_pressed == (if event->button == MouseButton::Middle {
                event->pressed
            } else {
                old(self).middle_pressed
            }),
            !(event is Button) ==> *final(self) == *old(self),
            event is CloseRequested ==> a == Action::Exit,
            event is Resized ==> a == Action::Resize(
                Viewport {
                    width: clamp_extent(event->width),
                    height: clamp_extent(event->height),
                },
            ),
            event is Scroll ==> a == Action::Zoom,
            event is PointerMotion ==> a == (if old(self).left_pressed {
                Action::Orbit
            } else if old(self).middle_pressed {
                Action::Pan
            } else {
                Action::Ignore
            }),
            event is FrameDue ==> a == (if running {
                Action::Render
            } else {
                Action::Exit
            }),
    {
        match event {
            InputEvent::CloseRequested => Action::Exit,
            InputEvent::Resized { width, height } => Action::Resize(
                Viewport::for_window(width, height),
            ),
            InputEvent::Button { button, pressed } => {
                match button {
                    MouseButton::Left => {
                        self.left_pressed = pressed;
                    },
                    MouseButton::Middle => {
                        self.middle_pressed = pressed;
                    },
                    MouseButton::Other => {},
                }
                Action::Ignore
            },
            InputEvent::Scroll => Action::Zoom,
            InputEvent::PointerMotion => {
                if self.left_pressed {
                    Action::Orbit
                } else if self.middle_pressed {
                    Action::Pan
                } else {
                    Action::Ignore
                }
            },
            InputEvent::FrameDue => {
                if running {
                    Action::Render
                } else {
                    Action::Exit
                }
            },
        }
    }
}

} // verus!
