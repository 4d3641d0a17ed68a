//! What the application reacts to, and how.
//!
//! The window system reports; [`react`] decides; the application does what
//! was decided and waits for the next report.

use vstd::prelude::*;

verus! {

/// What the parts of the application tell its event loop.
#[derive(Debug, Clone, Copy, PartialEq, Eq, Structural)]
pub enum PomarinEvent {
    SomeEvent,
    /// The menu wants to be drawn again.
    EguiRequestRedraw,
    /// The application is to end.
    CloseApp,
}

/// What the window system reports, as far as the application reacts to it.
#[derive(Debug, Clone, Copy, PartialEq, Eq, Structural)]
pub enum Signal {
    /// The window of the application is asked to close.
    CloseRequested,
    /// The window of the application has another size, in pixels.
    Resized { width: u32, height: u32 },
    /// A part of the application tells something.
    User(PomarinEvent),
    /// All pending events were handled.
    MainEventsCleared,
    /// The window of the application has to be drawn.
    RedrawRequested,
    /// Anything else, and anything about another window.
    Other,
}

/// What the application does about a report.
#[derive(Debug, Clone, Copy, PartialEq, Eq, Structural)]
pub enum Reaction {
    /// Leave the event loop.
    Exit,
    /// Make the depth texture anew; and, where `configure` is set, take the
    /// size for the surface and configure the surface with it.
    Resize { width: u32, height: u32, configure: bool },
    /// Ask the window system for a redraw.
    RequestRedraw,
    /// Draw a frame: the scene, and the menu above it.
    Draw,
    /// Go on waiting.
    Nothing,
}

/// Whether a surface can have this size: neither side is zero.
pub open spec fn spec_is_drawable(width: u32, height: u32) -> bool {
    width > 0 && height > 0
}

/// Whether a surface can have this size.
#[verifier::when_used_as_spec(spec_is_drawable)]
pub fn is_drawable(width: u32, height: u32) -> (drawable: bool)
    ensures
        drawable == spec_is_drawable(width, height),
{
    width > 0 && height > 0
}

/// What the application does about a report.
pub open spec fn reaction(signal: Signal) -> Reaction {
    match signal {
        Signal::CloseRequested => Reaction::Exit,
        Signal::Resized { width, height } => Reaction::Resize {
            width,
            height,
            configure: spec_is_drawable(width, height),
        },
        Signal::User(PomarinEvent::SomeEvent) => Reaction::Nothing,
        Signal::User(PomarinEvent::EguiRequestRedraw) => Reaction::RequestRedraw,
        Signal::User(PomarinEvent::CloseApp) => Reaction::Exit,
        Signal::MainEventsCleared => Reaction::RequestRedraw,
        Signal::RedrawRequested => Reaction::Draw,
        Signal::Other => Reaction::Nothing,
    }
}

/// Decides what to do about a report.
pub fn react(signal: Signal) -> (decided: Reaction)
    ensures
        decided == reaction(signal),
{
    match signal {
        Signal::CloseRequested => Reaction::Exit,
        Signal::Resized { width, height } => Reaction::Resize {
            width,
            height,
            configure: is_drawable(width, height),
        },
        Signal::User(event) => match event {
            PomarinEvent::SomeEvent => Reaction::Nothing,
            PomarinEvent::EguiRequestRedraw => Reaction::RequestRedraw,
            PomarinEvent::CloseApp => Reaction::Exit,
        },
        Signal::MainEventsCleared => Reaction::RequestRedraw,
        Signal::RedrawRequested => Reaction::Draw,
        Signal::Other => Reaction::Nothing,
    }
}

} // verus!
