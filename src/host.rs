//! Dispatch of host window events: what the event loop does with each event,
//! given whether the scene exists yet.

use vstd::prelude::*;

verus! {

/// An event the host delivered, as far as dispatch is concerned.
#[derive(Clone, Copy, Debug, PartialEq, Eq, Structural)]
pub enum HostEvent {
    /// The event on which the surface is created (see `surface::start_condition`).
    Start,
    /// The application was suspended.
    Suspended,
    /// The window was resized.
    Resized,
    /// The window was asked to close, or Escape was pressed.
    CloseRequested,
    /// The key that prints the GPU resource report was pressed.
    ReportRequested,
    /// The window asks to be redrawn.
    RedrawRequested,
    /// Any other window event, such as a pointer move.
    Input,
    /// An event that is not addressed to the window.
    Other,
}

/// What the event loop does next.
#[derive(Clone, Copy, Debug, PartialEq, Eq, Structural)]
pub enum HostAction {
    /// Create and configure the surface, and build the scene if there is none.
    Resume { init_scene: bool },
    /// Release the surface where the platform invalidates it.
    Suspend,
    /// Resize the surface, then the scene if there is one, and ask for a redraw.
    Resize { resize_scene: bool },
    /// Leave the event loop.
    Exit,
    /// Print the GPU resource report.
    PrintReport,
    /// Count the frame, acquire a surface texture, render, present, and ask
    /// for the next redraw.
    Render,
    /// Hand the event to the scene.
    Update,
    /// Nothing to do.
    Ignore,
}

/// The action for `event`. Work that needs the scene is skipped until it
/// exists; a redraw before then is dropped.
pub open spec fn spec_host_action(event: HostEvent, scene_ready: bool) -> HostAction {
    match event {
        HostEvent::Start => HostAction::Resume { init_scene: !scene_ready },
        HostEvent::Suspended => HostAction::Suspend,
        HostEvent::Resized => HostAction::Resize { resize_scene: scene_ready },
        HostEvent::CloseRequested => HostAction::Exit,
        HostEvent::ReportRequested => HostAction::PrintReport,
        HostEvent::RedrawRequested => if scene_ready {
            HostAction::Render
        } else {
            HostAction::Ignore
        },
        HostEvent::Input => if scene_ready {
            HostAction::Update
        } else {
            HostAction::Ignore
        },
        HostEvent::Other => HostAction::Ignore,
    }
}

pub fn host_action(event: HostEvent, scene_ready: bool) -> (a: HostAction)
    ensures
        a == spec_host_action(event, scene_ready),
{
    match event {
        HostEvent::Start => HostAction::Resume { init_scene: !scene_ready },
        HostEvent::Suspended => HostAction::Suspend,
        HostEvent::Resized => HostAction::Resize { resize_scene: scene_ready },
        HostEvent::CloseRequested => HostAction::Exit,
        HostEvent::ReportRequested => HostAction::PrintReport,
        HostEvent::RedrawRequested => {
            if scene_ready {
                HostAction::Render
            } else {
                HostAction::Ignore
            }
        },
        HostEvent::Input => {
            if scene_ready {
                HostAction::Update
            } else {
                HostAction::Ignore
            }
        },
        HostEvent::Other => HostAction::Ignore,
    }
}

} // verus!
