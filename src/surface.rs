//! Presentation surface decisions: its size (never zero), the sizes the scene
//! derives from it, when to create it, and how to recover when a frame cannot
//! be acquired.

use vstd::prelude::*;

verus! {

/// A surface dimension as configured: zero becomes one.
pub open spec fn clamp_dim(d: u32) -> u32 {
    if d == 0 {
        1
    } else {
        d
    }
}

/// Size of the presentation surface in pixels.
#[derive(Clone, Copy, Debug, PartialEq, Eq, Structural)]
pub struct SurfaceExtent {
    pub width: u32,
    pub height: u32,
}

/// The extent configured for a window of `width` by `height` pixels.
pub open spec fn extent_for(width: u32, height: u32) -> SurfaceExtent {
    SurfaceExtent { width: clamp_dim(width), height: clamp_dim(height) }
}

impl SurfaceExtent {
    /// Neither dimension is zero.
    pub open spec fn wf(self) -> bool {
        self.width >= 1 && self.height >= 1
    }

    /// The extent for a window of `width` by `height`, each at least one.
    pub fn new(width: u32, height: u32) -> (e: SurfaceExtent)
        ensures
            e == extent_for(width, height),
            e.wf(),
    {
        SurfaceExtent {
            width: if width == 0 {
                1
            } else {
                width
            },
            height: if height == 0 {
                1
            } else {
                height
            },
        }
    }

    /// Takes the new window size, never resizing to zero.
    pub fn resize(&mut self, width: u32, height: u32)
        ensures
            *final(self) == extent_for(width, height),
            final(self).wf(),
    {
        *self = SurfaceExtent::new(width, height);
    }
}

/// The sizes the scene derives from the surface: its depth target and the
/// screen size the camera takes its aspect ratio from.
#[derive(Clone, Copy, Debug, PartialEq, Eq, Structural)]
pub struct Viewport {
    pub depth: SurfaceExtent,
    pub screen: SurfaceExtent,
}

/// The viewport of a surface: depth target and camera screen both match it.
pub open spec fn viewport_for(surface: SurfaceExtent) -> Viewport {
    Viewport { depth: surface, screen: surface }
}

impl Viewport {
    pub fn new(surface: SurfaceExtent) -> (v: Viewport)
        ensures
            v == viewport_for(surface),
    {
        Viewport { depth: surface, screen: surface }
    }

    /// Rebuilds the depth target size and the camera's screen size.
    pub fn resize(&mut self, surface: SurfaceExtent)
        ensures
            *final(self) == viewport_for(surface),
    {
        self.depth = surface;
        self.screen = surface;
    }

    /// The camera's aspect ratio as width over height.
    pub fn aspect(&self) -> (r: (u32, u32))
        ensures
            r == (self.screen.width, self.screen.height),
    {
        (self.screen.width, self.screen.height)
    }
}

/// Surface and scene sizes after the window became `width` by `height`: the
/// surface extent, and the viewport [`Viewport::resize`] makes of it.
pub open spec fn after_resize(state: (SurfaceExtent, Viewport), width: u32, height: u32) -> (
    SurfaceExtent,
    Viewport,
) {
    let e = extent_for(width, height);
    (e, viewport_for(e))
}

/// Resizing the surface and the scene to the same window size twice leaves the
/// same depth target size and camera screen size (hence aspect ratio) as once.
pub proof fn lemma_resize_idempotent(state: (SurfaceExtent, Viewport), width: u32, height: u32)
    ensures
        after_resize(after_resize(state, width, height), width, height) == after_resize(
            state,
            width,
            height,
        ),
        after_resize(after_resize(state, width, height), width, height).1.depth == after_resize(
            state,
            width,
            height,
        ).1.depth,
        after_resize(after_resize(state, width, height), width, height).1.screen == after_resize(
            state,
            width,
            height,
        ).1.screen,
{
}

/// Window events that matter for creating the surface.
#[derive(Clone, Copy, Debug, PartialEq, Eq, Structural)]
pub enum LifecycleEvent {
    /// The event loop has started.
    Init,
    /// The application was resumed.
    Resumed,
    /// Anything else.
    Other,
}

/// Whether `event` is the one on which the surface is created: resuming on
/// Android, where the surface only exists then; the loop's start elsewhere.
pub fn start_condition(event: LifecycleEvent, on_android: bool) -> (r: bool)
    ensures
        r == match event {
            LifecycleEvent::Resumed => on_android,
            LifecycleEvent::Init => !on_android,
            LifecycleEvent::Other => false,
        },
{
    match event {
        LifecycleEvent::Resumed => on_android,
        LifecycleEvent::Init => !on_android,
        LifecycleEvent::Other => false,
    }
}

/// Why the next surface texture could not be acquired.
#[derive(Clone, Copy, Debug, PartialEq, Eq, Structural)]
pub enum SurfaceFailure {
    Timeout,
    Outdated,
    Lost,
    OutOfMemory,
}

/// What to do after a failed acquire.
#[derive(Clone, Copy, Debug, PartialEq, Eq, Structural)]
pub enum AcquireStep {
    /// Try once more as things are.
    Retry,
    /// Reconfigure the surface, then try once more.
    ReconfigureAndRetry,
    /// The retry failed too: the frame cannot be presented.
    GiveUp,
}

/// The step after `failure`, when `retries` retries were already made. A
/// timeout is retried once; an outdated or lost surface (or one out of memory)
/// is reconfigured and retried once; a failed retry gives up.
pub fn acquire_recovery(failure: SurfaceFailure, retries: u32) -> (s: AcquireStep)
    ensures
        retries >= 1 ==> s == AcquireStep::GiveUp,
        retries == 0 ==> s == if failure == SurfaceFailure::Timeout {
            AcquireStep::Retry
        } else {
            AcquireStep::ReconfigureAndRetry
        },
{
    if retries >= 1 {
        return AcquireStep::GiveUp;
    }
    match failure {
        SurfaceFailure::Timeout => AcquireStep::Retry,
        SurfaceFailure::Outdated | SurfaceFailure::Lost | SurfaceFailure::OutOfMemory => {
            AcquireStep::ReconfigureAndRetry
        },
    }
}

} // verus!
