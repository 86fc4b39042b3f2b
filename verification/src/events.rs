//! The typed event stream the windowing collaborator delivers.

use vstd::prelude::*;

verus! {

/// One event delivered to the application state machine.
///
/// `Activated` is the lifecycle readiness signal, fired before any window
/// event for the window. The `Resized` payload carries the window's new
/// physical size; the state machine deliberately ignores it (a resize
/// requests a redraw, it does not resize the surface). `Other` stands for
/// every event kind the machine does not recognise, which it must ignore
/// for forward compatibility.
#[derive(Clone, Copy, Debug, PartialEq, Eq, Structural)]
pub enum AppEvent {
    Activated,
    CloseRequested,
    Resized(u32, u32),
    RedrawRequested,
    Other,
}

} // verus!
