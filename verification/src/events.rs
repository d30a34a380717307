//! The event-loop decisions: what the application does for each
//! notification the windowing system delivers.
//!
//! The windowing collaborator owns the loop and the window handles; it
//! reduces each notification to a plain event carrying the reporting
//! window's identifier, asks `handle_event` for the action, and performs
//! it: exit, render a frame, request the next redraw, or nothing.

use vstd::prelude::*;

verus! {

/// A windowing notification, reduced to what the loop decides on. Events
/// that carry a window identifier report which window they are about.
#[derive(Clone, Copy, PartialEq, Eq, Structural, Debug)]
pub enum UiEvent {
    /// The user asked the identified window to close.
    CloseRequested(u64),
    /// The identified window should be redrawn.
    RedrawRequested(u64),
    /// All pending events were dispatched; the loop is about to idle.
    MainEventsCleared,
    /// Any other notification.
    Other,
}

/// What the loop does next for one event.
#[derive(Clone, Copy, PartialEq, Eq, Structural, Debug)]
pub enum LoopAction {
    /// Stop the loop and exit the process.
    Exit,
    /// Render one frame for our window.
    RenderFrame,
    /// Ask the windowing system for the next redraw of our window.
    RequestRedraw,
    /// Nothing to do.
    Ignore,
}

/// The action one event calls for, for the window identified by `own_id`:
/// a close request for our window exits, a redraw request for our window
/// renders, the idle signal requests the next redraw, and everything else
/// — including events about other windows — is ignored.
pub open spec fn action_for(own_id: u64, event: UiEvent) -> LoopAction {
    match event {
        UiEvent::CloseRequested(id) => if id == own_id {
            LoopAction::Exit
        } else {
            LoopAction::Ignore
        },
        UiEvent::RedrawRequested(id) => if id == own_id {
            LoopAction::RenderFrame
        } else {
            LoopAction::Ignore
        },
        UiEvent::MainEventsCleared => LoopAction::RequestRedraw,
        UiEvent::Other => LoopAction::Ignore,
    }
}

/// Decide the loop's next action for one delivered event.
pub fn handle_event(own_id: u64, event: UiEvent) -> (a: LoopAction)
    ensures
        a == action_for(own_id, event),
{
    match event {
        UiEvent::CloseRequested(id) => if id == own_id {
            LoopAction::Exit
        } else {
            LoopAction::Ignore
        },
        UiEvent::RedrawRequested(id) => if id == own_id {
            LoopAction::RenderFrame
        } else {
            LoopAction::Ignore
        },
        UiEvent::MainEventsCleared => LoopAction::RequestRedraw,
        UiEvent::Other => LoopAction::Ignore,
    }
}

} // verus!
