use vstd::prelude::*;

verus! {

/// A platform event, reduced to the plain values the shell's decisions read.
///
/// The runner translates each event of the windowing library into one of
/// these before asking the shell what to do.
#[derive(Clone, Copy, Debug, PartialEq, Eq, Structural)]
pub enum ShellEvent {
    /// The window asks to be redrawn.
    RedrawRequested,
    /// Another thread asked for a repaint through the repaint signal.
    RepaintRequested,
    /// The loop finished dispatching the pending input events.
    MainEventsCleared,
    /// The window was resized to the given physical size.
    Resized { width: u32, height: u32 },
    /// The user asked to close the window.
    CloseRequested,
    /// Any other event addressed to the window (keyboard, pointer, ...).
    OtherWindowEvent,
    /// Any other event of the loop.
    Other,
}

/// What the runner must do in response to one event.
#[derive(Clone, Copy, Debug, PartialEq, Eq, Structural)]
pub enum ShellAction {
    /// Draw one frame and present it.
    Redraw,
    /// Reconfigure the surface to the given physical size.
    Reconfigure { width: u32, height: u32 },
    /// Leave the event loop.
    Exit,
    /// Hand the event to the UI library's input state.
    ForwardToInput,
    /// Do nothing.
    Ignore,
}

/// The state the shell carries between events: the size the surface is
/// configured with, and whether an exit was requested.
#[derive(Clone, Copy, Debug, PartialEq, Eq, Structural)]
pub struct ShellState {
    /// Physical width the surface is configured with.
    pub surface_width: u32,
    /// Physical height the surface is configured with.
    pub surface_height: u32,
    /// Whether a close request has been seen.
    pub exiting: bool,
}

/// The action taken for an event: redraw opportunities draw, a resize
/// reconfigures the surface, a close request exits, any other window event
/// goes to the input state, and everything else is ignored.
pub open spec fn spec_action(e: ShellEvent) -> ShellAction {
    match e {
        ShellEvent::RedrawRequested => ShellAction::Redraw,
        ShellEvent::RepaintRequested => ShellAction::Redraw,
        ShellEvent::MainEventsCleared => ShellAction::Redraw,
        ShellEvent::Resized { width, height } => ShellAction::Reconfigure { width, height },
        ShellEvent::CloseRequested => ShellAction::Exit,
        ShellEvent::OtherWindowEvent => ShellAction::ForwardToInput,
        ShellEvent::Other => ShellAction::Ignore,
    }
}

/// The state after an event: a resize records the new surface size, a close
/// request records the exit, and no other event changes the state.
pub open spec fn spec_step(s: ShellState, e: ShellEvent) -> ShellState {
    match e {
        ShellEvent::Resized { width, height } => ShellState {
            surface_width: width,
            surface_height: height,
            ..s
        },
        ShellEvent::CloseRequested => ShellState { exiting: true, ..s },
        _ => s,
    }
}

impl ShellState {
    /// The state the loop starts in: the window's initial inner size, no exit
    /// requested.
    pub fn new(width: u32, height: u32) -> (s: ShellState)
        ensures
            s == (ShellState { surface_width: width, surface_height: height, exiting: false }),
    {
        ShellState { surface_width: width, surface_height: height, exiting: false }
    }

    /// Take one event: update the state as `spec_step` says and return the
    /// action `spec_action` gives.
    pub fn handle_event(&mut self, e: &ShellEvent) -> (a: ShellAction)
        ensures
            a == spec_action(*e),
            *final(self) == spec_step(*old(self), *e),
    {
        match *e {
            ShellEvent::RedrawRequested => ShellAction::Redraw,
            ShellEvent::RepaintRequested => ShellAction::Redraw,
            ShellEvent::MainEventsCleared => ShellAction::Redraw,
            ShellEvent::Resized { width, height } => {
                self.surface_width = width;
                self.surface_height = height;
                ShellAction::Reconfigure { width, height }
            },
            ShellEvent::CloseRequested => {
                self.exiting = true;
                ShellAction::Exit
            },
            ShellEvent::OtherWindowEvent => ShellAction::ForwardToInput,
            ShellEvent::Other => ShellAction::Ignore,
        }
    }
}

/// The outcome of asking the surface for the frame's texture, reduced to a
/// plain value: either a texture was acquired or the surface refused one.
#[derive(Clone, Copy, Debug, PartialEq, Eq, Structural)]
pub enum FrameOutcome {
    /// The surface handed out a texture to draw into.
    Acquired,
    /// The surface returned an error for this frame.
    Lost,
}

/// What a redraw does with that outcome.
#[derive(Clone, Copy, Debug, PartialEq, Eq, Structural)]
pub enum FramePlan {
    /// Run one UI frame, rasterize it, submit it and present it.
    RenderAndPresent,
    /// Report the dropped frame and leave the loop running.
    SkipFrame,
}

/// A frame is rendered exactly when a texture was acquired; a refused frame
/// is skipped, never fatal.
pub open spec fn spec_frame_plan(outcome: FrameOutcome) -> FramePlan {
    match outcome {
        FrameOutcome::Acquired => FramePlan::RenderAndPresent,
        FrameOutcome::Lost => FramePlan::SkipFrame,
    }
}

/// Decide what a redraw opportunity does, given whether the surface handed
/// out a texture.
pub fn plan_frame(outcome: &FrameOutcome) -> (p: FramePlan)
    ensures
        p == spec_frame_plan(*outcome),
{
    match *outcome {
        FrameOutcome::Acquired => FramePlan::RenderAndPresent,
        FrameOutcome::Lost => FramePlan::SkipFrame,
    }
}

/// Only a close request makes the loop exit, and once `exiting` is set no
/// event clears it.
pub proof fn lemma_exit_only_on_close(s: ShellState, e: ShellEvent)
    ensures
        spec_action(e) == ShellAction::Exit <==> e == ShellEvent::CloseRequested,
        spec_step(s, e).exiting <==> s.exiting || e == ShellEvent::CloseRequested,
{
}

/// The surface size in the state is exactly the last resize seen, and only a
/// resize changes it.
pub proof fn lemma_surface_tracks_resize(s: ShellState, e: ShellEvent)
    ensures
        e matches ShellEvent::Resized { width, height } ==> spec_step(s, e)
            == (ShellState { surface_width: width, surface_height: height, ..s }),
        e !is Resized ==> spec_step(s, e).surface_width == s.surface_width
            && spec_step(s, e).surface_height == s.surface_height,
{
}

} // verus!
