//! The application's life cycle: start-up, then frames, then closing.
use vstd::prelude::*;

verus! {

/// Where the application is in its life cycle.
#[derive(Debug, PartialEq, Eq, Structural, Clone, Copy)]
pub enum AppState {
    Startup,
    Idle,
    Exit,
}

impl Default for AppState {
    fn default() -> (res: Self)
        ensures
            res == AppState::Startup,
    {
        AppState::Startup
    }
}

/// The work of one frame.
#[derive(Debug, PartialEq, Eq, Structural, Clone, Copy)]
pub enum FrameWork {
    /// Set up the window and the logger.
    Startup,
    /// Handle clipboard events, draw the panes and read the input.
    Frame,
    /// Ask the window to close.
    CloseViewport,
}

impl AppState {
    /// The work of a frame in this state, and the state the frame leaves.
    pub fn frame(self) -> (res: (FrameWork, AppState))
        ensures
            res == (match self {
                AppState::Startup => (FrameWork::Startup, AppState::Idle),
                AppState::Idle => (FrameWork::Frame, AppState::Idle),
                AppState::Exit => (FrameWork::CloseViewport, AppState::Exit),
            }),
    {
        match self {
            AppState::Startup => (FrameWork::Startup, AppState::Idle),
            AppState::Idle => (FrameWork::Frame, AppState::Idle),
            AppState::Exit => (FrameWork::CloseViewport, AppState::Exit),
        }
    }

    /// Start over from start-up, as after the state was restored from storage.
    pub fn request_init(&mut self)
        ensures
            *final(self) == AppState::Startup,
    {
        *self = AppState::Startup;
    }

    /// Close at the next frame.
    pub fn request_shutdown(&mut self)
        ensures
            *final(self) == AppState::Exit,
    {
        *self = AppState::Exit;
    }
}

} // verus!
