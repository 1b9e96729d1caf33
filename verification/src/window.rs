//! How the window is opened.

use vstd::prelude::*;
use crate::event_loop::{EventLoop, LoopState, Surface};

verus! {

/// Title, size and presentation of the window.
#[derive(Debug)]
pub struct WindowConfig {
    pub title: String,
    /// Width in pixels.
    pub width: u32,
    /// Height in pixels.
    pub height: u32,
    /// Whether presenting waits for the display's refresh.
    pub vsync: bool,
}

/// The window of the program: 800 by 600 pixels, presented in step with the
/// display.
pub fn default_window() -> (r: WindowConfig)
    ensures
        r.title@ == "rbomberman"@,
        r.width == 800,
        r.height == 600,
        r.vsync,
{
    WindowConfig { title: "rbomberman".to_string(), width: 800, height: 600, vsync: true }
}

impl WindowConfig {
    /// The loop for a window that was opened by this configuration: running,
    /// over a surface of the window's size.
    pub fn start_loop(&self) -> (r: EventLoop)
        ensures
            r.state == LoopState::Running,
            r.surface == (Surface { width: self.width, height: self.height }),
    {
        EventLoop::new(self.width, self.height)
    }
}

} // verus!
