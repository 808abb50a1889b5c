//! Window configuration.
//!
//! The event loop and the window itself belong to the unverified shell
//! around this crate; only the plain settings value lives here.

use vstd::prelude::*;

verus! {

/// Basic settings to create a window.
#[derive(Clone, Copy, Debug, PartialEq, Eq, Structural)]
pub struct WindowSettings {
    max_fps: u64,
}

impl WindowSettings {
    /// The highest frame rate the render loop should aim for.
    pub closed spec fn max_fps_spec(&self) -> u64 {
        self.max_fps
    }

    /// Settings with the given frame-rate cap.
    pub fn new(max_fps: u64) -> (r: WindowSettings)
        ensures
            r.max_fps_spec() == max_fps,
    {
        WindowSettings { max_fps }
    }

    /// The configured frame-rate cap.
    pub fn max_fps(&self) -> (r: u64)
        ensures
            r == self.max_fps_spec(),
    {
        self.max_fps
    }
}

} // verus!
