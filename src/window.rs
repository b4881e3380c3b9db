use vstd::prelude::*;

verus! {

/// How the main window is opened.
#[derive(Debug, Clone, Copy, PartialEq, Eq)]
pub struct WindowSettings {
    /// Width of the inner area, in logical pixels.
    pub width: u32,
    /// Height of the inner area, in logical pixels.
    pub height: u32,
    pub resizable: bool,
    pub transparent: bool,
}

impl WindowSettings {
    /// The main window: 640 by 480 logical pixels, resizable and opaque.
    pub fn main_window() -> (r: WindowSettings)
        ensures
            r.width == 640,
            r.height == 480,
            r.resizable,
            !r.transparent,
    {
        WindowSettings { width: 640, height: 480, resizable: true, transparent: false }
    }
}

} // verus!
