//! The size of the main window, as it is persisted with the settings.

use vstd::prelude::*;

verus! {

/// Width of the window when nothing was saved.
pub const DEFAULT_WIDTH: usize = 450;

/// Height of the window when nothing was saved.
pub const DEFAULT_HEIGHT: usize = 625;

/// Width and height of the main window, in logical pixels.
#[derive(Copy, Clone, Debug, PartialEq, Eq, Structural)]
pub struct WindowSize {
    pub width: usize,
    pub height: usize,
}

impl Default for WindowSize {
    fn default() -> (size: Self)
        ensures
            size.width == DEFAULT_WIDTH,
            size.height == DEFAULT_HEIGHT,
    {
        WindowSize { width: DEFAULT_WIDTH, height: DEFAULT_HEIGHT }
    }
}

} // verus!
