//! Window settings.

use vstd::prelude::*;
use vstd::string::*;

verus! {

/// Settings for a window.
#[derive(Debug, PartialEq, Eq)]
pub struct WindowSettings {
    pub width: u32,
    pub height: u32,
    pub title: String,
}

impl Default for WindowSettings {
    /// 800 by 800, titled "Window".
    fn default() -> (s: WindowSettings)
        ensures
            s.width == 800,
            s.height == 800,
            s.title@ == "Window"@,
    {
        WindowSettings { width: 800, height: 800, title: String::from_str("Window") }
    }
}

} // verus!
