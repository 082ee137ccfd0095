use vstd::prelude::*;

verus! {

/// Window settings of the application: dimensions in pixels, title and
/// whether the window may be resized. The camera's aspect ratio is derived
/// from `width / height` by the application shell.
#[derive(Debug, Clone)]
pub struct WindowConfig {
    pub width: u32,
    pub height: u32,
    pub title: String,
    pub resizable: bool,
}

impl Default for WindowConfig {
    /// The default window: 800 by 600 pixels, resizable, titled "Demo Engine".
    fn default() -> (c: WindowConfig)
        ensures
            c.width == 800,
            c.height == 600,
            c.title@ == "Demo Engine"@,
            c.resizable,
    {
        WindowConfig {
            width: 800,
            height: 600,
            title: "Demo Engine".to_owned(),
            resizable: true,
        }
    }
}

} // verus!
