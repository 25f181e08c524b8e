use vstd::prelude::*;

verus! {

/// The fixed settings the window is created with.
pub struct WindowSettings {
    /// The window title.
    pub title: &'static str,
    /// Initial inner width, in physical pixels.
    pub width: u32,
    /// Initial inner height, in physical pixels.
    pub height: u32,
    /// Whether the window has decorations.
    pub decorations: bool,
    /// Whether the window is transparent.
    pub transparent: bool,
}

impl WindowSettings {
    /// The one configuration this shell ever opens: a decorated, opaque
    /// 1280 x 720 window with a fixed title.
    pub fn initial() -> (w: WindowSettings)
        ensures
            w.title@ == "A fantastic window!"@,
            w.width == 1280,
            w.height == 720,
            w.decorations,
            !w.transparent,
    {
        WindowSettings {
            title: "A fantastic window!",
            width: 1280,
            height: 720,
            decorations: true,
            transparent: false,
        }
    }
}

/// One step of the startup poll that waits for the native screen.
#[derive(Clone, Copy, Debug, PartialEq, Eq, Structural)]
pub enum StartupStep {
    /// The native screen exists: setup may go on.
    Proceed,
    /// No native screen yet: poll again.
    KeepWaiting,
}

/// Decide one step of the wait for the native screen: go on exactly when the
/// screen is present, else keep polling. The runner repeats this until it
/// answers `Proceed`.
pub fn poll_native_screen(screen_present: bool) -> (s: StartupStep)
    ensures
        s == (if screen_present { StartupStep::Proceed } else { StartupStep::KeepWaiting }),
{
    if screen_present {
        StartupStep::Proceed
    } else {
        StartupStep::KeepWaiting
    }
}

} // verus!
