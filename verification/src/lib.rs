//! Decision logic of a windowed GUI shell: which action the event loop takes
//! for each platform event, how the surface configuration tracks resizes,
//! when a frame is skipped, and the fixed settings the window is created with.
//!
//! The platform loop itself (windowing, GPU, UI library) runs outside the
//! library and feeds it plain events; the library answers with plain actions.

pub mod shell;
pub mod startup;
