//! Window-visibility state for a demo application: which windows are open,
//! how an external link request opens one of them, how the menu bar changes
//! the set, and how each window closes itself.

pub mod clock;
pub mod demo_windows;
pub mod menu_bar;
pub mod windows;
