use vstd::prelude::*;

use crate::clock::{clock_text, format_clock};
use crate::windows::{OpenWindows, WindowKey};

verus! {

/// A user action on the menu bar.
#[derive(Clone, Copy, Debug, PartialEq, Eq, Structural)]
pub enum MenuEvent {
    /// File → "Reorganize windows".
    ReorganizeWindows,
    /// File → "Clear entire memory".
    ClearMemory,
    /// Windows → the checkbox of one flag.
    ToggleWindow(WindowKey),
    /// The clock label at the end of the bar.
    ClockClicked,
}

/// What the host must do to its persistent UI memory.
#[derive(Clone, Copy, Debug, PartialEq, Eq, Structural)]
pub enum MemoryAction {
    /// Leave it as it is.
    Keep,
    /// Re-stack the windows; visibility is untouched.
    ResetAreas,
    /// Replace the whole memory with its default.
    Clear,
}

/// The visibility set after `e`, where `clock_shown` says whether the bar
/// shows the clock label (it does only when a time is known).
pub open spec fn menu_windows(o: OpenWindows, clock_shown: bool, e: MenuEvent) -> OpenWindows {
    match e {
        MenuEvent::ToggleWindow(k) => o.with(k, !o.flag(k)),
        MenuEvent::ClockClicked => if clock_shown {
            o.with(WindowKey::FractalClock, !o.fractal_clock)
        } else {
            o
        },
        _ => o,
    }
}

/// The memory action that `e` asks of the host.
pub open spec fn menu_memory(e: MenuEvent) -> MemoryAction {
    match e {
        MenuEvent::ReorganizeWindows => MemoryAction::ResetAreas,
        MenuEvent::ClearMemory => MemoryAction::Clear,
        _ => MemoryAction::Keep,
    }
}

/// Applies one menu event to the visibility set and returns the memory action
/// it asks for.
pub fn handle_menu_event(windows: &mut OpenWindows, clock_shown: bool, e: MenuEvent) -> (r:
    MemoryAction)
    ensures
        *final(windows) == menu_windows(*old(windows), clock_shown, e),
        r == menu_memory(e),
{
    match e {
        MenuEvent::ReorganizeWindows => MemoryAction::ResetAreas,
        MenuEvent::ClearMemory => MemoryAction::Clear,
        MenuEvent::ToggleWindow(k) => {
            windows.toggle(k);
            MemoryAction::Keep
        },
        MenuEvent::ClockClicked => {
            if clock_shown {
                windows.toggle(WindowKey::FractalClock);
            }
            MemoryAction::Keep
        },
    }
}

/// The clock label of the menu bar: present exactly when a time is known.
pub fn clock_label(centis_since_midnight: Option<u64>) -> (r: Option<String>)
    ensures
        r.is_some() == centis_since_midnight.is_some(),
        r.is_some() ==> r.unwrap()@ == clock_text(centis_since_midnight.unwrap() as nat),
{
    match centis_since_midnight {
        Some(c) => Some(format_clock(c)),
        None => None,
    }
}

/// Toggling the same checkbox twice gives back the visibility set it started
/// from.
pub proof fn lemma_checkbox_round_trip(o: OpenWindows, clock_shown: bool, k: WindowKey)
    ensures
        menu_windows(
            menu_windows(o, clock_shown, MenuEvent::ToggleWindow(k)),
            clock_shown,
            MenuEvent::ToggleWindow(k),
        ) == o,
{
}

/// Clicking the clock label twice gives back the visibility set it started
/// from.
pub proof fn lemma_clock_click_round_trip(o: OpenWindows, clock_shown: bool)
    ensures
        menu_windows(
            menu_windows(o, clock_shown, MenuEvent::ClockClicked),
            clock_shown,
            MenuEvent::ClockClicked,
        ) == o,
{
}

} // verus!
