//! The global show/hide hotkey (Ctrl+Shift+L).

use vstd::prelude::*;

verus! {

/// One event from the global hotkey source.
#[derive(Clone, Copy, Debug, PartialEq, Eq, Structural)]
pub struct HotkeyEvent {
    pub id: u32,
    pub pressed: bool,
}

/// Whether the toggle hotkey `toggle_id` was pressed among `events` (a key
/// release does not count).
pub fn toggle_requested(events: &Vec<HotkeyEvent>, toggle_id: u32) -> (r: bool)
    ensures
        r == exists|i: int|
            0 <= i < events.len() && #[trigger] events@[i].id == toggle_id && events@[i].pressed,
{
    let mut toggled = false;
    let mut i: usize = 0;
    while i < events.len()
        invariant
            i <= events.len(),
            toggled == exists|k: int|
                0 <= k < i && #[trigger] events@[k].id == toggle_id && events@[k].pressed,
        decreases events.len() - i,
    {
        if events[i].id == toggle_id && events[i].pressed {
            toggled = true;
        }
        i = i + 1;
    }
    toggled
}

} // verus!
