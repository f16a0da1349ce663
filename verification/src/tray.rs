//! The tray menu: the app's only way to quit, since the overlay has no
//! close button.

use vstd::prelude::*;

verus! {

pub const SHOW_HIDE_ID: &'static str = "lyra.show-hide";

pub const STARTUP_ID: &'static str = "lyra.startup";

pub const QUIT_ID: &'static str = "lyra.quit";

#[derive(Clone, Copy, Debug, PartialEq, Eq, Structural)]
pub enum TrayCommand {
    ToggleVisibility,
    ToggleRunOnStartup,
    Quit,
}

/// The command a menu item stands for.
pub open spec fn menu_command(id: Seq<char>) -> Option<TrayCommand> {
    if id == "lyra.quit"@ {
        Some(TrayCommand::Quit)
    } else if id == "lyra.show-hide"@ {
        Some(TrayCommand::ToggleVisibility)
    } else if id == "lyra.startup"@ {
        Some(TrayCommand::ToggleRunOnStartup)
    } else {
        None
    }
}

/// The command of the last recognised item among the menu events `ids`
/// (oldest first), if any.
pub open spec fn last_menu_command(ids: Seq<Seq<char>>) -> Option<TrayCommand>
    decreases ids.len(),
{
    if ids.len() == 0 {
        None
    } else if menu_command(ids.last()) is Some {
        menu_command(ids.last())
    } else {
        last_menu_command(ids.drop_last())
    }
}

pub fn command_for_menu_id(id: &str) -> (r: Option<TrayCommand>)
    ensures
        r == menu_command(id@),
{
    let id = id.to_owned();
    if id == QUIT_ID.to_owned() {
        Some(TrayCommand::Quit)
    } else if id == SHOW_HIDE_ID.to_owned() {
        Some(TrayCommand::ToggleVisibility)
    } else if id == STARTUP_ID.to_owned() {
        Some(TrayCommand::ToggleRunOnStartup)
    } else {
        None
    }
}

/// The last command among the menu events of one frame (oldest first).
pub fn last_command(ids: &Vec<String>) -> (r: Option<TrayCommand>)
    ensures
        r == last_menu_command(ids@.map_values(|s: String| s@)),
{
    let ghost v = ids@.map_values(|s: String| s@);
    let mut command: Option<TrayCommand> = None;
    let mut i: usize = 0;
    assert(v.take(0) =~= Seq::<Seq<char>>::empty());
    while i < ids.len()
        invariant
            i <= ids.len(),
            v == ids@.map_values(|s: String| s@),
            command == last_menu_command(v.take(i as int)),
        decreases ids.len() - i,
    {
        let c = command_for_menu_id(ids[i].as_str());
        assert(v.take(i + 1).drop_last() =~= v.take(i as int));
        assert(v.take(i + 1).last() == ids@[i as int]@);
        if c.is_some() {
            command = c;
        }
        i = i + 1;
    }
    assert(v.take(ids.len() as int) =~= v);
    command
}

} // verus!
