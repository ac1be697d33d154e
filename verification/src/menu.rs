use vstd::prelude::*;

verus! {

pub const MENU_ID_LOAD_ROM: &'static str = "load_rom";

pub const MENU_ID_EXIT: &'static str = "exit";

/// A user-triggerable application action, however it was triggered (menu item,
/// keyboard shortcut, window close, or signal).
#[derive(Debug, Clone, Copy, PartialEq, Eq, Structural)]
pub enum MenuAction {
    LoadRom,
    Exit,
}

/// Maps a triggered menu item id to its action.
pub fn action_for_menu_id(id: &str) -> (r: Option<MenuAction>)
    ensures
        r == if id@ == MENU_ID_LOAD_ROM@ {
            Some(MenuAction::LoadRom)
        } else if id@ == MENU_ID_EXIT@ {
            Some(MenuAction::Exit)
        } else {
            None
        },
{
    let id = id.to_owned();
    if id == MENU_ID_LOAD_ROM.to_owned() {
        Some(MenuAction::LoadRom)
    } else if id == MENU_ID_EXIT.to_owned() {
        Some(MenuAction::Exit)
    } else {
        None
    }
}

/// Maps a `Ctrl`+`<key>` keyboard shortcut to its action: `ctrl` is whether the control
/// modifier is held, `key` the character of the press (`None` for keys that are not
/// characters). O loads a ROM, Q exits; anything else does nothing.
pub fn action_for_shortcut(ctrl: bool, key: Option<char>) -> (r: Option<MenuAction>)
    ensures
        r == if ctrl && key == Some('o') {
            Some(MenuAction::LoadRom)
        } else if ctrl && key == Some('q') {
            Some(MenuAction::Exit)
        } else {
            None
        },
{
    if !ctrl {
        return None;
    }
    match key {
        Some('o') => Some(MenuAction::LoadRom),
        Some('q') => Some(MenuAction::Exit),
        _ => None,
    }
}

} // verus!
