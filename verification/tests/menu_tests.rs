use patina::menu::{
    action_for_menu_id, action_for_shortcut, MenuAction, MENU_ID_EXIT, MENU_ID_LOAD_ROM,
};

#[test]
fn menu_id_load_rom_maps_to_load_rom_action() {
    let id = MENU_ID_LOAD_ROM.to_string();
    assert_eq!(action_for_menu_id(&id), Some(MenuAction::LoadRom));
}

#[test]
fn menu_id_exit_maps_to_exit_action() {
    let id = MENU_ID_EXIT.to_string();
    assert_eq!(action_for_menu_id(&id), Some(MenuAction::Exit));
}

#[test]
fn unknown_menu_id_maps_to_no_action() {
    let id = "something_else".to_string();
    assert_eq!(action_for_menu_id(&id), None);
}

#[test]
fn ctrl_o_maps_to_load_rom() {
    assert_eq!(action_for_shortcut(true, Some('o')), Some(MenuAction::LoadRom));
}

#[test]
fn ctrl_q_maps_to_exit() {
    assert_eq!(action_for_shortcut(true, Some('q')), Some(MenuAction::Exit));
}

#[test]
fn shortcut_without_ctrl_is_ignored() {
    assert_eq!(action_for_shortcut(false, Some('o')), None);
    assert_eq!(action_for_shortcut(false, Some('q')), None);
}

#[test]
fn ctrl_with_unmapped_char_is_ignored() {
    assert_eq!(action_for_shortcut(true, Some('a')), None);
}

/* keys that are not characters (Enter, an arrow) have no character */
#[test]
fn ctrl_with_non_character_key_is_ignored() {
    assert_eq!(action_for_shortcut(true, None), None);
    assert_eq!(action_for_shortcut(true, None), None);
}
