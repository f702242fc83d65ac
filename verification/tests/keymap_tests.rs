use splitnode::keymap::{
    get_default_keymap, KeyAction, KeyCode, Modifier, COL, HOLD_MS, NUM_LAYER, ROW,
};

#[test]
fn the_keymap_has_five_layers_of_four_rows_of_twelve_keys() {
    let keymap = get_default_keymap();
    assert_eq!(keymap.len(), 5);
    assert_eq!(keymap[0].len(), 4);
    assert_eq!(keymap[0][0].len(), 12);
    assert_eq!((NUM_LAYER, ROW, COL), (5, 4, 12));
    assert_eq!(HOLD_MS, 175);
}

#[test]
fn base_layer_holds_the_letters() {
    let keymap = get_default_keymap();
    assert_eq!(keymap[0][0][1], KeyAction::Key(KeyCode::Q));
    assert_eq!(keymap[0][0][10], KeyAction::Key(KeyCode::P));
    assert_eq!(keymap[0][2][11], KeyAction::Key(KeyCode::Backslash));
    assert_eq!(keymap[0][3][10], KeyAction::No);
    assert_eq!(keymap[0][3][11], KeyAction::Key(KeyCode::No));
}

#[test]
fn home_row_doubles_as_modifiers() {
    let keymap = get_default_keymap();
    assert_eq!(keymap[0][1][1], KeyAction::HomeRow(KeyCode::A, Modifier::LeftAlt));
    assert_eq!(keymap[0][1][2], KeyAction::HomeRow(KeyCode::S, Modifier::LeftGui));
    assert_eq!(keymap[0][1][3], KeyAction::HomeRow(KeyCode::D, Modifier::LeftCtrl));
    assert_eq!(keymap[0][1][4], KeyAction::HomeRow(KeyCode::F, Modifier::LeftShift));
    assert_eq!(keymap[0][1][7], KeyAction::HomeRow(KeyCode::J, Modifier::LeftShift));
    assert_eq!(keymap[0][1][10], KeyAction::HomeRow(KeyCode::Semicolon, Modifier::LeftAlt));
    assert_eq!(keymap[3][1][1], KeyAction::Key(KeyCode::A));
}

#[test]
fn thumb_keys_turn_layers_on() {
    let keymap = get_default_keymap();
    assert_eq!(keymap[0][3][5], KeyAction::KeyOrLayer(KeyCode::Space, 1));
    assert_eq!(keymap[0][3][6], KeyAction::KeyOrLayer(KeyCode::Enter, 2));
    assert_eq!(keymap[3][3][4], KeyAction::LayerWhileHeld(4));
    assert_eq!(keymap[1][3][5], KeyAction::Transparent);
    assert_eq!(keymap[2][3][6], KeyAction::Transparent);
    assert_eq!(keymap[4][3][4], KeyAction::Transparent);
}

#[test]
fn the_corner_key_switches_between_typing_and_gaming() {
    let keymap = get_default_keymap();
    assert_eq!(keymap[0][0][11], KeyAction::LayerSwitch(3));
    assert_eq!(keymap[3][0][11], KeyAction::LayerSwitch(0));
}

#[test]
fn number_layer_holds_digits_and_shifted_brackets() {
    let keymap = get_default_keymap();
    assert_eq!(keymap[1][1][0], KeyAction::Key(KeyCode::CapsLock));
    assert_eq!(keymap[1][1][1], KeyAction::Key(KeyCode::Kc1));
    assert_eq!(keymap[1][1][10], KeyAction::Key(KeyCode::Kc0));
    assert_eq!(keymap[1][0][6], KeyAction::WithModifier(KeyCode::Grave, Modifier::LeftShift));
    assert_eq!(keymap[1][2][5], KeyAction::WithModifier(KeyCode::Minus, Modifier::LeftShift));
    assert_eq!(keymap[1][2][7], KeyAction::Key(KeyCode::KpPlus));
}

#[test]
fn navigation_layer_holds_the_arrows() {
    let keymap = get_default_keymap();
    assert_eq!(keymap[2][0][6], KeyAction::Key(KeyCode::Home));
    assert_eq!(keymap[2][0][9], KeyAction::Key(KeyCode::End));
    assert_eq!(keymap[2][1][6], KeyAction::Key(KeyCode::Left));
    assert_eq!(keymap[2][1][7], KeyAction::Key(KeyCode::Down));
    assert_eq!(keymap[2][1][8], KeyAction::Key(KeyCode::Up));
    assert_eq!(keymap[2][1][9], KeyAction::Key(KeyCode::Right));
}

#[test]
fn upper_gaming_layer_holds_the_keypad() {
    let keymap = get_default_keymap();
    assert_eq!(keymap[4][0][0], KeyAction::Key(KeyCode::Escape));
    assert_eq!(keymap[4][1][1], KeyAction::Key(KeyCode::Kp1));
    assert_eq!(keymap[4][1][10], KeyAction::Key(KeyCode::Kp0));
    assert_eq!(keymap[4][2][1], KeyAction::Key(KeyCode::Kp6));
    assert_eq!(keymap[4][3][0], KeyAction::Transparent);
}

#[test]
fn every_named_layer_exists_and_the_base_layer_is_opaque() {
    let keymap = get_default_keymap();
    for (index, layer) in keymap.iter().enumerate() {
        for row in layer.iter() {
            for action in row.iter() {
                if let Some(target) = action.target_layer() {
                    assert!((target as usize) < NUM_LAYER);
                }
                if index == 0 {
                    assert_ne!(*action, KeyAction::Transparent);
                }
            }
        }
    }
}

#[test]
fn target_layer_of_each_kind_of_action() {
    assert_eq!(KeyAction::LayerWhileHeld(4).target_layer(), Some(4));
    assert_eq!(KeyAction::LayerSwitch(3).target_layer(), Some(3));
    assert_eq!(KeyAction::KeyOrLayer(KeyCode::Space, 1).target_layer(), Some(1));
    assert_eq!(KeyAction::Key(KeyCode::A).target_layer(), None);
    assert_eq!(KeyAction::HomeRow(KeyCode::A, Modifier::LeftAlt).target_layer(), None);
    assert_eq!(KeyAction::Transparent.target_layer(), None);
    assert_eq!(KeyAction::No.target_layer(), None);
}

#[test]
fn the_default_keymap_is_usable() {
    assert!(splitnode::keymap::is_usable(&get_default_keymap()));
}

#[test]
fn a_keymap_that_names_a_missing_layer_is_not_usable() {
    let mut keymap = get_default_keymap();
    keymap[1][0][0] = KeyAction::LayerWhileHeld(5);
    assert!(!splitnode::keymap::is_usable(&keymap));
    let mut keymap = get_default_keymap();
    keymap[2][2][2] = KeyAction::LayerSwitch(9);
    assert!(!splitnode::keymap::is_usable(&keymap));
}

#[test]
fn a_transparent_key_on_the_base_layer_is_not_usable() {
    let mut keymap = get_default_keymap();
    keymap[0][2][3] = KeyAction::Transparent;
    assert!(!splitnode::keymap::is_usable(&keymap));
}

#[test]
fn a_held_layer_must_be_transparent_under_its_key() {
    let mut keymap = get_default_keymap();
    keymap[1][3][5] = KeyAction::Key(KeyCode::A);
    assert!(!splitnode::keymap::is_usable(&keymap));
}

#[test]
fn a_switch_must_lead_to_a_switch() {
    let mut keymap = get_default_keymap();
    keymap[3][0][11] = KeyAction::Key(KeyCode::P);
    assert!(!splitnode::keymap::is_usable(&keymap));
    let mut keymap = get_default_keymap();
    keymap[0][0][11] = KeyAction::LayerSwitch(0);
    assert!(!splitnode::keymap::is_usable(&keymap));
}

#[test]
fn a_usable_stored_keymap_is_taken() {
    let mut stored = get_default_keymap();
    stored[0][0][1] = KeyAction::Key(KeyCode::A);
    assert_eq!(splitnode::keymap::keymap_or_default(Some(stored)), stored);
}

#[test]
fn a_missing_or_unusable_keymap_gives_the_default() {
    assert_eq!(splitnode::keymap::keymap_or_default(None), get_default_keymap());
    let mut broken = get_default_keymap();
    broken[0][0][0] = KeyAction::LayerSwitch(7);
    assert_eq!(splitnode::keymap::keymap_or_default(Some(broken)), get_default_keymap());
}
