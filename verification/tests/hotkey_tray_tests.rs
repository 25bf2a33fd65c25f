use sokuten::hotkey::{
    hotkey_action, hotkey_bindings, hotkey_modifiers, pump_step, HotkeyAction, HotkeyBinding,
    PumpStep, HOTKEY_PASTE_RECENT, HOTKEY_SHOW_HIDE, VK_SPACE, VK_V, WM_HOTKEY,
};
use sokuten::tray::{icon_rgba, ICON_SIZE};

#[test]
fn hotkey_ids_map_to_actions() {
    assert_eq!(hotkey_action(HOTKEY_SHOW_HIDE), Some(HotkeyAction::ToggleWindow));
    assert_eq!(
        hotkey_action(HOTKEY_PASTE_RECENT),
        Some(HotkeyAction::PasteMostRecent)
    );
    assert_eq!(hotkey_action(3), None);
    assert_eq!(hotkey_action(0), None);
}

#[test]
fn hotkeys_are_ctrl_shift_space_and_v() {
    assert_eq!(hotkey_modifiers(), 0x0006);
    assert_eq!(
        hotkey_bindings(),
        vec![
            HotkeyBinding {
                id: 1,
                modifiers: 6,
                vk: 0x20
            },
            HotkeyBinding {
                id: 2,
                modifiers: 6,
                vk: 0x56
            },
        ]
    );
    assert_eq!(VK_SPACE, 0x20);
    assert_eq!(VK_V, 0x56);
}

#[test]
fn message_pump_steps() {
    assert_eq!(pump_step(0, WM_HOTKEY, 1), PumpStep::Stop);
    assert_eq!(pump_step(-1, WM_HOTKEY, 1), PumpStep::Stop);
    assert_eq!(pump_step(1, WM_HOTKEY, 2), PumpStep::Forward(2));
    assert_eq!(pump_step(1, 0x0100, 2), PumpStep::Skip);
    assert_eq!(WM_HOTKEY, 0x0312);
}

#[test]
fn icon_is_blue_square_with_white_border() {
    let rgba = icon_rgba();
    let size = ICON_SIZE as usize;
    assert_eq!(rgba.len(), size * size * 4);
    for y in 0..size {
        for x in 0..size {
            let idx = (y * size + x) * 4;
            let px = &rgba[idx..idx + 4];
            if x == 0 || x == size - 1 || y == 0 || y == size - 1 {
                assert_eq!(px, &[255, 255, 255, 255]);
            } else {
                assert_eq!(px, &[0, 120, 212, 255]);
            }
        }
    }
}
