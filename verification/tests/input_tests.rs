use dofus_multi_helper::windows::api::{
    check_click_sent, check_enter_sent, check_key_sent, click_delay, click_inputs, create_mouse_input,
    create_scancode_input, enter_key_inputs, key_press_inputs, normalize_absolute, virtual_key_for,
    KeyInput, MouseInput, VirtualKey, KEYEVENTF_KEYUP, KEYEVENTF_SCANCODE, MOUSEEVENTF_ABSOLUTE,
    MOUSEEVENTF_LEFTDOWN, MOUSEEVENTF_LEFTUP, MOUSEEVENTF_MOVE, MOUSEEVENTF_VIRTUALDESK,
};

#[test]
fn normalize_absolute_maps_origin_to_zero() {
    assert_eq!(normalize_absolute(0, 0, 0, 0, 1920, 1080), (0, 0));
}

#[test]
fn normalize_absolute_maps_bottom_right_to_65535() {
    assert_eq!(
        normalize_absolute(1919, 1079, 0, 0, 1920, 1080),
        (65535, 65535)
    );
}

#[test]
fn normalize_absolute_handles_negative_virtual_desktop_origin() {
    let (dx, dy) = normalize_absolute(-960, 0, -1920, 0, 3840, 1080);
    assert_eq!(dx, 16388);
    assert_eq!(dy, 0);
}

#[test]
fn normalize_absolute_rounds_toward_zero_left_of_origin() {
    // -1 * 65535 / 1919 = -34.15..., rounded toward zero
    assert_eq!(normalize_absolute(-1, 5, 0, 0, 1920, 1080), (-34, 303));
}

#[test]
fn normalize_absolute_single_pixel_screen_uses_span_one() {
    assert_eq!(normalize_absolute(0, 0, 0, 0, 1, 0), (0, 0));
    assert_eq!(normalize_absolute(2, 1, 0, 0, 1, 1), (131070, 65535));
}

#[test]
fn normalize_absolute_cuts_to_32_bits() {
    // 2_147_483_647 * 65535 does not fit in 32 bits; the result is cut.
    let (dx, _) = normalize_absolute(i32::MAX, 0, 0, 0, 2, 2);
    assert_eq!(dx, ((i32::MAX as i64) * 65535) as i32);
}

#[test]
fn mouse_and_key_inputs_are_built_from_their_fields() {
    assert_eq!(create_mouse_input(3, -4, 7), MouseInput { dx: 3, dy: -4, flags: 7 });
    assert_eq!(create_scancode_input(0x1e, 0), KeyInput { scancode: 0x1e, flags: KEYEVENTF_SCANCODE });
    assert_eq!(
        create_scancode_input(0x1e, KEYEVENTF_KEYUP),
        KeyInput { scancode: 0x1e, flags: KEYEVENTF_SCANCODE | KEYEVENTF_KEYUP }
    );
    assert_eq!(KEYEVENTF_SCANCODE | KEYEVENTF_KEYUP, 10);
}

#[test]
fn click_is_move_then_press_then_release() {
    let v = click_inputs(100, 200);
    assert_eq!(
        v,
        vec![
            MouseInput { dx: 100, dy: 200, flags: MOUSEEVENTF_MOVE | MOUSEEVENTF_ABSOLUTE | MOUSEEVENTF_VIRTUALDESK },
            MouseInput { dx: 0, dy: 0, flags: MOUSEEVENTF_LEFTDOWN },
            MouseInput { dx: 0, dy: 0, flags: MOUSEEVENTF_LEFTUP },
        ]
    );
    assert_eq!(v[0].flags, 0xC001);
}

#[test]
fn click_succeeds_only_when_all_three_events_are_sent() {
    assert_eq!(check_click_sent(3), Ok(()));
    assert_eq!(check_click_sent(2), Err("Failed to send mouse click".to_string()));
    assert_eq!(check_click_sent(0), Err("Failed to send mouse click".to_string()));
}

#[test]
fn unknown_character_is_an_error_naming_the_key() {
    assert_eq!(virtual_key_for("é", -1), Err("No key found for character: é".to_string()));
}

#[test]
fn layout_answer_splits_into_key_code_and_modifiers() {
    // 'A' on a US layout: VK 0x41 with shift (0x0141).
    assert_eq!(virtual_key_for("A", 0x0141), Ok(VirtualKey { vk_code: 0x41, shift_state: 1 }));
    // control + alt + shift: 0x0741
    assert_eq!(virtual_key_for("x", 0x0741), Ok(VirtualKey { vk_code: 0x41, shift_state: 7 }));
    // a negative answer other than -1 keeps its low byte and high byte
    assert_eq!(virtual_key_for("x", -2), Ok(VirtualKey { vk_code: 0xfe, shift_state: 0xff }));
}

#[test]
fn key_without_modifiers_is_down_then_up() {
    let vk = VirtualKey { vk_code: 0x41, shift_state: 0 };
    let v = key_press_inputs(vk, 0x1e, 0x2a, 0x1d, 0x38).unwrap();
    assert_eq!(
        v,
        vec![
            KeyInput { scancode: 0x1e, flags: 8 },
            KeyInput { scancode: 0x1e, flags: 10 },
        ]
    );
}

#[test]
fn modifiers_wrap_the_key_in_reverse_order() {
    let vk = VirtualKey { vk_code: 0x41, shift_state: 7 };
    let v = key_press_inputs(vk, 0x1e, 0x2a, 0x1d, 0x38).unwrap();
    assert_eq!(
        v,
        vec![
            KeyInput { scancode: 0x2a, flags: 8 },
            KeyInput { scancode: 0x1d, flags: 8 },
            KeyInput { scancode: 0x38, flags: 8 },
            KeyInput { scancode: 0x1e, flags: 8 },
            KeyInput { scancode: 0x1e, flags: 10 },
            KeyInput { scancode: 0x38, flags: 10 },
            KeyInput { scancode: 0x1d, flags: 10 },
            KeyInput { scancode: 0x2a, flags: 10 },
        ]
    );
    let only_alt = key_press_inputs(VirtualKey { vk_code: 0x41, shift_state: 4 }, 0x1e, 0x2a, 0x1d, 0x38).unwrap();
    assert_eq!(
        only_alt,
        vec![
            KeyInput { scancode: 0x38, flags: 8 },
            KeyInput { scancode: 0x1e, flags: 8 },
            KeyInput { scancode: 0x1e, flags: 10 },
            KeyInput { scancode: 0x38, flags: 10 },
        ]
    );
}

#[test]
fn scan_codes_are_cut_to_16_bits() {
    let vk = VirtualKey { vk_code: 0x41, shift_state: 1 };
    let v = key_press_inputs(vk, 0x1_001e, 0x2_002a, 0, 0).unwrap();
    assert_eq!(v[0], KeyInput { scancode: 0x2a, flags: 8 });
    assert_eq!(v[1], KeyInput { scancode: 0x1e, flags: 8 });
    assert_eq!(
        key_press_inputs(vk, 0x1_0000, 0, 0, 0),
        Err("Could not map virtual key 65 to scancode".to_string())
    );
}

#[test]
fn key_without_scan_code_is_an_error_naming_the_key_code() {
    let vk = VirtualKey { vk_code: 255, shift_state: 0 };
    assert_eq!(
        key_press_inputs(vk, 0, 1, 2, 3),
        Err("Could not map virtual key 255 to scancode".to_string())
    );
}

#[test]
fn key_and_enter_sending_fail_when_nothing_is_sent() {
    assert_eq!(check_key_sent(0), Err("Failed to send key".to_string()));
    assert_eq!(check_key_sent(4), Ok(()));
    assert_eq!(check_enter_sent(0), Err("Failed to send Enter key".to_string()));
    assert_eq!(check_enter_sent(2), Ok(()));
}

#[test]
fn enter_is_down_then_up_or_an_error() {
    assert_eq!(
        enter_key_inputs(0x1c),
        Ok(vec![KeyInput { scancode: 0x1c, flags: 8 }, KeyInput { scancode: 0x1c, flags: 10 }])
    );
    assert_eq!(enter_key_inputs(0), Err("Could not map Enter key to scancode".to_string()));
    assert_eq!(enter_key_inputs(0x1_0000), Err("Could not map Enter key to scancode".to_string()));
}

#[test]
fn click_delay_stays_within_its_bounds() {
    assert_eq!(click_delay(None), None);
    assert_eq!(click_delay(Some((5, 5))), Some(5));
    for _ in 0..200 {
        let d = click_delay(Some((100, 130))).unwrap();
        assert!((100..=130).contains(&d));
    }
}

#[test]
fn decimal_text_of_numbers() {
    use_decimal();
}

fn use_decimal() {
    for n in [0u64, 7, 10, 65, 255, 1000, u64::MAX] {
        assert_eq!(dofus_multi_helper::text::decimal_string(n), n.to_string());
    }
}
