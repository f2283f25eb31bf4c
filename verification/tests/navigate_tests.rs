use exbar::clipboard::{clipboard_payload, Win32Clipboard};
use exbar::dialog_nav::{
    check_sent, ctrl_l_inputs, encode_utf16, enter_inputs, navigation_plan, typing_inputs,
    wide_null, KeyInput, KeybdDialogNavigator, NavError, NavStep, AFTER_CTRL_L_MS,
    FOCUS_SETTLE_MS, VK_CONTROL, VK_L, VK_RETURN,
};

#[test]
fn navigate_invalid_path_returns_err() {
    let path = "\x00invalid\x00";
    let wide = wide_null(path);
    assert_eq!(*wide.last().unwrap(), 0u16);
}

#[test]
fn utf16_matches_std() {
    for s in ["", "C:\\Downloads", "d\u{e9}j\u{e0}", "\u{1F4C1} x", "\u{10FFFF}"] {
        let expected: Vec<u16> = s.encode_utf16().collect();
        assert_eq!(encode_utf16(s), expected);
        let mut with_null = expected.clone();
        with_null.push(0);
        assert_eq!(wide_null(s), with_null);
    }
}

#[test]
fn ctrl_l_and_enter_sequences() {
    assert_eq!(
        ctrl_l_inputs(),
        vec![
            KeyInput::Virtual { vk: VK_CONTROL, key_up: false },
            KeyInput::Virtual { vk: VK_L, key_up: false },
            KeyInput::Virtual { vk: VK_L, key_up: true },
            KeyInput::Virtual { vk: VK_CONTROL, key_up: true },
        ]
    );
    assert_eq!(
        enter_inputs(),
        vec![
            KeyInput::Virtual { vk: VK_RETURN, key_up: false },
            KeyInput::Virtual { vk: VK_RETURN, key_up: true },
        ]
    );
}

#[test]
fn typing_presses_and_releases_each_unit() {
    assert_eq!(
        typing_inputs("C:"),
        vec![
            KeyInput::Unicode { unit: 0x43, key_up: false },
            KeyInput::Unicode { unit: 0x43, key_up: true },
            KeyInput::Unicode { unit: 0x3A, key_up: false },
            KeyInput::Unicode { unit: 0x3A, key_up: true },
        ]
    );
    assert_eq!(typing_inputs("\u{1F4C1}").len(), 4);
}

#[test]
fn plan_orders_focus_pauses_and_batches() {
    let plan = navigation_plan("C:\\D");
    assert_eq!(plan.len(), 6);
    assert_eq!(plan[0], NavStep::Focus);
    assert_eq!(plan[1], NavStep::Pause { ms: FOCUS_SETTLE_MS });
    assert_eq!(plan[2], NavStep::Send { inputs: ctrl_l_inputs() });
    assert_eq!(plan[3], NavStep::Pause { ms: AFTER_CTRL_L_MS });
    assert_eq!(plan[4], NavStep::Send { inputs: typing_inputs("C:\\D") });
    assert_eq!(plan[5], NavStep::Send { inputs: enter_inputs() });
    let empty = navigation_plan("");
    assert_eq!(empty.len(), 5);
    assert_eq!(empty[4], NavStep::Send { inputs: enter_inputs() });
}

#[test]
fn short_send_is_an_error() {
    assert_eq!(check_sent(4, 4), Ok(()));
    assert_eq!(check_sent(2, 4), Err(NavError::ShortSend { sent: 2, expected: 4 }));
}

#[test]
fn navigators_construct() {
    let _ = KeybdDialogNavigator::new();
    let _ = Win32Clipboard::new();
}

#[test]
fn clipboard_block_size() {
    let (units, bytes) = clipboard_payload("ab");
    assert_eq!(units, vec![0x61, 0x62, 0]);
    assert_eq!(bytes, 6);
}

#[test]
fn utf16_round_trip() {
    for s in ["C:\\Users\\me", "d\u{e9}j\u{e0} vu", "\u{1F4C1}\u{10FFFF}x", ""] {
        let units = encode_utf16(s);
        assert_eq!(exbar::text::decode_units_prefix(&units, units.len()), s);
    }
}
