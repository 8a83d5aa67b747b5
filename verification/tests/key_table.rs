use g610::keys::{KeyCode, KeyGroup, KEY_COUNT};

#[test]
fn codes_of_the_block_edges() {
    assert_eq!(KeyCode::A.code(), 4);
    assert_eq!(KeyCode::Z.code(), 29);
    assert_eq!(KeyCode::One.code(), 30);
    assert_eq!(KeyCode::Zero.code(), 39);
    assert_eq!(KeyCode::Enter.code(), 40);
    assert_eq!(KeyCode::Backslash.code(), 0x31);
    assert_eq!(KeyCode::Semicolon.code(), 0x33);
    assert_eq!(KeyCode::CapsLock.code(), 57);
    assert_eq!(KeyCode::F1.code(), 58);
    assert_eq!(KeyCode::F12.code(), 69);
    assert_eq!(KeyCode::PrintScreen.code(), 70);
    assert_eq!(KeyCode::Up.code(), 82);
    assert_eq!(KeyCode::Keypad1.code(), 89);
    assert_eq!(KeyCode::KeypadDot.code(), 0x63);
    assert_eq!(KeyCode::MenuButton.code(), 0x65);
    assert_eq!(KeyCode::LeftCtrl.code(), 0xe0);
    assert_eq!(KeyCode::RightWin.code(), 0xe7);
}

#[test]
fn all_lists_every_key_once_in_rising_code_order() {
    let all = KeyCode::all();
    assert_eq!(all.len(), KEY_COUNT);
    assert_eq!(all.len(), 104);
    assert_eq!(all[0], KeyCode::A);
    assert_eq!(all[103], KeyCode::RightWin);
    for pair in all.windows(2) {
        assert!(pair[0].code() < pair[1].code());
    }
}

#[test]
fn all_starts_again_on_every_call() {
    assert_eq!(KeyCode::all(), KeyCode::all());
    assert_eq!(KeyGroup::Alpha.to_keys(), KeyGroup::Alpha.to_keys());
}

#[test]
fn codes_leave_the_three_gaps() {
    let codes: Vec<u8> = KeyCode::all().iter().map(|key| key.code()).collect();
    let mut expected: Vec<u8> = (4..=0x31).collect();
    expected.extend(0x33..=0x63);
    expected.push(0x65);
    expected.extend(0xe0..=0xe7);
    assert_eq!(codes, expected);
}

#[test]
fn letters_are_a_to_z() {
    let keys = KeyGroup::Alpha.to_keys();
    assert_eq!(keys.len(), 26);
    assert_eq!(keys[0], KeyCode::A);
    assert_eq!(keys[1], KeyCode::B);
    assert_eq!(keys[25], KeyCode::Z);
    assert!(KeyCode::A.is_alpha());
    assert!(KeyCode::M.is_alpha());
    assert!(KeyCode::Z.is_alpha());
    assert!(!KeyCode::One.is_alpha());
    assert!(!KeyCode::F1.is_alpha());
    assert!(!KeyCode::LeftShift.is_alpha());
}

#[test]
fn digits_are_one_to_zero() {
    assert_eq!(
        KeyGroup::Num.to_keys(),
        vec![
            KeyCode::One,
            KeyCode::Two,
            KeyCode::Three,
            KeyCode::Four,
            KeyCode::Five,
            KeyCode::Six,
            KeyCode::Seven,
            KeyCode::Eight,
            KeyCode::Nine,
            KeyCode::Zero
        ]
    );
    assert!(KeyCode::One.is_numeric());
    assert!(KeyCode::Zero.is_numeric());
    assert!(!KeyCode::Z.is_numeric());
    assert!(!KeyCode::Enter.is_numeric());
    assert!(!KeyCode::Keypad1.is_numeric());
}

#[test]
fn letters_and_digits_together() {
    let mut expected = KeyGroup::Alpha.to_keys();
    expected.extend(KeyGroup::Num.to_keys());
    assert_eq!(KeyGroup::AlphaNum.to_keys(), expected);
    assert_eq!(expected.len(), 36);
}

#[test]
fn function_keys_are_f1_to_f12() {
    assert_eq!(
        KeyGroup::Fn.to_keys(),
        vec![
            KeyCode::F1,
            KeyCode::F2,
            KeyCode::F3,
            KeyCode::F4,
            KeyCode::F5,
            KeyCode::F6,
            KeyCode::F7,
            KeyCode::F8,
            KeyCode::F9,
            KeyCode::F10,
            KeyCode::F11,
            KeyCode::F12
        ]
    );
}

#[test]
fn function_group_is_the_code_range_of_the_function_keys() {
    let first = KeyCode::F1.code();
    let last = KeyCode::F12.code();
    let members = KeyGroup::Fn.to_keys();
    for key in KeyCode::all() {
        let in_range = first <= key.code() && key.code() <= last;
        assert_eq!(key.is_fn(), in_range);
        assert_eq!(members.contains(&key), in_range);
        assert_eq!(KeyGroup::Fn.contains(&key), in_range);
    }
    assert!(!KeyCode::CapsLock.is_fn());
    assert!(!KeyCode::PrintScreen.is_fn());
}

#[test]
fn groups_keep_the_order_of_the_table() {
    let all = KeyCode::all();
    for group in [KeyGroup::Alpha, KeyGroup::AlphaNum, KeyGroup::Num, KeyGroup::Fn] {
        let expected: Vec<KeyCode> =
            all.iter().copied().filter(|key| group.contains(key)).collect();
        assert_eq!(group.to_keys(), expected);
    }
}
