use layerkeys::keys::Key;

#[test]
fn tokens_are_canonical_snake_case() {
    assert_eq!(Key::CapsLock.token(), "caps_lock");
    assert_eq!(Key::LeftCommand.token(), "left_command");
    assert_eq!(Key::A.token(), "a");
    assert_eq!(Key::Z.token(), "z");
    assert_eq!(Key::Key1.token(), "key1");
    assert_eq!(Key::F12.token(), "f12");
    assert_eq!(Key::GraveAccentAndTilde.token(), "grave_accent_and_tilde");
    assert_eq!(Key::KeypadEqualSignAs400.token(), "keypad_equal_sign_as400");
    assert_eq!(Key::JapanesePcNfer.token(), "japanese_pc_nfer");
    assert_eq!(Key::VkNone.token(), "vk_none");
    assert_eq!(
        Key::AppleTopCaseDisplayBrightnessDecrement.token(),
        "apple_top_case_display_brightness_decrement"
    );
}

#[test]
fn token_round_trips_through_parsing() {
    let sample = vec![
        Key::LeftControl,
        Key::LeftShift,
        Key::RightCommand,
        Key::Fn,
        Key::CapsLock,
        Key::ReturnOrEnter,
        Key::Escape,
        Key::Spacebar,
        Key::NonUsBackslash,
        Key::UpArrow,
        Key::PageDown,
        Key::A,
        Key::H,
        Key::Z,
        Key::Key1,
        Key::Key0,
        Key::F1,
        Key::F20,
        Key::KeypadNumLock,
        Key::Keypad5,
        Key::KeypadComma,
        Key::PrintScreen,
        Key::Power,
        Key::International3,
        Key::Lang9,
        Key::JapaneseEisuu,
        Key::VolumeUp,
        Key::F24,
        Key::LockingCapsLock,
        Key::CrSelOrProps,
        Key::VkNone,
        Key::VkMissionControl,
        Key::PlayOrPause,
        Key::IlluminationIncrement,
    ];
    for key in sample {
        assert_eq!(Key::from_token(key.token()), Some(key));
    }
}

#[test]
fn unknown_tokens_do_not_parse() {
    assert_eq!(Key::from_token("hyper"), None);
    assert_eq!(Key::from_token(""), None);
    assert_eq!(Key::from_token("CAPS_LOCK"), None);
    assert_eq!(Key::from_token("caps lock"), None);
}
