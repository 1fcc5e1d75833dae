//! The key catalog: a closed enumeration of physical key identifiers
//! and their canonical textual tokens.
//!
//! Each key has one stable snake-case token, its serialization form.
//! Parsing a token and re-serializing the result yields the token back;
//! see [`lemma_key_token_round_trip`].

use vstd::prelude::*;

use crate::text::str_eq;

verus! {

/// A physical key, identified by its canonical snake-case token.
#[derive(Debug, Clone, Copy, PartialEq, Eq, Structural)]
pub enum Key {
    // Sticky Modifier Keys
    LeftControl,
    LeftShift,
    LeftOption,
    LeftCommand,
    RightControl,
    RightShift,
    RightOption,
    RightCommand,
    Fn,

    // Modifier Keys
    CapsLock,

    // Control or Symbol Keys
    ReturnOrEnter,
    Escape,
    DeleteOrBackspace,
    DeleteForward,
    Tab,
    Spacebar,
    Hyphen,
    EqualSign,
    OpenBracket,
    CloseBracket,
    Backslash,
    NonUsPound,
    Semicolon,
    Quote,
    GraveAccentAndTilde,
    Comma,
    Period,
    Slash,
    NonUsBackslash,

    // Arrow Keys
    UpArrow,
    DownArrow,
    LeftArrow,
    RightArrow,
    PageUp,
    PageDown,
    Home,
    End,

    // Letter Keys
    A,
    B,
    C,
    D,
    E,
    F,
    G,
    H,
    I,
    J,
    K,
    L,
    M,
    N,
    O,
    P,
    Q,
    R,
    S,
    T,
    U,
    V,
    W,
    X,
    Y,
    Z,

    // Number Keys
    Key1,
    Key2,
    Key3,
    Key4,
    Key5,
    Key6,
    Key7,
    Key8,
    Key9,
    Key0,

    // Function Keys
    F1,
    F2,
    F3,
    F4,
    F5,
    F6,
    F7,
    F8,
    F9,
    F10,
    F11,
    F12,
    F13,
    F14,
    F15,
    F16,
    F17,
    F18,
    F19,
    F20,

    // Keypad Keys
    KeypadNumLock,
    KeypadSlash,
    KeypadAsterisk,
    KeypadHyphen,
    KeypadPlus,
    KeypadEnter,
    Keypad1,
    Keypad2,
    Keypad3,
    Keypad4,
    Keypad5,
    Keypad6,
    Keypad7,
    Keypad8,
    Keypad9,
    Keypad0,
    KeypadPeriod,
    KeypadEqualSign,
    KeypadComma,

    // PC Keyboard Keys
    PrintScreen,
    ScrollLock,
    Pause,
    Insert,
    Application,
    Help,
    Power,

    // International Keys
    International1,
    International2,
    International3,
    International4,
    International5,
    International6,
    International7,
    International8,
    International9,
    Lang1,
    Lang2,
    Lang3,
    Lang4,
    Lang5,
    Lang6,
    Lang7,
    Lang8,
    Lang9,

    // Japanese Keys
    JapaneseEisuu,
    JapaneseKana,
    JapanesePcNfer,
    JapanesePcXfer,
    JapanesePcKatakana,

    // Other Keys
    VolumeDown,
    VolumeUp,
    Mute,
    VolumeDecrement,
    VolumeIncrement,

    // From Only Keys
    F21,
    F22,
    F23,
    F24,
    Execute,
    Menu,
    Select,
    Stop,
    Again,
    Undo,
    Cut,
    Copy,
    Paste,
    Find,
    KeypadEqualSignAs400,
    LockingCapsLock,
    LockingNumLock,
    LockingScrollLock,
    AlternateErase,
    SysReqOrAttention,
    Cancel,
    Clear,
    Prior,
    Return,
    Separator,
    Out,
    Oper,
    ClearOrAgain,
    CrSelOrProps,
    ExSel,

    // To Only Keys
    VkNone,
    VkConsumerBrightnessDown,
    VkConsumerBrightnessUp,
    VkMissionControl,
    VkLaunchpad,
    VkDashboard,
    VkConsumerIlluminationDown,
    VkConsumerIlluminationUp,
    VkConsumerPrevious,
    VkConsumerPlay,
    VkConsumerNext,
    DisplayBrightnessDecrement,
    DisplayBrightnessIncrement,
    Rewind,
    PlayOrPause,
    Fastforward,
    AppleDisplayBrightnessDecrement,
    AppleDisplayBrightnessIncrement,
    AppleTopCaseDisplayBrightnessDecrement,
    AppleTopCaseDisplayBrightnessIncrement,
    IlluminationDecrement,
    IlluminationIncrement,
}

/// The canonical textual token of each key.
pub open spec fn token_of_key(k: Key) -> Seq<char> {
    match k {
        Key::LeftControl => "left_control"@,
        Key::LeftShift => "left_shift"@,
        Key::LeftOption => "left_option"@,
        Key::LeftCommand => "left_command"@,
        Key::RightControl => "right_control"@,
        Key::RightShift => "right_shift"@,
        Key::RightOption => "right_option"@,
        Key::RightCommand => "right_command"@,
        Key::Fn => "fn"@,
        Key::CapsLock => "caps_lock"@,
        Key::ReturnOrEnter => "return_or_enter"@,
        Key::Escape => "escape"@,
        Key::DeleteOrBackspace => "delete_or_backspace"@,
        Key::DeleteForward => "delete_forward"@,
        Key::Tab => "tab"@,
        Key::Spacebar => "spacebar"@,
        Key::Hyphen => "hyphen"@,
        Key::EqualSign => "equal_sign"@,
        Key::OpenBracket => "open_bracket"@,
        Key::CloseBracket => "close_bracket"@,
        Key::Backslash => "backslash"@,
        Key::NonUsPound => "non_us_pound"@,
        Key::Semicolon => "semicolon"@,
        Key::Quote => "quote"@,
        Key::GraveAccentAndTilde => "grave_accent_and_tilde"@,
        Key::Comma => "comma"@,
        Key::Period => "period"@,
        Key::Slash => "slash"@,
        Key::NonUsBackslash => "non_us_backslash"@,
        Key::UpArrow => "up_arrow"@,
        Key::DownArrow => "down_arrow"@,
        Key::LeftArrow => "left_arrow"@,
        Key::RightArrow => "right_arrow"@,
        Key::PageUp => "page_up"@,
        Key::PageDown => "page_down"@,
        Key::Home => "home"@,
        Key::End => "end"@,
        Key::A => "a"@,
        Key::B => "b"@,
        Key::C => "c"@,
        Key::D => "d"@,
        Key::E => "e"@,
        Key::F => "f"@,
        Key::G => "g"@,
        Key::H => "h"@,
        Key::I => "i"@,
        Key::J => "j"@,
        Key::K => "k"@,
        Key::L => "l"@,
        Key::M => "m"@,
        Key::N => "n"@,
        Key::O => "o"@,
        Key::P => "p"@,
        Key::Q => "q"@,
        Key::R => "r"@,
        Key::S => "s"@,
        Key::T => "t"@,
        Key::U => "u"@,
        Key::V => "v"@,
        Key::W => "w"@,
        Key::X => "x"@,
        Key::Y => "y"@,
        Key::Z => "z"@,
        Key::Key1 => "key1"@,
        Key::Key2 => "key2"@,
        Key::Key3 => "key3"@,
        Key::Key4 => "key4"@,
        Key::Key5 => "key5"@,
        Key::Key6 => "key6"@,
        Key::Key7 => "key7"@,
        Key::Key8 => "key8"@,
        Key::Key9 => "key9"@,
        Key::Key0 => "key0"@,
        Key::F1 => "f1"@,
        Key::F2 => "f2"@,
        Key::F3 => "f3"@,
        Key::F4 => "f4"@,
        Key::F5 => "f5"@,
        Key::F6 => "f6"@,
        Key::F7 => "f7"@,
        Key::F8 => "f8"@,
        Key::F9 => "f9"@,
        Key::F10 => "f10"@,
        Key::F11 => "f11"@,
        Key::F12 => "f12"@,
        Key::F13 => "f13"@,
        Key::F14 => "f14"@,
        Key::F15 => "f15"@,
        Key::F16 => "f16"@,
        Key::F17 => "f17"@,
        Key::F18 => "f18"@,
        Key::F19 => "f19"@,
        Key::F20 => "f20"@,
        Key::KeypadNumLock => "keypad_num_lock"@,
        Key::KeypadSlash => "keypad_slash"@,
        Key::KeypadAsterisk => "keypad_asterisk"@,
        Key::KeypadHyphen => "keypad_hyphen"@,
        Key::KeypadPlus => "keypad_plus"@,
        Key::KeypadEnter => "keypad_enter"@,
        Key::Keypad1 => "keypad1"@,
        Key::Keypad2 => "keypad2"@,
        Key::Keypad3 => "keypad3"@,
        Key::Keypad4 => "keypad4"@,
        Key::Keypad5 => "keypad5"@,
        Key::Keypad6 => "keypad6"@,
        Key::Keypad7 => "keypad7"@,
        Key::Keypad8 => "keypad8"@,
        Key::Keypad9 => "keypad9"@,
        Key::Keypad0 => "keypad0"@,
        Key::KeypadPeriod => "keypad_period"@,
        Key::KeypadEqualSign => "keypad_equal_sign"@,
        Key::KeypadComma => "keypad_comma"@,
        Key::PrintScreen => "print_screen"@,
        Key::ScrollLock => "scroll_lock"@,
        Key::Pause => "pause"@,
        Key::Insert => "insert"@,
        Key::Application => "application"@,
        Key::Help => "help"@,
        Key::Power => "power"@,
        Key::International1 => "international1"@,
        Key::International2 => "international2"@,
        Key::International3 => "international3"@,
        Key::International4 => "international4"@,
        Key::International5 => "international5"@,
        Key::International6 => "international6"@,
        Key::International7 => "international7"@,
        Key::International8 => "international8"@,
        Key::International9 => "international9"@,
        Key::Lang1 => "lang1"@,
        Key::Lang2 => "lang2"@,
        Key::Lang3 => "lang3"@,
        Key::Lang4 => "lang4"@,
        Key::Lang5 => "lang5"@,
        Key::Lang6 => "lang6"@,
        Key::Lang7 => "lang7"@,
        Key::Lang8 => "lang8"@,
        Key::Lang9 => "lang9"@,
        Key::JapaneseEisuu => "japanese_eisuu"@,
        Key::JapaneseKana => "japanese_kana"@,
        Key::JapanesePcNfer => "japanese_pc_nfer"@,
        Key::JapanesePcXfer => "japanese_pc_xfer"@,
        Key::JapanesePcKatakana => "japanese_pc_katakana"@,
        Key::VolumeDown => "volume_down"@,
        Key::VolumeUp => "volume_up"@,
        Key::Mute => "mute"@,
        Key::VolumeDecrement => "volume_decrement"@,
        Key::VolumeIncrement => "volume_increment"@,
        Key::F21 => "f21"@,
        Key::F22 => "f22"@,
        Key::F23 => "f23"@,
        Key::F24 => "f24"@,
        Key::Execute => "execute"@,
        Key::Menu => "menu"@,
        Key::Select => "select"@,
        Key::Stop => "stop"@,
        Key::Again => "again"@,
        Key::Undo => "undo"@,
        Key::Cut => "cut"@,
        Key::Copy => "copy"@,
        Key::Paste => "paste"@,
        Key::Find => "find"@,
        Key::KeypadEqualSignAs400 => "keypad_equal_sign_as400"@,
        Key::LockingCapsLock => "locking_caps_lock"@,
        Key::LockingNumLock => "locking_num_lock"@,
        Key::LockingScrollLock => "locking_scroll_lock"@,
        Key::AlternateErase => "alternate_erase"@,
        Key::SysReqOrAttention => "sys_req_or_attention"@,
        Key::Cancel => "cancel"@,
        Key::Clear => "clear"@,
        Key::Prior => "prior"@,
        Key::Return => "return"@,
        Key::Separator => "separator"@,
        Key::Out => "out"@,
        Key::Oper => "oper"@,
        Key::ClearOrAgain => "clear_or_again"@,
        Key::CrSelOrProps => "cr_sel_or_props"@,
        Key::ExSel => "ex_sel"@,
        Key::VkNone => "vk_none"@,
        Key::VkConsumerBrightnessDown => "vk_consumer_brightness_down"@,
        Key::VkConsumerBrightnessUp => "vk_consumer_brightness_up"@,
        Key::VkMissionControl => "vk_mission_control"@,
        Key::VkLaunchpad => "vk_launchpad"@,
        Key::VkDashboard => "vk_dashboard"@,
        Key::VkConsumerIlluminationDown => "vk_consumer_illumination_down"@,
        Key::VkConsumerIlluminationUp => "vk_consumer_illumination_up"@,
        Key::VkConsumerPrevious => "vk_consumer_previous"@,
        Key::VkConsumerPlay => "vk_consumer_play"@,
        Key::VkConsumerNext => "vk_consumer_next"@,
        Key::DisplayBrightnessDecrement => "display_brightness_decrement"@,
        Key::DisplayBrightnessIncrement => "display_brightness_increment"@,
        Key::Rewind => "rewind"@,
        Key::PlayOrPause => "play_or_pause"@,
        Key::Fastforward => "fastforward"@,
        Key::AppleDisplayBrightnessDecrement => "apple_display_brightness_decrement"@,
        Key::AppleDisplayBrightnessIncrement => "apple_display_brightness_increment"@,
        Key::AppleTopCaseDisplayBrightnessDecrement => "apple_top_case_display_brightness_decrement"@,
        Key::AppleTopCaseDisplayBrightnessIncrement => "apple_top_case_display_brightness_increment"@,
        Key::IlluminationDecrement => "illumination_decrement"@,
        Key::IlluminationIncrement => "illumination_increment"@,
    }
}

pub open spec fn sticky_modifier_key_of_token(s: Seq<char>) -> Option<Key> {
    if s == "left_control"@ {
        Some(Key::LeftControl)
    } else if s == "left_shift"@ {
        Some(Key::LeftShift)
    } else if s == "left_option"@ {
        Some(Key::LeftOption)
    } else if s == "left_command"@ {
        Some(Key::LeftCommand)
    } else if s == "right_control"@ {
        Some(Key::RightControl)
    } else if s == "right_shift"@ {
        Some(Key::RightShift)
    } else if s == "right_option"@ {
        Some(Key::RightOption)
    } else if s == "right_command"@ {
        Some(Key::RightCommand)
    } else if s == "fn"@ {
        Some(Key::Fn)
    } else {
        None
    }
}

pub open spec fn modifier_key_of_token(s: Seq<char>) -> Option<Key> {
    if s == "caps_lock"@ {
        Some(Key::CapsLock)
    } else {
        None
    }
}

pub open spec fn control_or_symbol_key_of_token(s: Seq<char>) -> Option<Key> {
    if s == "return_or_enter"@ {
        Some(Key::ReturnOrEnter)
    } else if s == "escape"@ {
        Some(Key::Escape)
    } else if s == "delete_or_backspace"@ {
        Some(Key::DeleteOrBackspace)
    } else if s == "delete_forward"@ {
        Some(Key::DeleteForward)
    } else if s == "tab"@ {
        Some(Key::Tab)
    } else if s == "spacebar"@ {
        Some(Key::Spacebar)
    } else if s == "hyphen"@ {
        Some(Key::Hyphen)
    } else if s == "equal_sign"@ {
        Some(Key::EqualSign)
    } else if s == "open_bracket"@ {
        Some(Key::OpenBracket)
    } else if s == "close_bracket"@ {
        Some(Key::CloseBracket)
    } else if s == "backslash"@ {
        Some(Key::Backslash)
    } else if s == "non_us_pound"@ {
        Some(Key::NonUsPound)
    } else if s == "semicolon"@ {
        Some(Key::Semicolon)
    } else if s == "quote"@ {
        Some(Key::Quote)
    } else if s == "grave_accent_and_tilde"@ {
        Some(Key::GraveAccentAndTilde)
    } else if s == "comma"@ {
        Some(Key::Comma)
    } else if s == "period"@ {
        Some(Key::Period)
    } else if s == "slash"@ {
        Some(Key::Slash)
    } else if s == "non_us_backslash"@ {
        Some(Key::NonUsBackslash)
    } else {
        None
    }
}

pub open spec fn arrow_key_of_token(s: Seq<char>) -> Option<Key> {
    if s == "up_arrow"@ {
        Some(Key::UpArrow)
    } else if s == "down_arrow"@ {
        Some(Key::DownArrow)
    } else if s == "left_arrow"@ {
        Some(Key::LeftArrow)
    } else if s == "right_arrow"@ {
        Some(Key::RightArrow)
    } else if s == "page_up"@ {
        Some(Key::PageUp)
    } else if s == "page_down"@ {
        Some(Key::PageDown)
    } else if s == "home"@ {
        Some(Key::Home)
    } else if s == "end"@ {
        Some(Key::End)
    } else {
        None
    }
}

pub open spec fn letter_key_of_token(s: Seq<char>) -> Option<Key> {
    if s == "a"@ {
        Some(Key::A)
    } else if s == "b"@ {
        Some(Key::B)
    } else if s == "c"@ {
        Some(Key::C)
    } else if s == "d"@ {
        Some(Key::D)
    } else if s == "e"@ {
        Some(Key::E)
    } else if s == "f"@ {
        Some(Key::F)
    } else if s == "g"@ {
        Some(Key::G)
    } else if s == "h"@ {
        Some(Key::H)
    } else if s == "i"@ {
        Some(Key::I)
    } else if s == "j"@ {
        Some(Key::J)
    } else if s == "k"@ {
        Some(Key::K)
    } else if s == "l"@ {
        Some(Key::L)
    } else if s == "m"@ {
        Some(Key::M)
    } else if s == "n"@ {
        Some(Key::N)
    } else if s == "o"@ {
        Some(Key::O)
    } else if s == "p"@ {
        Some(Key::P)
    } else if s == "q"@ {
        Some(Key::Q)
    } else if s == "r"@ {
        Some(Key::R)
    } else if s == "s"@ {
        Some(Key::S)
    } else if s == "t"@ {
        Some(Key::T)
    } else if s == "u"@ {
        Some(Key::U)
    } else if s == "v"@ {
        Some(Key::V)
    } else if s == "w"@ {
        Some(Key::W)
    } else if s == "x"@ {
        Some(Key::X)
    } else if s == "y"@ {
        Some(Key::Y)
    } else if s == "z"@ {
        Some(Key::Z)
    } else {
        None
    }
}

pub open spec fn number_key_of_token(s: Seq<char>) -> Option<Key> {
    if s == "key1"@ {
        Some(Key::Key1)
    } else if s == "key2"@ {
        Some(Key::Key2)
    } else if s == "key3"@ {
        Some(Key::Key3)
    } else if s == "key4"@ {
        Some(Key::Key4)
    } else if s == "key5"@ {
        Some(Key::Key5)
    } else if s == "key6"@ {
        Some(Key::Key6)
    } else if s == "key7"@ {
        Some(Key::Key7)
    } else if s == "key8"@ {
        Some(Key::Key8)
    } else if s == "key9"@ {
        Some(Key::Key9)
    } else if s == "key0"@ {
        Some(Key::Key0)
    } else {
        None
    }
}

pub open spec fn function_key_of_token(s: Seq<char>) -> Option<Key> {
    if s == "f1"@ {
        Some(Key::F1)
    } else if s == "f2"@ {
        Some(Key::F2)
    } else if s == "f3"@ {
        Some(Key::F3)
    } else if s == "f4"@ {
        Some(Key::F4)
    } else if s == "f5"@ {
        Some(Key::F5)
    } else if s == "f6"@ {
        Some(Key::F6)
    } else if s == "f7"@ {
        Some(Key::F7)
    } else if s == "f8"@ {
        Some(Key::F8)
    } else if s == "f9"@ {
        Some(Key::F9)
    } else if s == "f10"@ {
        Some(Key::F10)
    } else if s == "f11"@ {
        Some(Key::F11)
    } else if s == "f12"@ {
        Some(Key::F12)
    } else if s == "f13"@ {
        Some(Key::F13)
    } else if s == "f14"@ {
        Some(Key::F14)
    } else if s == "f15"@ {
        Some(Key::F15)
    } else if s == "f16"@ {
        Some(Key::F16)
    } else if s == "f17"@ {
        Some(Key::F17)
    } else if s == "f18"@ {
        Some(Key::F18)
    } else if s == "f19"@ {
        Some(Key::F19)
    } else if s == "f20"@ {
        Some(Key::F20)
    } else {
        None
    }
}

pub open spec fn keypad_key_of_token(s: Seq<char>) -> Option<Key> {
    if s == "keypad_num_lock"@ {
        Some(Key::KeypadNumLock)
    } else if s == "keypad_slash"@ {
        Some(Key::KeypadSlash)
    } else if s == "keypad_asterisk"@ {
        Some(Key::KeypadAsterisk)
    } else if s == "keypad_hyphen"@ {
        Some(Key::KeypadHyphen)
    } else if s == "keypad_plus"@ {
        Some(Key::KeypadPlus)
    } else if s == "keypad_enter"@ {
        Some(Key::KeypadEnter)
    } else if s == "keypad1"@ {
        Some(Key::Keypad1)
    } else if s == "keypad2"@ {
        Some(Key::Keypad2)
    } else if s == "keypad3"@ {
        Some(Key::Keypad3)
    } else if s == "keypad4"@ {
        Some(Key::Keypad4)
    } else if s == "keypad5"@ {
        Some(Key::Keypad5)
    } else if s == "keypad6"@ {
        Some(Key::Keypad6)
    } else if s == "keypad7"@ {
        Some(Key::Keypad7)
    } else if s == "keypad8"@ {
        Some(Key::Keypad8)
    } else if s == "keypad9"@ {
        Some(Key::Keypad9)
    } else if s == "keypad0"@ {
        Some(Key::Keypad0)
    } else if s == "keypad_period"@ {
        Some(Key::KeypadPeriod)
    } else if s == "keypad_equal_sign"@ {
        Some(Key::KeypadEqualSign)
    } else if s == "keypad_comma"@ {
        Some(Key::KeypadComma)
    } else {
        None
    }
}

pub open spec fn pc_keyboard_key_of_token(s: Seq<char>) -> Option<Key> {
    if s == "print_screen"@ {
        Some(Key::PrintScreen)
    } else if s == "scroll_lock"@ {
        Some(Key::ScrollLock)
    } else if s == "pause"@ {
        Some(Key::Pause)
    } else if s == "insert"@ {
        Some(Key::Insert)
    } else if s == "application"@ {
        Some(Key::Application)
    } else if s == "help"@ {
        Some(Key::Help)
    } else if s == "power"@ {
        Some(Key::Power)
    } else {
        None
    }
}

pub open spec fn international_key_of_token(s: Seq<char>) -> Option<Key> {
    if s == "international1"@ {
        Some(Key::International1)
    } else if s == "international2"@ {
        Some(Key::International2)
    } else if s == "international3"@ {
        Some(Key::International3)
    } else if s == "international4"@ {
        Some(Key::International4)
    } else if s == "international5"@ {
        Some(Key::International5)
    } else if s == "international6"@ {
        Some(Key::International6)
    } else if s == "international7"@ {
        Some(Key::International7)
    } else if s == "international8"@ {
        Some(Key::International8)
    } else if s == "international9"@ {
        Some(Key::International9)
    } else if s == "lang1"@ {
        Some(Key::Lang1)
    } else if s == "lang2"@ {
        Some(Key::Lang2)
    } else if s == "lang3"@ {
        Some(Key::Lang3)
    } else if s == "lang4"@ {
        Some(Key::Lang4)
    } else if s == "lang5"@ {
        Some(Key::Lang5)
    } else if s == "lang6"@ {
        Some(Key::Lang6)
    } else if s == "lang7"@ {
        Some(Key::Lang7)
    } else if s == "lang8"@ {
        Some(Key::Lang8)
    } else if s == "lang9"@ {
        Some(Key::Lang9)
    } else {
        None
    }
}

pub open spec fn japanese_key_of_token(s: Seq<char>) -> Option<Key> {
    if s == "japanese_eisuu"@ {
        Some(Key::JapaneseEisuu)
    } else if s == "japanese_kana"@ {
        Some(Key::JapaneseKana)
    } else if s == "japanese_pc_nfer"@ {
        Some(Key::JapanesePcNfer)
    } else if s == "japanese_pc_xfer"@ {
        Some(Key::JapanesePcXfer)
    } else if s == "japanese_pc_katakana"@ {
        Some(Key::JapanesePcKatakana)
    } else {
        None
    }
}

pub open spec fn other_key_of_token(s: Seq<char>) -> Option<Key> {
    if s == "volume_down"@ {
        Some(Key::VolumeDown)
    } else if s == "volume_up"@ {
        Some(Key::VolumeUp)
    } else if s == "mute"@ {
        Some(Key::Mute)
    } else if s == "volume_decrement"@ {
        Some(Key::VolumeDecrement)
    } else if s == "volume_increment"@ {
        Some(Key::VolumeIncrement)
    } else {
        None
    }
}

pub open spec fn from_only_key_of_token(s: Seq<char>) -> Option<Key> {
    if s == "f21"@ {
        Some(Key::F21)
    } else if s == "f22"@ {
        Some(Key::F22)
    } else if s == "f23"@ {
        Some(Key::F23)
    } else if s == "f24"@ {
        Some(Key::F24)
    } else if s == "execute"@ {
        Some(Key::Execute)
    } else if s == "menu"@ {
        Some(Key::Menu)
    } else if s == "select"@ {
        Some(Key::Select)
    } else if s == "stop"@ {
        Some(Key::Stop)
    } else if s == "again"@ {
        Some(Key::Again)
    } else if s == "undo"@ {
        Some(Key::Undo)
    } else if s == "cut"@ {
        Some(Key::Cut)
    } else if s == "copy"@ {
        Some(Key::Copy)
    } else if s == "paste"@ {
        Some(Key::Paste)
    } else if s == "find"@ {
        Some(Key::Find)
    } else if s == "keypad_equal_sign_as400"@ {
        Some(Key::KeypadEqualSignAs400)
    } else if s == "locking_caps_lock"@ {
        Some(Key::LockingCapsLock)
    } else if s == "locking_num_lock"@ {
        Some(Key::LockingNumLock)
    } else if s == "locking_scroll_lock"@ {
        Some(Key::LockingScrollLock)
    } else if s == "alternate_erase"@ {
        Some(Key::AlternateErase)
    } else if s == "sys_req_or_attention"@ {
        Some(Key::SysReqOrAttention)
    } else if s == "cancel"@ {
        Some(Key::Cancel)
    } else if s == "clear"@ {
        Some(Key::Clear)
    } else if s == "prior"@ {
        Some(Key::Prior)
    } else if s == "return"@ {
        Some(Key::Return)
    } else if s == "separator"@ {
        Some(Key::Separator)
    } else if s == "out"@ {
        Some(Key::Out)
    } else if s == "oper"@ {
        Some(Key::Oper)
    } else if s == "clear_or_again"@ {
        Some(Key::ClearOrAgain)
    } else if s == "cr_sel_or_props"@ {
        Some(Key::CrSelOrProps)
    } else if s == "ex_sel"@ {
        Some(Key::ExSel)
    } else {
        None
    }
}

pub open spec fn to_only_key_of_token(s: Seq<char>) -> Option<Key> {
    if s == "vk_none"@ {
        Some(Key::VkNone)
    } else if s == "vk_consumer_brightness_down"@ {
        Some(Key::VkConsumerBrightnessDown)
    } else if s == "vk_consumer_brightness_up"@ {
        Some(Key::VkConsumerBrightnessUp)
    } else if s == "vk_mission_control"@ {
        Some(Key::VkMissionControl)
    } else if s == "vk_launchpad"@ {
        Some(Key::VkLaunchpad)
    } else if s == "vk_dashboard"@ {
        Some(Key::VkDashboard)
    } else if s == "vk_consumer_illumination_down"@ {
        Some(Key::VkConsumerIlluminationDown)
    } else if s == "vk_consumer_illumination_up"@ {
        Some(Key::VkConsumerIlluminationUp)
    } else if s == "vk_consumer_previous"@ {
        Some(Key::VkConsumerPrevious)
    } else if s == "vk_consumer_play"@ {
        Some(Key::VkConsumerPlay)
    } else if s == "vk_consumer_next"@ {
        Some(Key::VkConsumerNext)
    } else if s == "display_brightness_decrement"@ {
        Some(Key::DisplayBrightnessDecrement)
    } else if s == "display_brightness_increment"@ {
        Some(Key::DisplayBrightnessIncrement)
    } else if s == "rewind"@ {
        Some(Key::Rewind)
    } else if s == "play_or_pause"@ {
        Some(Key::PlayOrPause)
    } else if s == "fastforward"@ {
        Some(Key::Fastforward)
    } else if s == "apple_display_brightness_decrement"@ {
        Some(Key::AppleDisplayBrightnessDecrement)
    } else if s == "apple_display_brightness_increment"@ {
        Some(Key::AppleDisplayBrightnessIncrement)
    } else if s == "apple_top_case_display_brightness_decrement"@ {
        Some(Key::AppleTopCaseDisplayBrightnessDecrement)
    } else if s == "apple_top_case_display_brightness_increment"@ {
        Some(Key::AppleTopCaseDisplayBrightnessIncrement)
    } else if s == "illumination_decrement"@ {
        Some(Key::IlluminationDecrement)
    } else if s == "illumination_increment"@ {
        Some(Key::IlluminationIncrement)
    } else {
        None
    }
}

/// The key whose token is `s`, if any.
pub open spec fn key_of_token(s: Seq<char>) -> Option<Key> {
    if sticky_modifier_key_of_token(s) is Some {
        sticky_modifier_key_of_token(s)
    } else if modifier_key_of_token(s) is Some {
        modifier_key_of_token(s)
    } else if control_or_symbol_key_of_token(s) is Some {
        control_or_symbol_key_of_token(s)
    } else if arrow_key_of_token(s) is Some {
        arrow_key_of_token(s)
    } else if letter_key_of_token(s) is Some {
        letter_key_of_token(s)
    } else if number_key_of_token(s) is Some {
        number_key_of_token(s)
    } else if function_key_of_token(s) is Some {
        function_key_of_token(s)
    } else if keypad_key_of_token(s) is Some {
        keypad_key_of_token(s)
    } else if pc_keyboard_key_of_token(s) is Some {
        pc_keyboard_key_of_token(s)
    } else if international_key_of_token(s) is Some {
        international_key_of_token(s)
    } else if japanese_key_of_token(s) is Some {
        japanese_key_of_token(s)
    } else if other_key_of_token(s) is Some {
        other_key_of_token(s)
    } else if from_only_key_of_token(s) is Some {
        from_only_key_of_token(s)
    } else {
        to_only_key_of_token(s)
    }
}

impl Key {
    /// The canonical textual token of this key.
    pub fn token(self) -> (r: &'static str)
        ensures
            r@ == token_of_key(self),
    {
        match self {
            Key::LeftControl => "left_control",
            Key::LeftShift => "left_shift",
            Key::LeftOption => "left_option",
            Key::LeftCommand => "left_command",
            Key::RightControl => "right_control",
            Key::RightShift => "right_shift",
            Key::RightOption => "right_option",
            Key::RightCommand => "right_command",
            Key::Fn => "fn",
            Key::CapsLock => "caps_lock",
            Key::ReturnOrEnter => "return_or_enter",
            Key::Escape => "escape",
            Key::DeleteOrBackspace => "delete_or_backspace",
            Key::DeleteForward => "delete_forward",
            Key::Tab => "tab",
            Key::Spacebar => "spacebar",
            Key::Hyphen => "hyphen",
            Key::EqualSign => "equal_sign",
            Key::OpenBracket => "open_bracket",
            Key::CloseBracket => "close_bracket",
            Key::Backslash => "backslash",
            Key::NonUsPound => "non_us_pound",
            Key::Semicolon => "semicolon",
            Key::Quote => "quote",
            Key::GraveAccentAndTilde => "grave_accent_and_tilde",
            Key::Comma => "comma",
            Key::Period => "period",
            Key::Slash => "slash",
            Key::NonUsBackslash => "non_us_backslash",
            Key::UpArrow => "up_arrow",
            Key::DownArrow => "down_arrow",
            Key::LeftArrow => "left_arrow",
            Key::RightArrow => "right_arrow",
            Key::PageUp => "page_up",
            Key::PageDown => "page_down",
            Key::Home => "home",
            Key::End => "end",
            Key::A => "a",
            Key::B => "b",
            Key::C => "c",
            Key::D => "d",
            Key::E => "e",
            Key::F => "f",
            Key::G => "g",
            Key::H => "h",
            Key::I => "i",
            Key::J => "j",
            Key::K => "k",
            Key::L => "l",
            Key::M => "m",
            Key::N => "n",
            Key::O => "o",
            Key::P => "p",
            Key::Q => "q",
            Key::R => "r",
            Key::S => "s",
            Key::T => "t",
            Key::U => "u",
            Key::V => "v",
            Key::W => "w",
            Key::X => "x",
            Key::Y => "y",
            Key::Z => "z",
            Key::Key1 => "key1",
            Key::Key2 => "key2",
            Key::Key3 => "key3",
            Key::Key4 => "key4",
            Key::Key5 => "key5",
            Key::Key6 => "key6",
            Key::Key7 => "key7",
            Key::Key8 => "key8",
            Key::Key9 => "key9",
            Key::Key0 => "key0",
            Key::F1 => "f1",
            Key::F2 => "f2",
            Key::F3 => "f3",
            Key::F4 => "f4",
            Key::F5 => "f5",
            Key::F6 => "f6",
            Key::F7 => "f7",
            Key::F8 => "f8",
            Key::F9 => "f9",
            Key::F10 => "f10",
            Key::F11 => "f11",
            Key::F12 => "f12",
            Key::F13 => "f13",
            Key::F14 => "f14",
            Key::F15 => "f15",
            Key::F16 => "f16",
            Key::F17 => "f17",
            Key::F18 => "f18",
            Key::F19 => "f19",
            Key::F20 => "f20",
            Key::KeypadNumLock => "keypad_num_lock",
            Key::KeypadSlash => "keypad_slash",
            Key::KeypadAsterisk => "keypad_asterisk",
            Key::KeypadHyphen => "keypad_hyphen",
            Key::KeypadPlus => "keypad_plus",
            Key::KeypadEnter => "keypad_enter",
            Key::Keypad1 => "keypad1",
            Key::Keypad2 => "keypad2",
            Key::Keypad3 => "keypad3",
            Key::Keypad4 => "keypad4",
            Key::Keypad5 => "keypad5",
            Key::Keypad6 => "keypad6",
            Key::Keypad7 => "keypad7",
            Key::Keypad8 => "keypad8",
            Key::Keypad9 => "keypad9",
            Key::Keypad0 => "keypad0",
            Key::KeypadPeriod => "keypad_period",
            Key::KeypadEqualSign => "keypad_equal_sign",
            Key::KeypadComma => "keypad_comma",
            Key::PrintScreen => "print_screen",
            Key::ScrollLock => "scroll_lock",
            Key::Pause => "pause",
            Key::Insert => "insert",
            Key::Application => "application",
            Key::Help => "help",
            Key::Power => "power",
            Key::International1 => "international1",
            Key::International2 => "international2",
            Key::International3 => "international3",
            Key::International4 => "international4",
            Key::International5 => "international5",
            Key::International6 => "international6",
            Key::International7 => "international7",
            Key::International8 => "international8",
            Key::International9 => "international9",
            Key::Lang1 => "lang1",
            Key::Lang2 => "lang2",
            Key::Lang3 => "lang3",
            Key::Lang4 => "lang4",
            Key::Lang5 => "lang5",
            Key::Lang6 => "lang6",
            Key::Lang7 => "lang7",
            Key::Lang8 => "lang8",
            Key::Lang9 => "lang9",
            Key::JapaneseEisuu => "japanese_eisuu",
            Key::JapaneseKana => "japanese_kana",
            Key::JapanesePcNfer => "japanese_pc_nfer",
            Key::JapanesePcXfer => "japanese_pc_xfer",
            Key::JapanesePcKatakana => "japanese_pc_katakana",
            Key::VolumeDown => "volume_down",
            Key::VolumeUp => "volume_up",
            Key::Mute => "mute",
            Key::VolumeDecrement => "volume_decrement",
            Key::VolumeIncrement => "volume_increment",
            Key::F21 => "f21",
            Key::F22 => "f22",
            Key::F23 => "f23",
            Key::F24 => "f24",
            Key::Execute => "execute",
            Key::Menu => "menu",
            Key::Select => "select",
            Key::Stop => "stop",
            Key::Again => "again",
            Key::Undo => "undo",
            Key::Cut => "cut",
            Key::Copy => "copy",
            Key::Paste => "paste",
            Key::Find => "find",
            Key::KeypadEqualSignAs400 => "keypad_equal_sign_as400",
            Key::LockingCapsLock => "locking_caps_lock",
            Key::LockingNumLock => "locking_num_lock",
            Key::LockingScrollLock => "locking_scroll_lock",
            Key::AlternateErase => "alternate_erase",
            Key::SysReqOrAttention => "sys_req_or_attention",
            Key::Cancel => "cancel",
            Key::Clear => "clear",
            Key::Prior => "prior",
            Key::Return => "return",
            Key::Separator => "separator",
            Key::Out => "out",
            Key::Oper => "oper",
            Key::ClearOrAgain => "clear_or_again",
            Key::CrSelOrProps => "cr_sel_or_props",
            Key::ExSel => "ex_sel",
            Key::VkNone => "vk_none",
            Key::VkConsumerBrightnessDown => "vk_consumer_brightness_down",
            Key::VkConsumerBrightnessUp => "vk_consumer_brightness_up",
            Key::VkMissionControl => "vk_mission_control",
            Key::VkLaunchpad => "vk_launchpad",
            Key::VkDashboard => "vk_dashboard",
            Key::VkConsumerIlluminationDown => "vk_consumer_illumination_down",
            Key::VkConsumerIlluminationUp => "vk_consumer_illumination_up",
            Key::VkConsumerPrevious => "vk_consumer_previous",
            Key::VkConsumerPlay => "vk_consumer_play",
            Key::VkConsumerNext => "vk_consumer_next",
            Key::DisplayBrightnessDecrement => "display_brightness_decrement",
            Key::DisplayBrightnessIncrement => "display_brightness_increment",
            Key::Rewind => "rewind",
            Key::PlayOrPause => "play_or_pause",
            Key::Fastforward => "fastforward",
            Key::AppleDisplayBrightnessDecrement => "apple_display_brightness_decrement",
            Key::AppleDisplayBrightnessIncrement => "apple_display_brightness_increment",
            Key::AppleTopCaseDisplayBrightnessDecrement => "apple_top_case_display_brightness_decrement",
            Key::AppleTopCaseDisplayBrightnessIncrement => "apple_top_case_display_brightness_increment",
            Key::IlluminationDecrement => "illumination_decrement",
            Key::IlluminationIncrement => "illumination_increment",
        }
    }

    /// The key whose canonical token is `s`, if any.
    pub fn from_token(s: &str) -> (r: Option<Key>)
        ensures
            r == key_of_token(s@),
    {
        let r = parse_sticky_modifier_key(s);
        if r.is_some() {
            return r;
        }
        let r = parse_modifier_key(s);
        if r.is_some() {
            return r;
        }
        let r = parse_control_or_symbol_key(s);
        if r.is_some() {
            return r;
        }
        let r = parse_arrow_key(s);
        if r.is_some() {
            return r;
        }
        let r = parse_letter_key(s);
        if r.is_some() {
            return r;
        }
        let r = parse_number_key(s);
        if r.is_some() {
            return r;
        }
        let r = parse_function_key(s);
        if r.is_some() {
            return r;
        }
        let r = parse_keypad_key(s);
        if r.is_some() {
            return r;
        }
        let r = parse_pc_keyboard_key(s);
        if r.is_some() {
            return r;
        }
        let r = parse_international_key(s);
        if r.is_some() {
            return r;
        }
        let r = parse_japanese_key(s);
        if r.is_some() {
            return r;
        }
        let r = parse_other_key(s);
        if r.is_some() {
            return r;
        }
        let r = parse_from_only_key(s);
        if r.is_some() {
            return r;
        }
        let r = parse_to_only_key(s);
        r
    }
}

fn parse_sticky_modifier_key(s: &str) -> (r: Option<Key>)
    ensures
        r == sticky_modifier_key_of_token(s@),
{
    if str_eq(s, "left_control") {
        Some(Key::LeftControl)
    } else if str_eq(s, "left_shift") {
        Some(Key::LeftShift)
    } else if str_eq(s, "left_option") {
        Some(Key::LeftOption)
    } else if str_eq(s, "left_command") {
        Some(Key::LeftCommand)
    } else if str_eq(s, "right_control") {
        Some(Key::RightControl)
    } else if str_eq(s, "right_shift") {
        Some(Key::RightShift)
    } else if str_eq(s, "right_option") {
        Some(Key::RightOption)
    } else if str_eq(s, "right_command") {
        Some(Key::RightCommand)
    } else if str_eq(s, "fn") {
        Some(Key::Fn)
    } else {
        None
    }
}

fn parse_modifier_key(s: &str) -> (r: Option<Key>)
    ensures
        r == modifier_key_of_token(s@),
{
    if str_eq(s, "caps_lock") {
        Some(Key::CapsLock)
    } else {
        None
    }
}

fn parse_control_or_symbol_key(s: &str) -> (r: Option<Key>)
    ensures
        r == control_or_symbol_key_of_token(s@),
{
    if str_eq(s, "return_or_enter") {
        Some(Key::ReturnOrEnter)
    } else if str_eq(s, "escape") {
        Some(Key::Escape)
    } else if str_eq(s, "delete_or_backspace") {
        Some(Key::DeleteOrBackspace)
    } else if str_eq(s, "delete_forward") {
        Some(Key::DeleteForward)
    } else if str_eq(s, "tab") {
        Some(Key::Tab)
    } else if str_eq(s, "spacebar") {
        Some(Key::Spacebar)
    } else if str_eq(s, "hyphen") {
        Some(Key::Hyphen)
    } else if str_eq(s, "equal_sign") {
        Some(Key::EqualSign)
    } else if str_eq(s, "open_bracket") {
        Some(Key::OpenBracket)
    } else if str_eq(s, "close_bracket") {
        Some(Key::CloseBracket)
    } else if str_eq(s, "backslash") {
        Some(Key::Backslash)
    } else if str_eq(s, "non_us_pound") {
        Some(Key::NonUsPound)
    } else if str_eq(s, "semicolon") {
        Some(Key::Semicolon)
    } else if str_eq(s, "quote") {
        Some(Key::Quote)
    } else if str_eq(s, "grave_accent_and_tilde") {
        Some(Key::GraveAccentAndTilde)
    } else if str_eq(s, "comma") {
        Some(Key::Comma)
    } else if str_eq(s, "period") {
        Some(Key::Period)
    } else if str_eq(s, "slash") {
        Some(Key::Slash)
    } else if str_eq(s, "non_us_backslash") {
        Some(Key::NonUsBackslash)
    } else {
        None
    }
}

fn parse_arrow_key(s: &str) -> (r: Option<Key>)
    ensures
        r == arrow_key_of_token(s@),
{
    if str_eq(s, "up_arrow") {
        Some(Key::UpArrow)
    } else if str_eq(s, "down_arrow") {
        Some(Key::DownArrow)
    } else if str_eq(s, "left_arrow") {
        Some(Key::LeftArrow)
    } else if str_eq(s, "right_arrow") {
        Some(Key::RightArrow)
    } else if str_eq(s, "page_up") {
        Some(Key::PageUp)
    } else if str_eq(s, "page_down") {
        Some(Key::PageDown)
    } else if str_eq(s, "home") {
        Some(Key::Home)
    } else if str_eq(s, "end") {
        Some(Key::End)
    } else {
        None
    }
}

fn parse_letter_key(s: &str) -> (r: Option<Key>)
    ensures
        r == letter_key_of_token(s@),
{
    if str_eq(s, "a") {
        Some(Key::A)
    } else if str_eq(s, "b") {
        Some(Key::B)
    } else if str_eq(s, "c") {
        Some(Key::C)
    } else if str_eq(s, "d") {
        Some(Key::D)
    } else if str_eq(s, "e") {
        Some(Key::E)
    } else if str_eq(s, "f") {
        Some(Key::F)
    } else if str_eq(s, "g") {
        Some(Key::G)
    } else if str_eq(s, "h") {
        Some(Key::H)
    } else if str_eq(s, "i") {
        Some(Key::I)
    } else if str_eq(s, "j") {
        Some(Key::J)
    } else if str_eq(s, "k") {
        Some(Key::K)
    } else if str_eq(s, "l") {
        Some(Key::L)
    } else if str_eq(s, "m") {
        Some(Key::M)
    } else if str_eq(s, "n") {
        Some(Key::N)
    } else if str_eq(s, "o") {
        Some(Key::O)
    } else if str_eq(s, "p") {
        Some(Key::P)
    } else if str_eq(s, "q") {
        Some(Key::Q)
    } else if str_eq(s, "r") {
        Some(Key::R)
    } else if str_eq(s, "s") {
        Some(Key::S)
    } else if str_eq(s, "t") {
        Some(Key::T)
    } else if str_eq(s, "u") {
        Some(Key::U)
    } else if str_eq(s, "v") {
        Some(Key::V)
    } else if str_eq(s, "w") {
        Some(Key::W)
    } else if str_eq(s, "x") {
        Some(Key::X)
    } else if str_eq(s, "y") {
        Some(Key::Y)
    } else if str_eq(s, "z") {
        Some(Key::Z)
    } else {
        None
    }
}

fn parse_number_key(s: &str) -> (r: Option<Key>)
    ensures
        r == number_key_of_token(s@),
{
    if str_eq(s, "key1") {
        Some(Key::Key1)
    } else if str_eq(s, "key2") {
        Some(Key::Key2)
    } else if str_eq(s, "key3") {
        Some(Key::Key3)
    } else if str_eq(s, "key4") {
        Some(Key::Key4)
    } else if str_eq(s, "key5") {
        Some(Key::Key5)
    } else if str_eq(s, "key6") {
        Some(Key::Key6)
    } else if str_eq(s, "key7") {
        Some(Key::Key7)
    } else if str_eq(s, "key8") {
        Some(Key::Key8)
    } else if str_eq(s, "key9") {
        Some(Key::Key9)
    } else if str_eq(s, "key0") {
        Some(Key::Key0)
    } else {
        None
    }
}

fn parse_function_key(s: &str) -> (r: Option<Key>)
    ensures
        r == function_key_of_token(s@),
{
    if str_eq(s, "f1") {
        Some(Key::F1)
    } else if str_eq(s, "f2") {
        Some(Key::F2)
    } else if str_eq(s, "f3") {
        Some(Key::F3)
    } else if str_eq(s, "f4") {
        Some(Key::F4)
    } else if str_eq(s, "f5") {
        Some(Key::F5)
    } else if str_eq(s, "f6") {
        Some(Key::F6)
    } else if str_eq(s, "f7") {
        Some(Key::F7)
    } else if str_eq(s, "f8") {
        Some(Key::F8)
    } else if str_eq(s, "f9") {
        Some(Key::F9)
    } else if str_eq(s, "f10") {
        Some(Key::F10)
    } else if str_eq(s, "f11") {
        Some(Key::F11)
    } else if str_eq(s, "f12") {
        Some(Key::F12)
    } else if str_eq(s, "f13") {
        Some(Key::F13)
    } else if str_eq(s, "f14") {
        Some(Key::F14)
    } else if str_eq(s, "f15") {
        Some(Key::F15)
    } else if str_eq(s, "f16") {
        Some(Key::F16)
    } else if str_eq(s, "f17") {
        Some(Key::F17)
    } else if str_eq(s, "f18") {
        Some(Key::F18)
    } else if str_eq(s, "f19") {
        Some(Key::F19)
    } else if str_eq(s, "f20") {
        Some(Key::F20)
    } else {
        None
    }
}

fn parse_keypad_key(s: &str) -> (r: Option<Key>)
    ensures
        r == keypad_key_of_token(s@),
{
    if str_eq(s, "keypad_num_lock") {
        Some(Key::KeypadNumLock)
    } else if str_eq(s, "keypad_slash") {
        Some(Key::KeypadSlash)
    } else if str_eq(s, "keypad_asterisk") {
        Some(Key::KeypadAsterisk)
    } else if str_eq(s, "keypad_hyphen") {
        Some(Key::KeypadHyphen)
    } else if str_eq(s, "keypad_plus") {
        Some(Key::KeypadPlus)
    } else if str_eq(s, "keypad_enter") {
        Some(Key::KeypadEnter)
    } else if str_eq(s, "keypad1") {
        Some(Key::Keypad1)
    } else if str_eq(s, "keypad2") {
        Some(Key::Keypad2)
    } else if str_eq(s, "keypad3") {
        Some(Key::Keypad3)
    } else if str_eq(s, "keypad4") {
        Some(Key::Keypad4)
    } else if str_eq(s, "keypad5") {
        Some(Key::Keypad5)
    } else if str_eq(s, "keypad6") {
        Some(Key::Keypad6)
    } else if str_eq(s, "keypad7") {
        Some(Key::Keypad7)
    } else if str_eq(s, "keypad8") {
        Some(Key::Keypad8)
    } else if str_eq(s, "keypad9") {
        Some(Key::Keypad9)
    } else if str_eq(s, "keypad0") {
        Some(Key::Keypad0)
    } else if str_eq(s, "keypad_period") {
        Some(Key::KeypadPeriod)
    } else if str_eq(s, "keypad_equal_sign") {
        Some(Key::KeypadEqualSign)
    } else if str_eq(s, "keypad_comma") {
        Some(Key::KeypadComma)
    } else {
        None
    }
}

fn parse_pc_keyboard_key(s: &str) -> (r: Option<Key>)
    ensures
        r == pc_keyboard_key_of_token(s@),
{
    if str_eq(s, "print_screen") {
        Some(Key::PrintScreen)
    } else if str_eq(s, "scroll_lock") {
        Some(Key::ScrollLock)
    } else if str_eq(s, "pause") {
        Some(Key::Pause)
    } else if str_eq(s, "insert") {
        Some(Key::Insert)
    } else if str_eq(s, "application") {
        Some(Key::Application)
    } else if str_eq(s, "help") {
        Some(Key::Help)
    } else if str_eq(s, "power") {
        Some(Key::Power)
    } else {
        None
    }
}

fn parse_international_key(s: &str) -> (r: Option<Key>)
    ensures
        r == international_key_of_token(s@),
{
    if str_eq(s, "international1") {
        Some(Key::International1)
    } else if str_eq(s, "international2") {
        Some(Key::International2)
    } else if str_eq(s, "international3") {
        Some(Key::International3)
    } else if str_eq(s, "international4") {
        Some(Key::International4)
    } else if str_eq(s, "international5") {
        Some(Key::International5)
    } else if str_eq(s, "international6") {
        Some(Key::International6)
    } else if str_eq(s, "international7") {
        Some(Key::International7)
    } else if str_eq(s, "international8") {
        Some(Key::International8)
    } else if str_eq(s, "international9") {
        Some(Key::International9)
    } else if str_eq(s, "lang1") {
        Some(Key::Lang1)
    } else if str_eq(s, "lang2") {
        Some(Key::Lang2)
    } else if str_eq(s, "lang3") {
        Some(Key::Lang3)
    } else if str_eq(s, "lang4") {
        Some(Key::Lang4)
    } else if str_eq(s, "lang5") {
        Some(Key::Lang5)
    } else if str_eq(s, "lang6") {
        Some(Key::Lang6)
    } else if str_eq(s, "lang7") {
        Some(Key::Lang7)
    } else if str_eq(s, "lang8") {
        Some(Key::Lang8)
    } else if str_eq(s, "lang9") {
        Some(Key::Lang9)
    } else {
        None
    }
}

fn parse_japanese_key(s: &str) -> (r: Option<Key>)
    ensures
        r == japanese_key_of_token(s@),
{
    if str_eq(s, "japanese_eisuu") {
        Some(Key::JapaneseEisuu)
    } else if str_eq(s, "japanese_kana") {
        Some(Key::JapaneseKana)
    } else if str_eq(s, "japanese_pc_nfer") {
        Some(Key::JapanesePcNfer)
    } else if str_eq(s, "japanese_pc_xfer") {
        Some(Key::JapanesePcXfer)
    } else if str_eq(s, "japanese_pc_katakana") {
        Some(Key::JapanesePcKatakana)
    } else {
        None
    }
}

fn parse_other_key(s: &str) -> (r: Option<Key>)
    ensures
        r == other_key_of_token(s@),
{
    if str_eq(s, "volume_down") {
        Some(Key::VolumeDown)
    } else if str_eq(s, "volume_up") {
        Some(Key::VolumeUp)
    } else if str_eq(s, "mute") {
        Some(Key::Mute)
    } else if str_eq(s, "volume_decrement") {
        Some(Key::VolumeDecrement)
    } else if str_eq(s, "volume_increment") {
        Some(Key::VolumeIncrement)
    } else {
        None
    }
}

fn parse_from_only_key(s: &str) -> (r: Option<Key>)
    ensures
        r == from_only_key_of_token(s@),
{
    if str_eq(s, "f21") {
        Some(Key::F21)
    } else if str_eq(s, "f22") {
        Some(Key::F22)
    } else if str_eq(s, "f23") {
        Some(Key::F23)
    } else if str_eq(s, "f24") {
        Some(Key::F24)
    } else if str_eq(s, "execute") {
        Some(Key::Execute)
    } else if str_eq(s, "menu") {
        Some(Key::Menu)
    } else if str_eq(s, "select") {
        Some(Key::Select)
    } else if str_eq(s, "stop") {
        Some(Key::Stop)
    } else if str_eq(s, "again") {
        Some(Key::Again)
    } else if str_eq(s, "undo") {
        Some(Key::Undo)
    } else if str_eq(s, "cut") {
        Some(Key::Cut)
    } else if str_eq(s, "copy") {
        Some(Key::Copy)
    } else if str_eq(s, "paste") {
        Some(Key::Paste)
    } else if str_eq(s, "find") {
        Some(Key::Find)
    } else if str_eq(s, "keypad_equal_sign_as400") {
        Some(Key::KeypadEqualSignAs400)
    } else if str_eq(s, "locking_caps_lock") {
        Some(Key::LockingCapsLock)
    } else if str_eq(s, "locking_num_lock") {
        Some(Key::LockingNumLock)
    } else if str_eq(s, "locking_scroll_lock") {
        Some(Key::LockingScrollLock)
    } else if str_eq(s, "alternate_erase") {
        Some(Key::AlternateErase)
    } else if str_eq(s, "sys_req_or_attention") {
        Some(Key::SysReqOrAttention)
    } else if str_eq(s, "cancel") {
        Some(Key::Cancel)
    } else if str_eq(s, "clear") {
        Some(Key::Clear)
    } else if str_eq(s, "prior") {
        Some(Key::Prior)
    } else if str_eq(s, "return") {
        Some(Key::Return)
    } else if str_eq(s, "separator") {
        Some(Key::Separator)
    } else if str_eq(s, "out") {
        Some(Key::Out)
    } else if str_eq(s, "oper") {
        Some(Key::Oper)
    } else if str_eq(s, "clear_or_again") {
        Some(Key::ClearOrAgain)
    } else if str_eq(s, "cr_sel_or_props") {
        Some(Key::CrSelOrProps)
    } else if str_eq(s, "ex_sel") {
        Some(Key::ExSel)
    } else {
        None
    }
}

fn parse_to_only_key(s: &str) -> (r: Option<Key>)
    ensures
        r == to_only_key_of_token(s@),
{
    if str_eq(s, "vk_none") {
        Some(Key::VkNone)
    } else if str_eq(s, "vk_consumer_brightness_down") {
        Some(Key::VkConsumerBrightnessDown)
    } else if str_eq(s, "vk_consumer_brightness_up") {
        Some(Key::VkConsumerBrightnessUp)
    } else if str_eq(s, "vk_mission_control") {
        Some(Key::VkMissionControl)
    } else if str_eq(s, "vk_launchpad") {
        Some(Key::VkLaunchpad)
    } else if str_eq(s, "vk_dashboard") {
        Some(Key::VkDashboard)
    } else if str_eq(s, "vk_consumer_illumination_down") {
        Some(Key::VkConsumerIlluminationDown)
    } else if str_eq(s, "vk_consumer_illumination_up") {
        Some(Key::VkConsumerIlluminationUp)
    } else if str_eq(s, "vk_consumer_previous") {
        Some(Key::VkConsumerPrevious)
    } else if str_eq(s, "vk_consumer_play") {
        Some(Key::VkConsumerPlay)
    } else if str_eq(s, "vk_consumer_next") {
        Some(Key::VkConsumerNext)
    } else if str_eq(s, "display_brightness_decrement") {
        Some(Key::DisplayBrightnessDecrement)
    } else if str_eq(s, "display_brightness_increment") {
        Some(Key::DisplayBrightnessIncrement)
    } else if str_eq(s, "rewind") {
        Some(Key::Rewind)
    } else if str_eq(s, "play_or_pause") {
        Some(Key::PlayOrPause)
    } else if str_eq(s, "fastforward") {
        Some(Key::Fastforward)
    } else if str_eq(s, "apple_display_brightness_decrement") {
        Some(Key::AppleDisplayBrightnessDecrement)
    } else if str_eq(s, "apple_display_brightness_increment") {
        Some(Key::AppleDisplayBrightnessIncrement)
    } else if str_eq(s, "apple_top_case_display_brightness_decrement") {
        Some(Key::AppleTopCaseDisplayBrightnessDecrement)
    } else if str_eq(s, "apple_top_case_display_brightness_increment") {
        Some(Key::AppleTopCaseDisplayBrightnessIncrement)
    } else if str_eq(s, "illumination_decrement") {
        Some(Key::IlluminationDecrement)
    } else if str_eq(s, "illumination_increment") {
        Some(Key::IlluminationIncrement)
    } else {
        None
    }
}

proof fn lemma_sticky_modifier_faithful(s: Seq<char>)
    ensures
        sticky_modifier_key_of_token(s) matches Some(k) ==> token_of_key(k) == s,
{
}

proof fn lemma_modifier_faithful(s: Seq<char>)
    ensures
        modifier_key_of_token(s) matches Some(k) ==> token_of_key(k) == s,
{
}

proof fn lemma_control_or_symbol_faithful(s: Seq<char>)
    ensures
        control_or_symbol_key_of_token(s) matches Some(k) ==> token_of_key(k) == s,
{
}

proof fn lemma_arrow_faithful(s: Seq<char>)
    ensures
        arrow_key_of_token(s) matches Some(k) ==> token_of_key(k) == s,
{
}

proof fn lemma_letter_faithful(s: Seq<char>)
    ensures
        letter_key_of_token(s) matches Some(k) ==> token_of_key(k) == s,
{
}

proof fn lemma_number_faithful(s: Seq<char>)
    ensures
        number_key_of_token(s) matches Some(k) ==> token_of_key(k) == s,
{
}

proof fn lemma_function_faithful(s: Seq<char>)
    ensures
        function_key_of_token(s) matches Some(k) ==> token_of_key(k) == s,
{
}

proof fn lemma_keypad_faithful(s: Seq<char>)
    ensures
        keypad_key_of_token(s) matches Some(k) ==> token_of_key(k) == s,
{
}

proof fn lemma_pc_keyboard_faithful(s: Seq<char>)
    ensures
        pc_keyboard_key_of_token(s) matches Some(k) ==> token_of_key(k) == s,
{
}

proof fn lemma_international_faithful(s: Seq<char>)
    ensures
        international_key_of_token(s) matches Some(k) ==> token_of_key(k) == s,
{
}

proof fn lemma_japanese_faithful(s: Seq<char>)
    ensures
        japanese_key_of_token(s) matches Some(k) ==> token_of_key(k) == s,
{
}

proof fn lemma_other_faithful(s: Seq<char>)
    ensures
        other_key_of_token(s) matches Some(k) ==> token_of_key(k) == s,
{
}

proof fn lemma_from_only_faithful(s: Seq<char>)
    ensures
        from_only_key_of_token(s) matches Some(k) ==> token_of_key(k) == s,
{
}

proof fn lemma_to_only_faithful(s: Seq<char>)
    ensures
        to_only_key_of_token(s) matches Some(k) ==> token_of_key(k) == s,
{
}

/// Whatever key a token parses to, its token is that same token.
proof fn lemma_parse_faithful(s: Seq<char>)
    ensures
        key_of_token(s) matches Some(k) ==> token_of_key(k) == s,
{
    lemma_sticky_modifier_faithful(s);
    lemma_modifier_faithful(s);
    lemma_control_or_symbol_faithful(s);
    lemma_arrow_faithful(s);
    lemma_letter_faithful(s);
    lemma_number_faithful(s);
    lemma_function_faithful(s);
    lemma_keypad_faithful(s);
    lemma_pc_keyboard_faithful(s);
    lemma_international_faithful(s);
    lemma_japanese_faithful(s);
    lemma_other_faithful(s);
    lemma_from_only_faithful(s);
    lemma_to_only_faithful(s);
}

/// The canonical token of every key parses back to a key with the very
/// same token: the textual form round-trips through the catalog.
pub proof fn lemma_key_token_round_trip(k: Key)
    ensures
        key_of_token(token_of_key(k)) is Some,
        token_of_key(key_of_token(token_of_key(k)).unwrap()) == token_of_key(k),
{
    lemma_parse_faithful(token_of_key(k));
}

} // verus!
