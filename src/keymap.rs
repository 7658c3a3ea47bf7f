//! Platform key and mouse-button codes, and their mapping to normalized codes.

use vstd::prelude::*;

use crate::input::{Key, MouseButton};

verus! {

/// A key code as the platform reports it, one variant for each virtual key
/// the windowing layer knows.
#[derive(Copy, Clone, Debug, PartialEq, Eq, Structural, Hash, PartialOrd, Ord)]
pub enum NativeKey {
    Key1,
    Key2,
    Key3,
    Key4,
    Key5,
    Key6,
    Key7,
    Key8,
    Key9,
    Key0,
    A,
    B,
    C,
    D,
    E,
    F,
    G,
    H,
    I,
    J,
    K,
    L,
    M,
    N,
    O,
    P,
    Q,
    R,
    S,
    T,
    U,
    V,
    W,
    X,
    Y,
    Z,
    Escape,
    F1,
    F2,
    F3,
    F4,
    F5,
    F6,
    F7,
    F8,
    F9,
    F10,
    F11,
    F12,
    F13,
    F14,
    F15,
    F16,
    F17,
    F18,
    F19,
    F20,
    F21,
    F22,
    F23,
    F24,
    Snapshot,
    Scroll,
    Pause,
    Insert,
    Home,
    Delete,
    End,
    PageDown,
    PageUp,
    Left,
    Up,
    Right,
    Down,
    Back,
    Return,
    Space,
    Compose,
    Caret,
    Numlock,
    Numpad0,
    Numpad1,
    Numpad2,
    Numpad3,
    Numpad4,
    Numpad5,
    Numpad6,
    Numpad7,
    Numpad8,
    Numpad9,
    NumpadAdd,
    NumpadDivide,
    NumpadDecimal,
    NumpadComma,
    NumpadEnter,
    NumpadEquals,
    NumpadMultiply,
    NumpadSubtract,
    AbntC1,
    AbntC2,
    Apostrophe,
    Apps,
    Asterisk,
    At,
    Ax,
    Backslash,
    Calculator,
    Capital,
    Colon,
    Comma,
    Convert,
    Equals,
    Grave,
    Kana,
    Kanji,
    LAlt,
    LBracket,
    LControl,
    LShift,
    LWin,
    Mail,
    MediaSelect,
    MediaStop,
    Minus,
    Mute,
    MyComputer,
    NavigateForward,
    NavigateBackward,
    NextTrack,
    NoConvert,
    OEM102,
    Period,
    PlayPause,
    Plus,
    Power,
    PrevTrack,
    RAlt,
    RBracket,
    RControl,
    RShift,
    RWin,
    Semicolon,
    Slash,
    Sleep,
    Stop,
    Sysrq,
    Tab,
    Underline,
    Unlabeled,
    VolumeDown,
    VolumeUp,
    Wake,
    WebBack,
    WebFavorites,
    WebForward,
    WebHome,
    WebRefresh,
    WebSearch,
    WebStop,
    Yen,
    Copy,
    Paste,
    Cut,
}

/// A mouse button as the platform reports it.
#[derive(Copy, Clone, Debug, PartialEq, Eq, Structural, Hash)]
pub enum NativeMouseButton {
    Left,
    Right,
    Middle,
    Other(u16),
}

/// The normalized key for a platform key code; codes without one map to
/// `Key::Unknown`.
pub open spec fn key_for(k: NativeKey) -> Key {
    match k {
        NativeKey::Key0 => Key::D0,
        NativeKey::Key1 => Key::D1,
        NativeKey::Key2 => Key::D2,
        NativeKey::Key3 => Key::D3,
        NativeKey::Key4 => Key::D4,
        NativeKey::Key5 => Key::D5,
        NativeKey::Key6 => Key::D6,
        NativeKey::Key7 => Key::D7,
        NativeKey::Key8 => Key::D8,
        NativeKey::Key9 => Key::D9,
        NativeKey::A => Key::A,
        NativeKey::B => Key::B,
        NativeKey::C => Key::C,
        NativeKey::D => Key::D,
        NativeKey::E => Key::E,
        NativeKey::F => Key::F,
        NativeKey::G => Key::G,
        NativeKey::H => Key::H,
        NativeKey::I => Key::I,
        NativeKey::J => Key::J,
        NativeKey::K => Key::K,
        NativeKey::L => Key::L,
        NativeKey::M => Key::M,
        NativeKey::N => Key::N,
        NativeKey::O => Key::O,
        NativeKey::P => Key::P,
        NativeKey::Q => Key::Q,
        NativeKey::R => Key::R,
        NativeKey::S => Key::S,
        NativeKey::T => Key::T,
        NativeKey::U => Key::U,
        NativeKey::V => Key::V,
        NativeKey::W => Key::W,
        NativeKey::X => Key::X,
        NativeKey::Y => Key::Y,
        NativeKey::Z => Key::Z,
        NativeKey::Apostrophe => Key::Unknown,
        NativeKey::Backslash => Key::Backslash,
        NativeKey::Back => Key::Backspace,
        NativeKey::Delete => Key::Delete,
        NativeKey::Comma => Key::Comma,
        NativeKey::Down => Key::Down,
        NativeKey::End => Key::End,
        NativeKey::Return => Key::Return,
        NativeKey::Equals => Key::Equals,
        NativeKey::Escape => Key::Escape,
        NativeKey::F1 => Key::F1,
        NativeKey::F2 => Key::F2,
        NativeKey::F3 => Key::F3,
        NativeKey::F4 => Key::F4,
        NativeKey::F5 => Key::F5,
        NativeKey::F6 => Key::F6,
        NativeKey::F7 => Key::F7,
        NativeKey::F8 => Key::F8,
        NativeKey::F9 => Key::F9,
        NativeKey::F10 => Key::F10,
        NativeKey::F11 => Key::F11,
        NativeKey::F12 => Key::F12,
        NativeKey::F13 => Key::F13,
        NativeKey::F14 => Key::F14,
        NativeKey::F15 => Key::F15,
        NativeKey::F16 => Key::F16,
        NativeKey::F17 => Key::F17,
        NativeKey::F18 => Key::F18,
        NativeKey::F19 => Key::F19,
        NativeKey::F20 => Key::F20,
        NativeKey::F21 => Key::F21,
        NativeKey::F22 => Key::F22,
        NativeKey::F23 => Key::F23,
        NativeKey::F24 => Key::F24,
        NativeKey::Numpad0 => Key::NumPad0,
        NativeKey::Numpad1 => Key::NumPad1,
        NativeKey::Numpad2 => Key::NumPad2,
        NativeKey::Numpad3 => Key::NumPad3,
        NativeKey::Numpad4 => Key::NumPad4,
        NativeKey::Numpad5 => Key::NumPad5,
        NativeKey::Numpad6 => Key::NumPad6,
        NativeKey::Numpad7 => Key::NumPad7,
        NativeKey::Numpad8 => Key::NumPad8,
        NativeKey::Numpad9 => Key::NumPad9,
        NativeKey::NumpadComma => Key::NumPadDecimal,
        NativeKey::NumpadDivide => Key::NumPadDivide,
        NativeKey::NumpadMultiply => Key::NumPadMultiply,
        NativeKey::NumpadSubtract => Key::NumPadMinus,
        NativeKey::NumpadAdd => Key::NumPadPlus,
        NativeKey::NumpadEnter => Key::NumPadEnter,
        NativeKey::NumpadEquals => Key::NumPadEquals,
        NativeKey::LShift => Key::LShift,
        NativeKey::LControl => Key::LCtrl,
        NativeKey::LAlt => Key::LAlt,
        NativeKey::RShift => Key::RShift,
        NativeKey::RControl => Key::RCtrl,
        NativeKey::RAlt => Key::RAlt,
        NativeKey::Home => Key::Home,
        NativeKey::Insert => Key::Insert,
        NativeKey::Left => Key::Left,
        NativeKey::LBracket => Key::LeftBracket,
        NativeKey::Minus => Key::Minus,
        NativeKey::Numlock => Key::NumLockClear,
        NativeKey::PageDown => Key::PageDown,
        NativeKey::PageUp => Key::PageUp,
        NativeKey::Pause => Key::Pause,
        NativeKey::Period => Key::Period,
        NativeKey::Snapshot => Key::PrintScreen,
        NativeKey::Right => Key::Right,
        NativeKey::RBracket => Key::RightBracket,
        NativeKey::Scroll => Key::ScrollLock,
        NativeKey::Semicolon => Key::Semicolon,
        NativeKey::Slash => Key::Slash,
        NativeKey::Space => Key::Space,
        NativeKey::Tab => Key::Tab,
        NativeKey::Up => Key::Up,
        _ => Key::Unknown,
    }
}

/// The normalized mouse button for a platform button; buttons without one map
/// to `MouseButton::Unknown`.
pub open spec fn mouse_button_for(b: NativeMouseButton) -> MouseButton {
    match b {
        NativeMouseButton::Left => MouseButton::Left,
        NativeMouseButton::Right => MouseButton::Right,
        NativeMouseButton::Middle => MouseButton::Middle,
        NativeMouseButton::Other(0) => MouseButton::X1,
        NativeMouseButton::Other(1) => MouseButton::X2,
        NativeMouseButton::Other(2) => MouseButton::Button6,
        NativeMouseButton::Other(3) => MouseButton::Button7,
        NativeMouseButton::Other(4) => MouseButton::Button8,
        _ => MouseButton::Unknown,
    }
}

/// Maps a platform key code to a normalized key.
pub fn map_key(keycode: NativeKey) -> (r: Key)
    ensures
        r == key_for(keycode),
{
    match keycode {
        NativeKey::Key0 => Key::D0,
        NativeKey::Key1 => Key::D1,
        NativeKey::Key2 => Key::D2,
        NativeKey::Key3 => Key::D3,
        NativeKey::Key4 => Key::D4,
        NativeKey::Key5 => Key::D5,
        NativeKey::Key6 => Key::D6,
        NativeKey::Key7 => Key::D7,
        NativeKey::Key8 => Key::D8,
        NativeKey::Key9 => Key::D9,
        NativeKey::A => Key::A,
        NativeKey::B => Key::B,
        NativeKey::C => Key::C,
        NativeKey::D => Key::D,
        NativeKey::E => Key::E,
        NativeKey::F => Key::F,
        NativeKey::G => Key::G,
        NativeKey::H => Key::H,
        NativeKey::I => Key::I,
        NativeKey::J => Key::J,
        NativeKey::K => Key::K,
        NativeKey::L => Key::L,
        NativeKey::M => Key::M,
        NativeKey::N => Key::N,
        NativeKey::O => Key::O,
        NativeKey::P => Key::P,
        NativeKey::Q => Key::Q,
        NativeKey::R => Key::R,
        NativeKey::S => Key::S,
        NativeKey::T => Key::T,
        NativeKey::U => Key::U,
        NativeKey::V => Key::V,
        NativeKey::W => Key::W,
        NativeKey::X => Key::X,
        NativeKey::Y => Key::Y,
        NativeKey::Z => Key::Z,
        NativeKey::Apostrophe => Key::Unknown,
        NativeKey::Backslash => Key::Backslash,
        NativeKey::Back => Key::Backspace,
        NativeKey::Delete => Key::Delete,
        NativeKey::Comma => Key::Comma,
        NativeKey::Down => Key::Down,
        NativeKey::End => Key::End,
        NativeKey::Return => Key::Return,
        NativeKey::Equals => Key::Equals,
        NativeKey::Escape => Key::Escape,
        NativeKey::F1 => Key::F1,
        NativeKey::F2 => Key::F2,
        NativeKey::F3 => Key::F3,
        NativeKey::F4 => Key::F4,
        NativeKey::F5 => Key::F5,
        NativeKey::F6 => Key::F6,
        NativeKey::F7 => Key::F7,
        NativeKey::F8 => Key::F8,
        NativeKey::F9 => Key::F9,
        NativeKey::F10 => Key::F10,
        NativeKey::F11 => Key::F11,
        NativeKey::F12 => Key::F12,
        NativeKey::F13 => Key::F13,
        NativeKey::F14 => Key::F14,
        NativeKey::F15 => Key::F15,
        NativeKey::F16 => Key::F16,
        NativeKey::F17 => Key::F17,
        NativeKey::F18 => Key::F18,
        NativeKey::F19 => Key::F19,
        NativeKey::F20 => Key::F20,
        NativeKey::F21 => Key::F21,
        NativeKey::F22 => Key::F22,
        NativeKey::F23 => Key::F23,
        NativeKey::F24 => Key::F24,
        NativeKey::Numpad0 => Key::NumPad0,
        NativeKey::Numpad1 => Key::NumPad1,
        NativeKey::Numpad2 => Key::NumPad2,
        NativeKey::Numpad3 => Key::NumPad3,
        NativeKey::Numpad4 => Key::NumPad4,
        NativeKey::Numpad5 => Key::NumPad5,
        NativeKey::Numpad6 => Key::NumPad6,
        NativeKey::Numpad7 => Key::NumPad7,
        NativeKey::Numpad8 => Key::NumPad8,
        NativeKey::Numpad9 => Key::NumPad9,
        NativeKey::NumpadComma => Key::NumPadDecimal,
        NativeKey::NumpadDivide => Key::NumPadDivide,
        NativeKey::NumpadMultiply => Key::NumPadMultiply,
        NativeKey::NumpadSubtract => Key::NumPadMinus,
        NativeKey::NumpadAdd => Key::NumPadPlus,
        NativeKey::NumpadEnter => Key::NumPadEnter,
        NativeKey::NumpadEquals => Key::NumPadEquals,
        NativeKey::LShift => Key::LShift,
        NativeKey::LControl => Key::LCtrl,
        NativeKey::LAlt => Key::LAlt,
        NativeKey::RShift => Key::RShift,
        NativeKey::RControl => Key::RCtrl,
        NativeKey::RAlt => Key::RAlt,
        NativeKey::Home => Key::Home,
        NativeKey::Insert => Key::Insert,
        NativeKey::Left => Key::Left,
        NativeKey::LBracket => Key::LeftBracket,
        NativeKey::Minus => Key::Minus,
        NativeKey::Numlock => Key::NumLockClear,
        NativeKey::PageDown => Key::PageDown,
        NativeKey::PageUp => Key::PageUp,
        NativeKey::Pause => Key::Pause,
        NativeKey::Period => Key::Period,
        NativeKey::Snapshot => Key::PrintScreen,
        NativeKey::Right => Key::Right,
        NativeKey::RBracket => Key::RightBracket,
        NativeKey::Scroll => Key::ScrollLock,
        NativeKey::Semicolon => Key::Semicolon,
        NativeKey::Slash => Key::Slash,
        NativeKey::Space => Key::Space,
        NativeKey::Tab => Key::Tab,
        NativeKey::Up => Key::Up,
        _ => Key::Unknown,
    }
}

/// Maps a platform mouse button to a normalized mouse button.
pub fn map_mouse(mouse_button: NativeMouseButton) -> (r: MouseButton)
    ensures
        r == mouse_button_for(mouse_button),
{
    match mouse_button {
        NativeMouseButton::Left => MouseButton::Left,
        NativeMouseButton::Right => MouseButton::Right,
        NativeMouseButton::Middle => MouseButton::Middle,
        NativeMouseButton::Other(0) => MouseButton::X1,
        NativeMouseButton::Other(1) => MouseButton::X2,
        NativeMouseButton::Other(2) => MouseButton::Button6,
        NativeMouseButton::Other(3) => MouseButton::Button7,
        NativeMouseButton::Other(4) => MouseButton::Button8,
        _ => MouseButton::Unknown,
    }
}

} // verus!
