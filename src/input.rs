//! Normalized input events, as a game loop consumes them.
//!
//! Coordinates are fixed-point numbers in logical (scale-factor independent)
//! units: one logical pixel is `SUBPIXELS_PER_PIXEL` units.

use vstd::prelude::*;

verus! {

/// Fixed-point units in one logical pixel.
pub const SUBPIXELS_PER_PIXEL: i64 = 256;

/// A normalized keyboard key.
#[derive(Copy, Clone, Debug, PartialEq, Eq, Structural, Hash, PartialOrd, Ord)]
pub enum Key {
    Unknown,
    D0,
    D1,
    D2,
    D3,
    D4,
    D5,
    D6,
    D7,
    D8,
    D9,
    A,
    B,
    C,
    D,
    E,
    F,
    G,
    H,
    I,
    J,
    K,
    L,
    M,
    N,
    O,
    P,
    Q,
    R,
    S,
    T,
    U,
    V,
    W,
    X,
    Y,
    Z,
    Backslash,
    Backspace,
    Delete,
    Comma,
    Down,
    End,
    Return,
    Equals,
    Escape,
    F1,
    F2,
    F3,
    F4,
    F5,
    F6,
    F7,
    F8,
    F9,
    F10,
    F11,
    F12,
    F13,
    F14,
    F15,
    F16,
    F17,
    F18,
    F19,
    F20,
    F21,
    F22,
    F23,
    F24,
    NumPad0,
    NumPad1,
    NumPad2,
    NumPad3,
    NumPad4,
    NumPad5,
    NumPad6,
    NumPad7,
    NumPad8,
    NumPad9,
    NumPadDecimal,
    NumPadDivide,
    NumPadMultiply,
    NumPadMinus,
    NumPadPlus,
    NumPadEnter,
    NumPadEquals,
    LShift,
    LCtrl,
    LAlt,
    RShift,
    RCtrl,
    RAlt,
    Home,
    Insert,
    Left,
    LeftBracket,
    Minus,
    NumLockClear,
    PageDown,
    PageUp,
    Pause,
    Period,
    PrintScreen,
    Right,
    RightBracket,
    ScrollLock,
    Semicolon,
    Slash,
    Space,
    Tab,
    Up,
}

/// A normalized mouse button.
#[derive(Copy, Clone, Debug, PartialEq, Eq, Structural, Hash, PartialOrd, Ord)]
pub enum MouseButton {
    Unknown,
    Left,
    Right,
    Middle,
    X1,
    X2,
    Button6,
    Button7,
    Button8,
}

/// Whether a button went down or up.
#[derive(Copy, Clone, Debug, PartialEq, Eq, Structural, Hash)]
pub enum ButtonState {
    Press,
    Release,
}

/// The device a button belongs to.
#[derive(Copy, Clone, Debug, PartialEq, Eq, Structural, Hash)]
pub enum Button {
    Keyboard(Key),
    Mouse(MouseButton),
}

/// A button press or release.
#[derive(Copy, Clone, Debug, PartialEq, Eq, Structural, Hash)]
pub struct ButtonArgs {
    /// Press or release.
    pub state: ButtonState,
    /// The button.
    pub button: Button,
    /// The platform scancode, for keyboard buttons.
    pub scancode: Option<i32>,
}

/// A position in logical fixed-point units.
#[derive(Copy, Clone, Debug, PartialEq, Eq, Structural, Hash)]
pub struct Pos {
    pub x: i32,
    pub y: i32,
}

/// A displacement in logical fixed-point units.
#[derive(Copy, Clone, Debug, PartialEq, Eq, Structural, Hash)]
pub struct Offset {
    pub dx: i64,
    pub dy: i64,
}

/// A size in whole pixels.
#[derive(Copy, Clone, Debug, PartialEq, Eq, Structural, Hash)]
pub struct Size {
    pub width: u32,
    pub height: u32,
}

/// The phase of a touch.
#[derive(Copy, Clone, Debug, PartialEq, Eq, Structural, Hash)]
pub enum Touch {
    Start,
    Move,
    End,
    Cancel,
}

/// A touch event.
#[derive(Copy, Clone, Debug, PartialEq, Eq, Structural, Hash)]
pub struct TouchArgs {
    /// The touch device.
    pub device: i64,
    /// The finger.
    pub id: i64,
    /// Where the finger is.
    pub position: Pos,
    /// The phase of the touch.
    pub touch: Touch,
}

/// Pointer and touch motion.
#[derive(Copy, Clone, Debug, PartialEq, Eq, Structural, Hash)]
pub enum Motion {
    /// Absolute pointer position.
    MouseCursor(Pos),
    /// Pointer displacement since the previous position.
    MouseRelative(Offset),
    /// Scroll amount.
    MouseScroll(Offset),
    /// Touch.
    Touch(TouchArgs),
}

/// A window resize.
#[derive(Copy, Clone, Debug, PartialEq, Eq, Structural, Hash)]
pub struct ResizeArgs {
    /// Logical window size.
    pub window_size: Size,
    /// Size of the drawable surface in physical pixels.
    pub draw_size: Size,
}

/// A file dragged over or dropped on the window.
#[derive(Debug, PartialEq, Eq)]
pub enum FileDrag {
    Hover(std::path::PathBuf),
    Drop(std::path::PathBuf),
    Cancel,
}

/// A normalized input event.
#[derive(Debug, PartialEq)]
pub enum Input {
    Button(ButtonArgs),
    Move(Motion),
    Text(String),
    Resize(ResizeArgs),
    Focus(bool),
    /// The pointer entered (`true`) or left (`false`) the window.
    Cursor(bool),
    FileDrag(FileDrag),
    Close,
}

/// What an input event holds, with text as a sequence of characters.
pub enum InputView {
    Button(ButtonArgs),
    Move(Motion),
    Text(Seq<char>),
    Resize(ResizeArgs),
    Focus(bool),
    Cursor(bool),
    FileDrag(FileDrag),
    Close,
}

impl View for Input {
    type V = InputView;

    open spec fn view(&self) -> InputView {
        match self {
            Input::Button(a) => InputView::Button(*a),
            Input::Move(m) => InputView::Move(*m),
            Input::Text(s) => InputView::Text(s@),
            Input::Resize(a) => InputView::Resize(*a),
            Input::Focus(b) => InputView::Focus(*b),
            Input::Cursor(b) => InputView::Cursor(*b),
            Input::FileDrag(d) => InputView::FileDrag(*d),
            Input::Close => InputView::Close,
        }
    }
}

/// The view of an optional input event.
pub open spec fn opt_input_view(i: Option<Input>) -> Option<InputView> {
    match i {
        Some(x) => Some(x@),
        None => None,
    }
}

/// Declares std's path type, which file-drag events carry through unchanged.
#[verifier::external_type_specification]
#[verifier::external_body]
pub struct ExPathBuf(std::path::PathBuf);

} // verus!
