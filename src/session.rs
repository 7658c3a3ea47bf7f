//! The window's input session: the classifier that turns one native event
//! into at most one normalized input event, and the cursor-capture emulator.

use vstd::prelude::*;

use crate::input::{
    Button, ButtonArgs, ButtonState, FileDrag, Input, InputView, Key, Motion, Offset, Pos,
    ResizeArgs, Size, Touch, TouchArgs, SUBPIXELS_PER_PIXEL, opt_input_view,
};
use crate::keymap::{key_for, map_key, map_mouse, mouse_button_for, NativeKey, NativeMouseButton};

verus! {

/// A native window event, reduced to the variants that the session reads.
/// Positions are already in logical fixed-point units.
#[derive(Debug, PartialEq)]
pub enum NativeEvent {
    /// The drawable surface has this size in physical pixels.
    Resized(Size),
    ReceivedCharacter(char),
    Focused(bool),
    KeyboardInput { state: ButtonState, key: Option<NativeKey>, scancode: i32 },
    Touch { id: i64, phase: Touch, position: Pos },
    CursorMoved(Pos),
    CursorEntered,
    CursorLeft,
    MouseWheel(Offset),
    MouseInput { state: ButtonState, button: NativeMouseButton },
    HoveredFile(std::path::PathBuf),
    DroppedFile(std::path::PathBuf),
    HoveredFileCancelled,
    CloseRequested,
    /// The marker the event pump injects to end a drain or a timed wait.
    WakeUp,
    /// Any other native event; it carries nothing the session reads.
    Other,
}

/// Custom events that the native event loop carries.
#[derive(Copy, Clone, Debug, PartialEq, Eq, Structural)]
pub enum UserEvent {
    /// Does nothing; only spins the event loop.
    WakeUp,
}

/// What the owner of the native window must do after a classification.
#[derive(Copy, Clone, Debug, PartialEq, Eq, Structural)]
pub enum Effect {
    Nothing,
    /// Resize the drawable surface to this size.
    ResizeSurface(Size),
    /// Move the pointer here; on success report it with `cursor_recentered`.
    SetCursorPosition(Pos),
}

/// Mutable session state of a window.
#[derive(Copy, Clone, Debug, PartialEq, Eq, Structural)]
pub struct Session {
    pub should_close: bool,
    pub automatic_close: bool,
    pub exit_on_esc: bool,
    /// Capture of the pointer is emulated by recentering it after each move.
    pub is_capturing_cursor: bool,
    /// Last known pointer position.
    pub last_cursor_pos: Option<Pos>,
    /// Relative motion to emit on the next poll.
    pub mouse_relative: Option<Offset>,
    /// Absolute motion to emit on the next poll.
    pub cursor_pos: Option<Pos>,
    /// The key held down, to drop repeated presses of it.
    pub last_key_pressed: Option<Key>,
}

/// Half of a window extent in fixed-point units, saturated to `i32`.
pub open spec fn half_extent(n: u32) -> i32 {
    if n as int * SUBPIXELS_PER_PIXEL / 2 > i32::MAX {
        i32::MAX
    } else {
        (n as int * SUBPIXELS_PER_PIXEL / 2) as i32
    }
}

/// The logical center of a window of the given logical size.
pub open spec fn window_center(window: Size) -> Pos {
    Pos { x: half_extent(window.width), y: half_extent(window.height) }
}

/// The displacement from `from` to `to`.
pub open spec fn offset_between(from: Pos, to: Pos) -> Offset {
    Offset { dx: (to.x - from.x) as i64, dy: (to.y - from.y) as i64 }
}

/// Control characters carry no text.
pub open spec fn is_control_for_text(c: char) -> bool {
    c == '\u{7f}' || c == '\u{1b}' || c == '\u{8}' || c == '\r' || c == '\n' || c == '\t'
}

/// The text of a character event.
pub open spec fn text_of(c: char) -> Seq<char> {
    if is_control_for_text(c) {
        Seq::empty()
    } else {
        seq![c]
    }
}

/// The recentering step of cursor capture: move the pointer to the window
/// center when the last known position is elsewhere.
pub open spec fn recenter_effect(s: Session, window: Size) -> Effect {
    match s.last_cursor_pos {
        Some(p) => if p != window_center(window) {
            Effect::SetCursorPosition(window_center(window))
        } else {
            Effect::Nothing
        },
        None => Effect::Nothing,
    }
}

/// The session after classifying `ev`.
pub open spec fn next_session(s: Session, ev: Option<NativeEvent>) -> Session {
    match ev {
        Some(NativeEvent::KeyboardInput { state: ButtonState::Press, key: Some(k), scancode: _ }) => {
            let pk = key_for(k);
            let closing = s.should_close || (s.exit_on_esc && pk == Key::Escape);
            if s.last_key_pressed == Some(pk) {
                Session { should_close: closing, ..s }
            } else {
                Session { should_close: closing, last_key_pressed: Some(pk), ..s }
            }
        },
        Some(NativeEvent::KeyboardInput { state: ButtonState::Release, key: Some(k), scancode: _ }) => {
            if s.last_key_pressed == Some(key_for(k)) {
                Session { last_key_pressed: None, ..s }
            } else {
                s
            }
        },
        Some(NativeEvent::CursorMoved(p)) => match s.last_cursor_pos {
            Some(q) => if s.is_capturing_cursor {
                Session { last_cursor_pos: Some(p), ..s }
            } else {
                Session { last_cursor_pos: Some(p), mouse_relative: Some(offset_between(q, p)), ..s }
            },
            None => Session { last_cursor_pos: Some(p), ..s },
        },
        Some(NativeEvent::CloseRequested) => Session {
            should_close: s.should_close || s.automatic_close,
            ..s
        },
        _ => s,
    }
}

/// Whether `ev` is unrecognized: it yields nothing, and the caller must take
/// the next native event at once.
pub open spec fn is_unrecognized(s: Session, ev: Option<NativeEvent>) -> bool {
    match ev {
        Some(NativeEvent::KeyboardInput { state: ButtonState::Press, key: Some(k), scancode: _ }) =>
            s.last_key_pressed == Some(key_for(k)),
        Some(NativeEvent::KeyboardInput { state: _, key: None, scancode: _ }) => true,
        Some(NativeEvent::Other) => true,
        _ => false,
    }
}

/// The normalized event that classifying `ev` yields.
pub open spec fn output_of(s: Session, ev: Option<NativeEvent>, window: Size) -> Option<InputView> {
    match ev {
        None => None,
        Some(e) => match e {
            NativeEvent::Resized(d) => Some(
                InputView::Resize(ResizeArgs { window_size: window, draw_size: d }),
            ),
            NativeEvent::ReceivedCharacter(c) => Some(InputView::Text(text_of(c))),
            NativeEvent::Focused(b) => Some(InputView::Focus(b)),
            NativeEvent::KeyboardInput { state, key, scancode } => match key {
                Some(k) => if state == ButtonState::Press && s.last_key_pressed == Some(key_for(k)) {
                    None
                } else {
                    Some(
                        InputView::Button(
                            ButtonArgs {
                                state,
                                button: Button::Keyboard(key_for(k)),
                                scancode: Some(scancode),
                            },
                        ),
                    )
                },
                None => None,
            },
            NativeEvent::Touch { id, phase, position } => Some(
                InputView::Move(
                    Motion::Touch(TouchArgs { device: 0, id, position, touch: phase }),
                ),
            ),
            NativeEvent::CursorMoved(p) => match s.last_cursor_pos {
                Some(q) => if s.is_capturing_cursor {
                    Some(InputView::Move(Motion::MouseRelative(offset_between(q, p))))
                } else {
                    Some(InputView::Move(Motion::MouseCursor(p)))
                },
                None => Some(InputView::Move(Motion::MouseCursor(p))),
            },
            NativeEvent::CursorEntered => Some(InputView::Cursor(true)),
            NativeEvent::CursorLeft => Some(InputView::Cursor(false)),
            NativeEvent::MouseWheel(o) => Some(InputView::Move(Motion::MouseScroll(o))),
            NativeEvent::MouseInput { state, button } => Some(
                InputView::Button(
                    ButtonArgs { state, button: Button::Mouse(mouse_button_for(button)), scancode: None },
                ),
            ),
            NativeEvent::HoveredFile(p) => Some(InputView::FileDrag(FileDrag::Hover(p))),
            NativeEvent::DroppedFile(p) => Some(InputView::FileDrag(FileDrag::Drop(p))),
            NativeEvent::HoveredFileCancelled => Some(InputView::FileDrag(FileDrag::Cancel)),
            NativeEvent::CloseRequested => Some(InputView::Close),
            NativeEvent::WakeUp => None,
            NativeEvent::Other => None,
        },
    }
}

/// What the owner of the window must do after classifying `ev`.
pub open spec fn effect_of(s: Session, ev: Option<NativeEvent>, window: Size) -> Effect {
    match ev {
        None => if s.is_capturing_cursor {
            recenter_effect(s, window)
        } else {
            Effect::Nothing
        },
        Some(NativeEvent::WakeUp) => if s.is_capturing_cursor {
            recenter_effect(s, window)
        } else {
            Effect::Nothing
        },
        Some(NativeEvent::Resized(d)) => if d.width != 0 && d.height != 0 {
            Effect::ResizeSurface(d)
        } else {
            Effect::Nothing
        },
        Some(NativeEvent::CursorMoved(p)) => if s.is_capturing_cursor && s.last_cursor_pos is Some {
            recenter_effect(next_session(s, ev), window)
        } else {
            Effect::Nothing
        },
        _ => Effect::Nothing,
    }
}

/// The session after emitting a pending synthetic event, and that event.
pub open spec fn pending_of(s: Session) -> (Session, Option<InputView>) {
    match s.cursor_pos {
        Some(p) => (Session { cursor_pos: None, ..s }, Some(InputView::Move(Motion::MouseCursor(p)))),
        None => match s.mouse_relative {
            Some(d) => (
                Session { mouse_relative: None, ..s },
                Some(InputView::Move(Motion::MouseRelative(d))),
            ),
            None => (s, None),
        },
    }
}

/// Half of a window extent in fixed-point units, saturated to `i32`.
fn half_extent_exec(n: u32) -> (r: i32)
    ensures
        r == half_extent(n),
{
    let v: i64 = (n as i64) * SUBPIXELS_PER_PIXEL / 2;
    if v > i32::MAX as i64 {
        i32::MAX
    } else {
        v as i32
    }
}

/// The logical center of a window of the given logical size.
pub fn center_of(window: Size) -> (r: Pos)
    ensures
        r == window_center(window),
{
    Pos { x: half_extent_exec(window.width), y: half_extent_exec(window.height) }
}

/// Relies on std's `char::to_string`: a string of exactly that character.
#[verifier::external_body]
fn char_to_string(c: char) -> (r: String)
    ensures
        r@ == seq![c],
{
    c.to_string()
}

impl Session {
    /// A session with no pointer or key history.
    pub fn new(exit_on_esc: bool, automatic_close: bool) -> (r: Session)
        ensures
            r == (Session {
                should_close: false,
                automatic_close,
                exit_on_esc,
                is_capturing_cursor: false,
                last_cursor_pos: None,
                mouse_relative: None,
                cursor_pos: None,
                last_key_pressed: None,
            }),
    {
        Session {
            should_close: false,
            automatic_close,
            exit_on_esc,
            is_capturing_cursor: false,
            last_cursor_pos: None,
            mouse_relative: None,
            cursor_pos: None,
            last_key_pressed: None,
        }
    }

    /// Takes the pending synthetic event, absolute motion first. These are
    /// emitted before the next native event is taken.
    pub fn pre_pop_front_event(&mut self) -> (r: Option<Input>)
        ensures
            *final(self) == pending_of(*old(self)).0,
            opt_input_view(r) == pending_of(*old(self)).1,
    {
        if let Some(pos) = self.cursor_pos {
            self.cursor_pos = None;
            return Some(Input::Move(Motion::MouseCursor(pos)));
        }
        if let Some(d) = self.mouse_relative {
            self.mouse_relative = None;
            return Some(Input::Move(Motion::MouseRelative(d)));
        }
        None
    }

    /// The recentering step of cursor capture. The session changes only when
    /// the owner reports success through `cursor_recentered`.
    pub fn fake_capture(&self, window: Size) -> (r: Effect)
        ensures
            r == recenter_effect(*self, window),
    {
        if let Some(pos) = self.last_cursor_pos {
            let center = center_of(window);
            if pos.x != center.x || pos.y != center.y {
                return Effect::SetCursorPosition(center);
            }
        }
        Effect::Nothing
    }

    /// Records that the pointer was moved to `pos`.
    pub fn cursor_recentered(&mut self, pos: Pos)
        ensures
            *final(self) == (Session { last_cursor_pos: Some(pos), ..*old(self) }),
    {
        self.last_cursor_pos = Some(pos);
    }

    /// Turns cursor capture on or off. Turning it on forgets the last pointer
    /// position, so that the next move only seeds it.
    pub fn set_capture_cursor(&mut self, value: bool)
        ensures
            *final(self) == (if value {
                Session { is_capturing_cursor: true, last_cursor_pos: None, ..*old(self) }
            } else {
                Session { is_capturing_cursor: false, ..*old(self) }
            }),
    {
        self.is_capturing_cursor = value;
        if value {
            self.last_cursor_pos = None;
        }
    }

    /// Classifies one native event (`None`: no event was available).
    /// Sets `unknown` when the event is unrecognized; the result is then `None`.
    pub fn handle_event(&mut self, ev: Option<NativeEvent>, window: Size, unknown: &mut bool) -> (r: (
        Option<Input>,
        Effect,
    ))
        ensures
            *final(self) == next_session(*old(self), ev),
            *final(unknown) == is_unrecognized(*old(self), ev),
            opt_input_view(r.0) == output_of(*old(self), ev, window),
            r.1 == effect_of(*old(self), ev, window),
    {
        *unknown = false;
        match ev {
            None => {
                let effect = if self.is_capturing_cursor {
                    self.fake_capture(window)
                } else {
                    Effect::Nothing
                };
                (None, effect)
            },
            Some(NativeEvent::Resized(draw_size)) => {
                let effect = if draw_size.width != 0 && draw_size.height != 0 {
                    Effect::ResizeSurface(draw_size)
                } else {
                    Effect::Nothing
                };
                (Some(Input::Resize(ResizeArgs { window_size: window, draw_size })), effect)
            },
            Some(NativeEvent::ReceivedCharacter(ch)) => {
                let text = if ch == '\u{7f}' || ch == '\u{1b}' || ch == '\u{8}' || ch == '\r' || ch
                    == '\n' || ch == '\t' {
                    String::new()
                } else {
                    char_to_string(ch)
                };
                (Some(Input::Text(text)), Effect::Nothing)
            },
            Some(NativeEvent::Focused(focused)) => (Some(Input::Focus(focused)), Effect::Nothing),
            Some(NativeEvent::KeyboardInput { state, key: Some(key), scancode }) => {
                let normalized = map_key(key);
                match state {
                    ButtonState::Press => {
                        if self.exit_on_esc && normalized == Key::Escape {
                            self.should_close = true;
                        }
                        if let Some(last_key) = self.last_key_pressed {
                            if last_key == normalized {
                                *unknown = true;
                                return (None, Effect::Nothing);
                            }
                        }
                        self.last_key_pressed = Some(normalized);
                    },
                    ButtonState::Release => {
                        if let Some(last_key) = self.last_key_pressed {
                            if last_key == normalized {
                                self.last_key_pressed = None;
                            }
                        }
                    },
                }
                let args = ButtonArgs {
                    state,
                    button: Button::Keyboard(normalized),
                    scancode: Some(scancode),
                };
                (Some(Input::Button(args)), Effect::Nothing)
            },
            Some(NativeEvent::KeyboardInput { state: _, key: None, scancode: _ }) => {
                *unknown = true;
                (None, Effect::Nothing)
            },
            Some(NativeEvent::Touch { id, phase, position }) => {
                let args = TouchArgs { device: 0, id, position, touch: phase };
                (Some(Input::Move(Motion::Touch(args))), Effect::Nothing)
            },
            Some(NativeEvent::CursorMoved(position)) => {
                if let Some(pos) = self.last_cursor_pos {
                    let d = Offset {
                        dx: position.x as i64 - pos.x as i64,
                        dy: position.y as i64 - pos.y as i64,
                    };
                    if self.is_capturing_cursor {
                        self.last_cursor_pos = Some(position);
                        let effect = self.fake_capture(window);
                        // Only relative motion is emitted while capturing.
                        return (Some(Input::Move(Motion::MouseRelative(d))), effect);
                    }
                    // Relative motion is emitted on the next poll.
                    self.mouse_relative = Some(d);
                }
                self.last_cursor_pos = Some(position);
                (Some(Input::Move(Motion::MouseCursor(position))), Effect::Nothing)
            },
            Some(NativeEvent::CursorEntered) => (Some(Input::Cursor(true)), Effect::Nothing),
            Some(NativeEvent::CursorLeft) => (Some(Input::Cursor(false)), Effect::Nothing),
            Some(NativeEvent::MouseWheel(delta)) => (
                Some(Input::Move(Motion::MouseScroll(delta))),
                Effect::Nothing,
            ),
            Some(NativeEvent::MouseInput { state, button }) => {
                let args = ButtonArgs { state, button: Button::Mouse(map_mouse(button)), scancode: None };
                (Some(Input::Button(args)), Effect::Nothing)
            },
            Some(NativeEvent::HoveredFile(path)) => (
                Some(Input::FileDrag(FileDrag::Hover(path))),
                Effect::Nothing,
            ),
            Some(NativeEvent::DroppedFile(path)) => (
                Some(Input::FileDrag(FileDrag::Drop(path))),
                Effect::Nothing,
            ),
            Some(NativeEvent::HoveredFileCancelled) => (
                Some(Input::FileDrag(FileDrag::Cancel)),
                Effect::Nothing,
            ),
            Some(NativeEvent::CloseRequested) => {
                if self.automatic_close {
                    self.should_close = true;
                }
                (Some(Input::Close), Effect::Nothing)
            },
            Some(NativeEvent::WakeUp) => {
                let effect = if self.is_capturing_cursor {
                    self.fake_capture(window)
                } else {
                    Effect::Nothing
                };
                (None, effect)
            },
            Some(NativeEvent::Other) => {
                *unknown = true;
                (None, Effect::Nothing)
            },
        }
    }
}

/// A key press of `k` with scancode `sc`.
pub open spec fn key_press(k: NativeKey, sc: i32) -> Option<NativeEvent> {
    Some(NativeEvent::KeyboardInput { state: ButtonState::Press, key: Some(k), scancode: sc })
}

/// A key release of `k` with scancode `sc`.
pub open spec fn key_release(k: NativeKey, sc: i32) -> Option<NativeEvent> {
    Some(NativeEvent::KeyboardInput { state: ButtonState::Release, key: Some(k), scancode: sc })
}

/// The normalized event of a key going down or up.
pub open spec fn key_button(state: ButtonState, k: NativeKey, sc: i32) -> Option<InputView> {
    Some(
        InputView::Button(
            ButtonArgs { state, button: Button::Keyboard(key_for(k)), scancode: Some(sc) },
        ),
    )
}

/// Pressing a key that is not held, then pressing it again with no release
/// between, yields exactly one press: the second is dropped as unrecognized.
/// After a release of the key, a third press is emitted again.
pub proof fn lemma_repeated_press_yields_once(
    s: Session,
    k: NativeKey,
    sc1: i32,
    sc2: i32,
    sc3: i32,
    sc4: i32,
    window: Size,
)
    requires
        s.last_key_pressed != Some(key_for(k)),
    ensures
        output_of(s, key_press(k, sc1), window) == key_button(ButtonState::Press, k, sc1),
        !is_unrecognized(s, key_press(k, sc1)),
        output_of(next_session(s, key_press(k, sc1)), key_press(k, sc2), window) is None,
        is_unrecognized(next_session(s, key_press(k, sc1)), key_press(k, sc2)),
        ({
            let s2 = next_session(next_session(s, key_press(k, sc1)), key_press(k, sc2));
            let s3 = next_session(s2, key_release(k, sc3));
            &&& output_of(s2, key_release(k, sc3), window) == key_button(ButtonState::Release, k, sc3)
            &&& output_of(s3, key_press(k, sc4), window) == key_button(ButtonState::Press, k, sc4)
            &&& !is_unrecognized(s3, key_press(k, sc4))
        }),
{
}

/// With exit-on-escape set, a press of Escape requests closing, whether or
/// not the press itself is emitted.
pub proof fn lemma_escape_requests_close(s: Session, sc: i32)
    requires
        s.exit_on_esc,
    ensures
        next_session(s, key_press(NativeKey::Escape, sc)).should_close,
{
}

/// A resize with a zero extent leaves the drawable surface alone but is
/// still emitted; any other resize resizes the surface.
pub proof fn lemma_resize_event(s: Session, d: Size, window: Size)
    ensures
        output_of(s, Some(NativeEvent::Resized(d)), window) == Some(
            InputView::Resize(ResizeArgs { window_size: window, draw_size: d }),
        ),
        (d.width == 0 || d.height == 0) ==> effect_of(s, Some(NativeEvent::Resized(d)), window)
            == Effect::Nothing,
        (d.width != 0 && d.height != 0) ==> effect_of(s, Some(NativeEvent::Resized(d)), window)
            == Effect::ResizeSurface(d),
{
}

} // verus!
