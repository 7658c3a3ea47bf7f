use std::path::PathBuf;

use glutin_window::input::{
    Button, ButtonArgs, ButtonState, FileDrag, Input, Key, Motion, MouseButton, Offset, Pos,
    ResizeArgs, Size, Touch, TouchArgs,
};
use glutin_window::keymap::{map_key, map_mouse, NativeKey, NativeMouseButton};
use glutin_window::pump::{EventPump, PollStep};
use glutin_window::scheduler::{WaitAction, WaitMode, Waiter};
use glutin_window::session::{center_of, Effect, NativeEvent, Session};

const WINDOW: Size = Size { width: 800, height: 600 };

fn pump_with(exit_on_esc: bool, automatic_close: bool) -> EventPump {
    EventPump::new(Session::new(exit_on_esc, automatic_close))
}

fn press(key: NativeKey, scancode: i32) -> NativeEvent {
    NativeEvent::KeyboardInput { state: ButtonState::Press, key: Some(key), scancode }
}

fn release(key: NativeKey, scancode: i32) -> NativeEvent {
    NativeEvent::KeyboardInput { state: ButtonState::Release, key: Some(key), scancode }
}

fn drain(p: &mut EventPump, events: Vec<NativeEvent>) {
    for e in events {
        p.receive(e);
    }
    p.receive(NativeEvent::WakeUp);
    p.end_pump();
}

/// Polls until the queue needs a drain, collecting the events.
fn poll_all(p: &mut EventPump) -> Vec<Input> {
    let mut out = Vec::new();
    loop {
        match p.poll_step(WINDOW).0 {
            PollStep::Emit(i) => out.push(i),
            PollStep::Empty => {}
            PollStep::NeedPump => return out,
        }
    }
}

fn key_button(state: ButtonState, key: Key, scancode: i32) -> Input {
    Input::Button(ButtonArgs { state, button: Button::Keyboard(key), scancode: Some(scancode) })
}

#[test]
fn repeated_press_yields_one_press() {
    let mut p = pump_with(false, true);
    drain(&mut p, vec![press(NativeKey::A, 30), press(NativeKey::A, 30)]);
    assert_eq!(poll_all(&mut p), vec![key_button(ButtonState::Press, Key::A, 30)]);
    drain(&mut p, vec![release(NativeKey::A, 30), press(NativeKey::A, 30)]);
    assert_eq!(
        poll_all(&mut p),
        vec![key_button(ButtonState::Release, Key::A, 30), key_button(ButtonState::Press, Key::A, 30)]
    );
}

#[test]
fn mismatched_release_is_still_emitted() {
    let mut p = pump_with(false, true);
    drain(&mut p, vec![press(NativeKey::A, 1), release(NativeKey::B, 2), press(NativeKey::A, 1)]);
    assert_eq!(
        poll_all(&mut p),
        vec![key_button(ButtonState::Press, Key::A, 1), key_button(ButtonState::Release, Key::B, 2)]
    );
    assert_eq!(p.session.last_key_pressed, Some(Key::A));
}

#[test]
fn poll_on_empty_source_returns_no_event() {
    let mut p = pump_with(false, true);
    assert_eq!(p.poll_step(WINDOW), (PollStep::NeedPump, Effect::Nothing));
    p.receive(NativeEvent::WakeUp);
    p.end_pump();
    assert_eq!(p.poll_step(WINDOW), (PollStep::Empty, Effect::Nothing));
    assert_eq!(p.poll_step(WINDOW), (PollStep::NeedPump, Effect::Nothing));
    p.end_pump();
    assert_eq!(p.poll_step(WINDOW), (PollStep::Empty, Effect::Nothing));
}

#[test]
fn capture_absorbs_seed_move_then_emits_relative() {
    let mut p = pump_with(false, true);
    p.session.set_capture_cursor(true);
    p.receive(NativeEvent::CursorMoved(Pos { x: 1000, y: 2000 }));
    p.end_pump();
    let step = p.poll_step(WINDOW);
    assert_eq!(step, (PollStep::NeedPump, Effect::Nothing));
    p.receive(NativeEvent::CursorMoved(Pos { x: 1256, y: 1900 }));
    let (step, effect) = p.poll_step(WINDOW);
    assert_eq!(step, PollStep::Emit(Input::Move(Motion::MouseRelative(Offset { dx: 256, dy: -100 }))));
    let center = Pos { x: 400 * 256, y: 300 * 256 };
    assert_eq!(effect, Effect::SetCursorPosition(center));
    p.session.cursor_recentered(center);
    assert_eq!(p.session.last_cursor_pos, Some(center));
    p.receive(NativeEvent::CursorMoved(Pos { x: center.x + 10, y: center.y }));
    let (step, _) = p.poll_step(WINDOW);
    assert_eq!(step, PollStep::Emit(Input::Move(Motion::MouseRelative(Offset { dx: 10, dy: 0 }))));
}

#[test]
fn idle_capture_recenters() {
    let mut p = pump_with(false, true);
    p.session.set_capture_cursor(true);
    p.session.cursor_recentered(Pos { x: 5, y: 5 });
    drain(&mut p, vec![]);
    let center = center_of(WINDOW);
    assert_eq!(p.poll_step(WINDOW), (PollStep::Empty, Effect::SetCursorPosition(center)));
    p.session.cursor_recentered(center);
    drain(&mut p, vec![]);
    assert_eq!(p.poll_step(WINDOW), (PollStep::Empty, Effect::Nothing));
}

#[test]
fn relative_motion_follows_after_capture_ends() {
    let mut p = pump_with(false, true);
    p.session.set_capture_cursor(true);
    drain(&mut p, vec![NativeEvent::CursorMoved(Pos { x: 0, y: 0 })]);
    assert_eq!(poll_all(&mut p), vec![]);
    p.session.set_capture_cursor(false);
    drain(&mut p, vec![NativeEvent::CursorMoved(Pos { x: 30, y: 40 })]);
    assert_eq!(
        poll_all(&mut p),
        vec![
            Input::Move(Motion::MouseCursor(Pos { x: 30, y: 40 })),
            Input::Move(Motion::MouseRelative(Offset { dx: 30, dy: 40 })),
        ]
    );
}

#[test]
fn first_move_without_capture_is_absolute_only() {
    let mut p = pump_with(false, true);
    drain(&mut p, vec![NativeEvent::CursorMoved(Pos { x: 7, y: 9 })]);
    assert_eq!(poll_all(&mut p), vec![Input::Move(Motion::MouseCursor(Pos { x: 7, y: 9 }))]);
}

#[test]
fn escape_requests_close() {
    let mut p = pump_with(true, false);
    drain(&mut p, vec![press(NativeKey::Escape, 1)]);
    let _ = p.poll_step(WINDOW);
    assert!(p.session.should_close);
    let mut q = pump_with(false, false);
    drain(&mut q, vec![press(NativeKey::Escape, 1)]);
    let _ = q.poll_step(WINDOW);
    assert!(!q.session.should_close);
}

#[test]
fn text_control_characters_are_empty() {
    let mut p = pump_with(false, true);
    drain(
        &mut p,
        vec![
            NativeEvent::ReceivedCharacter('\u{8}'),
            NativeEvent::ReceivedCharacter('a'),
            NativeEvent::ReceivedCharacter('\t'),
            NativeEvent::ReceivedCharacter('é'),
        ],
    );
    assert_eq!(
        poll_all(&mut p),
        vec![
            Input::Text(String::new()),
            Input::Text("a".to_string()),
            Input::Text(String::new()),
            Input::Text("é".to_string()),
        ]
    );
}

#[test]
fn zero_resize_skips_surface_but_emits_event() {
    let mut s = Session::new(false, true);
    let mut unknown = false;
    let draw = Size { width: 0, height: 480 };
    let (out, effect) = s.handle_event(Some(NativeEvent::Resized(draw)), WINDOW, &mut unknown);
    assert!(!unknown);
    assert_eq!(effect, Effect::Nothing);
    assert_eq!(out, Some(Input::Resize(ResizeArgs { window_size: WINDOW, draw_size: draw })));
    let draw = Size { width: 1600, height: 1200 };
    let (out, effect) = s.handle_event(Some(NativeEvent::Resized(draw)), WINDOW, &mut unknown);
    assert_eq!(effect, Effect::ResizeSurface(draw));
    assert_eq!(out, Some(Input::Resize(ResizeArgs { window_size: WINDOW, draw_size: draw })));
}

#[test]
fn close_requested_respects_automatic_close() {
    let mut p = pump_with(false, true);
    drain(&mut p, vec![NativeEvent::CloseRequested]);
    assert_eq!(poll_all(&mut p), vec![Input::Close]);
    assert!(p.session.should_close);
    let mut q = pump_with(false, false);
    drain(&mut q, vec![NativeEvent::CloseRequested]);
    assert_eq!(poll_all(&mut q), vec![Input::Close]);
    assert!(!q.session.should_close);
}

#[test]
fn unrecognized_events_are_skipped() {
    let mut p = pump_with(false, true);
    drain(
        &mut p,
        vec![
            NativeEvent::Other,
            NativeEvent::KeyboardInput { state: ButtonState::Press, key: None, scancode: 3 },
            NativeEvent::Focused(true),
        ],
    );
    assert_eq!(p.poll_step(WINDOW), (PollStep::Emit(Input::Focus(true)), Effect::Nothing));
    assert_eq!(p.poll_step(WINDOW), (PollStep::Empty, Effect::Nothing));
}

#[test]
fn other_events_map_one_to_one() {
    let mut p = pump_with(false, true);
    let path = PathBuf::from("/tmp/a.png");
    drain(
        &mut p,
        vec![
            NativeEvent::CursorEntered,
            NativeEvent::CursorLeft,
            NativeEvent::MouseWheel(Offset { dx: 0, dy: -256 }),
            NativeEvent::MouseInput { state: ButtonState::Press, button: NativeMouseButton::Other(1) },
            NativeEvent::Touch { id: 4, phase: Touch::Move, position: Pos { x: 1, y: 2 } },
            NativeEvent::HoveredFile(path.clone()),
            NativeEvent::DroppedFile(path.clone()),
            NativeEvent::HoveredFileCancelled,
        ],
    );
    assert_eq!(
        poll_all(&mut p),
        vec![
            Input::Cursor(true),
            Input::Cursor(false),
            Input::Move(Motion::MouseScroll(Offset { dx: 0, dy: -256 })),
            Input::Button(ButtonArgs {
                state: ButtonState::Press,
                button: Button::Mouse(MouseButton::X2),
                scancode: None
            }),
            Input::Move(Motion::Touch(TouchArgs {
                device: 0,
                id: 4,
                position: Pos { x: 1, y: 2 },
                touch: Touch::Move
            })),
            Input::FileDrag(FileDrag::Hover(path.clone())),
            Input::FileDrag(FileDrag::Drop(path)),
            Input::FileDrag(FileDrag::Cancel),
        ]
    );
}

#[test]
fn key_and_mouse_tables() {
    assert_eq!(map_key(NativeKey::Key0), Key::D0);
    assert_eq!(map_key(NativeKey::Back), Key::Backspace);
    assert_eq!(map_key(NativeKey::NumpadComma), Key::NumPadDecimal);
    assert_eq!(map_key(NativeKey::LControl), Key::LCtrl);
    assert_eq!(map_key(NativeKey::Snapshot), Key::PrintScreen);
    assert_eq!(map_key(NativeKey::Apostrophe), Key::Unknown);
    assert_eq!(map_key(NativeKey::Capital), Key::Unknown);
    assert_eq!(map_key(NativeKey::F24), Key::F24);
    assert_eq!(map_mouse(NativeMouseButton::Left), MouseButton::Left);
    assert_eq!(map_mouse(NativeMouseButton::Other(0)), MouseButton::X1);
    assert_eq!(map_mouse(NativeMouseButton::Other(4)), MouseButton::Button8);
    assert_eq!(map_mouse(NativeMouseButton::Other(5)), MouseButton::Unknown);
}

#[test]
fn window_center_in_subpixels() {
    assert_eq!(center_of(Size { width: 801, height: 0 }), Pos { x: 801 * 128, y: 0 });
    assert_eq!(center_of(Size { width: u32::MAX, height: 2 }), Pos { x: i32::MAX, y: 256 });
}

#[test]
fn scheduler_decisions() {
    let mut w = Waiter::new(WaitMode::Poll);
    assert_eq!(w.after_poll(false), WaitAction::Finish);
    let mut w = Waiter::new(WaitMode::Wait);
    assert_eq!(w.after_poll(false), WaitAction::Block);
    assert_eq!(w.after_poll(false), WaitAction::Block);
    assert_eq!(w.after_poll(true), WaitAction::Finish);
    let mut w = Waiter::new(WaitMode::WaitTimeout);
    assert_eq!(w.after_poll(false), WaitAction::ArmTimerAndBlock);
    assert_eq!(w.after_poll(false), WaitAction::Finish);
    let mut w = Waiter::new(WaitMode::WaitTimeout);
    assert_eq!(w.after_poll(true), WaitAction::Finish);
}
