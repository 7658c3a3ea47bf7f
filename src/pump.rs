//! The event queue and the poll step: native events are buffered in arrival
//! order and classified one by one, pending synthetic events first.

use vstd::prelude::*;

use crate::input::{ButtonState, Input, InputView, Motion, Pos, Size};
use crate::keymap::NativeKey;
use crate::session::{
    effect_of, is_unrecognized, next_session, offset_between, output_of, pending_of,
    recenter_effect, window_center, Effect, NativeEvent, Session,
};

verus! {

/// What one poll step asks of the owner of the native event source.
#[derive(Debug, PartialEq)]
pub enum PollStep {
    /// An event for the caller.
    Emit(Input),
    /// No event is available now.
    Empty,
    /// The queue is exhausted: drain the native source into it with
    /// `receive` up to the wake marker, call `end_pump`, then step again.
    NeedPump,
}

/// What a poll step yields, with text as a sequence of characters.
pub enum PollStepView {
    Emit(InputView),
    Empty,
    NeedPump,
}

/// The whole outcome of a poll step.
pub struct PollOutcome {
    pub session: Session,
    pub queue: Seq<NativeEvent>,
    pub pumped: bool,
    pub step: PollStepView,
    pub effect: Effect,
}

/// The view of a poll step.
pub open spec fn step_view(p: PollStep) -> PollStepView {
    match p {
        PollStep::Emit(i) => PollStepView::Emit(i@),
        PollStep::Empty => PollStepView::Empty,
        PollStep::NeedPump => PollStepView::NeedPump,
    }
}

/// Whether the first move after entering capture only seeds the pointer
/// position: it is consumed without being classified.
pub open spec fn seeds_capture(s: Session, ev: Option<NativeEvent>) -> bool {
    s.is_capturing_cursor && s.last_cursor_pos is None && ev matches Some(NativeEvent::CursorMoved(_))
}

/// The session after a seeding move.
pub open spec fn seeded(s: Session, ev: Option<NativeEvent>) -> Session {
    match ev {
        Some(NativeEvent::CursorMoved(p)) => Session { last_cursor_pos: Some(p), ..s },
        _ => s,
    }
}

/// One poll step on session `s` and queue `q`; `pumped` says that the native
/// source was just drained, so an empty queue means no event is available.
pub open spec fn poll_spec(s: Session, q: Seq<NativeEvent>, pumped: bool, window: Size) -> PollOutcome
    decreases q.len(),
{
    let (s1, pending) = pending_of(s);
    if pending is Some {
        PollOutcome {
            session: s1,
            queue: q,
            pumped,
            step: PollStepView::Emit(pending->0),
            effect: Effect::Nothing,
        }
    } else if q.len() == 0 && !pumped {
        PollOutcome { session: s, queue: q, pumped, step: PollStepView::NeedPump, effect: Effect::Nothing }
    } else if q.len() == 0 {
        PollOutcome {
            session: next_session(s, None),
            queue: q,
            pumped: false,
            step: PollStepView::Empty,
            effect: effect_of(s, None, window),
        }
    } else {
        let ev = Some(q[0]);
        let rest = q.drop_first();
        if seeds_capture(s, ev) {
            poll_spec(seeded(s, ev), rest, false, window)
        } else if is_unrecognized(s, ev) {
            poll_spec(next_session(s, ev), rest, false, window)
        } else {
            PollOutcome {
                session: next_session(s, ev),
                queue: rest,
                pumped: false,
                step: match output_of(s, ev, window) {
                    Some(i) => PollStepView::Emit(i),
                    None => PollStepView::Empty,
                },
                effect: effect_of(s, ev, window),
            }
        }
    }
}

/// The window's session together with its queue of native events.
pub struct EventPump {
    /// The session state that classification reads and changes.
    pub session: Session,
    /// Buffered native events, oldest first.
    pub events: std::collections::VecDeque<NativeEvent>,
    /// Whether the native source was drained since the last event was taken.
    pub pumped: bool,
}

impl EventPump {
    /// The buffered native events, oldest first.
    pub open spec fn queue(&self) -> Seq<NativeEvent> {
        self.events@
    }

    /// Whether the native source was drained since the last event was taken.
    pub open spec fn pumped(&self) -> bool {
        self.pumped
    }

    /// An empty queue for the given session.
    pub fn new(session: Session) -> (r: EventPump)
        ensures
            r.session == session,
            r.queue() == Seq::<NativeEvent>::empty(),
            !r.pumped(),
    {
        EventPump { session, events: std::collections::VecDeque::new(), pumped: false }
    }

    /// Buffers one native event; returns whether it is the wake marker,
    /// which ends a drain of the native source.
    pub fn receive(&mut self, ev: NativeEvent) -> (stop: bool)
        ensures
            final(self).session == old(self).session,
            final(self).queue() == old(self).queue().push(ev),
            final(self).pumped() == old(self).pumped(),
            stop == (ev == NativeEvent::WakeUp),
    {
        let stop = match ev {
            NativeEvent::WakeUp => true,
            _ => false,
        };
        self.events.push_back(ev);
        stop
    }

    /// Records that the native source was drained: from now on an empty queue
    /// means that no event is available.
    pub fn end_pump(&mut self)
        ensures
            final(self).session == old(self).session,
            final(self).queue() == old(self).queue(),
            final(self).pumped(),
    {
        self.pumped = true;
    }

    /// One poll step: a pending synthetic event if there is one; else the
    /// first recognized native event, skipping unrecognized ones; else
    /// `Empty` after a drain, or `NeedPump` before one.
    pub fn poll_step(&mut self, window: Size) -> (r: (PollStep, Effect))
        ensures
            ({
                let o = poll_spec(old(self).session, old(self).queue(), old(self).pumped(), window);
                &&& final(self).session == o.session
                &&& final(self).queue() == o.queue
                &&& final(self).pumped() == o.pumped
                &&& step_view(r.0) == o.step
                &&& r.1 == o.effect
            }),
    {
        loop
            invariant
                poll_spec(self.session, self.events@, self.pumped, window) == poll_spec(
                    old(self).session,
                    old(self).events@,
                    old(self).pumped,
                    window,
                ),
            decreases self.events@.len(),
        {
            if let Some(i) = self.session.pre_pop_front_event() {
                return (PollStep::Emit(i), Effect::Nothing);
            }
            if self.events.len() == 0 && !self.pumped {
                return (PollStep::NeedPump, Effect::Nothing);
            }
            self.pumped = false;
            let ev = self.events.pop_front();
            if self.session.is_capturing_cursor && self.session.last_cursor_pos.is_none() {
                if let Some(NativeEvent::CursorMoved(p)) = &ev {
                    // The first move after entering capture only seeds the position.
                    self.session.last_cursor_pos = Some(*p);
                    continue;
                }
            }
            let mut unknown = false;
            let (out, effect) = self.session.handle_event(ev, window, &mut unknown);
            if unknown {
                continue;
            }
            let step = match out {
                Some(i) => PollStep::Emit(i),
                None => PollStep::Empty,
            };
            return (step, effect);
        }
    }
}

/// On a native source with nothing queued, a poll step first asks for a
/// drain; once the drain has brought only the wake marker, the step reports
/// that no event is available.
pub proof fn lemma_poll_empty_source(s: Session, window: Size)
    requires
        pending_of(s).1 is None,
    ensures
        poll_spec(s, Seq::empty(), false, window).step is NeedPump,
        poll_spec(s, seq![NativeEvent::WakeUp], true, window).step is Empty,
        poll_spec(s, Seq::empty(), true, window).step is Empty,
{
    assert(seq![NativeEvent::WakeUp].drop_first() =~= Seq::<NativeEvent>::empty());
}

/// After entering capture, the first move only seeds the pointer position
/// and yields nothing; the second yields exactly one relative motion, the
/// displacement between the two positions, and asks to recenter the pointer.
pub proof fn lemma_capture_seed_then_relative(s: Session, first: Pos, second: Pos, window: Size)
    requires
        s.is_capturing_cursor,
        s.last_cursor_pos is None,
        s.cursor_pos is None,
        s.mouse_relative is None,
    ensures
        poll_spec(s, seq![NativeEvent::CursorMoved(first)], false, window).step is NeedPump,
        ({
            let o = poll_spec(
                s,
                seq![NativeEvent::CursorMoved(first), NativeEvent::CursorMoved(second)],
                false,
                window,
            );
            &&& o.step == PollStepView::Emit(
                InputView::Move(Motion::MouseRelative(offset_between(first, second))),
            )
            &&& o.queue.len() == 0
            &&& o.session.last_cursor_pos == Some(second)
            &&& o.session.mouse_relative is None
            &&& o.effect == recenter_effect(o.session, window)
            &&& second != window_center(window) ==> o.effect == Effect::SetCursorPosition(
                window_center(window),
            )
        }),
{
    let m1 = NativeEvent::CursorMoved(first);
    let m2 = NativeEvent::CursorMoved(second);
    let s1 = seeded(s, Some(m1));
    assert(seq![m1].drop_first() =~= Seq::<NativeEvent>::empty());
    assert(poll_spec(s, seq![m1], false, window) == poll_spec(s1, Seq::empty(), false, window));
    assert(seq![m1, m2].drop_first() =~= seq![m2]);
    assert(seq![m2].drop_first() =~= Seq::<NativeEvent>::empty());
    assert(poll_spec(s, seq![m1, m2], false, window) == poll_spec(s1, seq![m2], false, window));
}

/// Outside capture, a move is emitted as absolute motion, and the relative
/// motion since the previous position follows on the next poll step, once.
pub proof fn lemma_relative_motion_lags_one_step(
    s: Session,
    q: Pos,
    p: Pos,
    rest: Seq<NativeEvent>,
    pumped: bool,
    window: Size,
)
    requires
        !s.is_capturing_cursor,
        s.last_cursor_pos == Some(q),
        s.cursor_pos is None,
        s.mouse_relative is None,
    ensures
        ({
            let o1 = poll_spec(s, seq![NativeEvent::CursorMoved(p)] + rest, false, window);
            let o2 = poll_spec(o1.session, o1.queue, pumped, window);
            &&& o1.step == PollStepView::Emit(InputView::Move(Motion::MouseCursor(p)))
            &&& o1.queue == rest
            &&& o2.step == PollStepView::Emit(
                InputView::Move(Motion::MouseRelative(offset_between(q, p))),
            )
            &&& o2.queue == rest
            &&& o2.session.mouse_relative is None
            &&& o2.session.last_cursor_pos == Some(p)
        }),
{
    assert((seq![NativeEvent::CursorMoved(p)] + rest).drop_first() =~= rest);
    assert((seq![NativeEvent::CursorMoved(p)] + rest)[0] == NativeEvent::CursorMoved(p));
}

/// With exit-on-escape set, a poll step that takes a press of Escape leaves
/// the session asking to close, whatever the step returns.
pub proof fn lemma_escape_closes_through_poll(s: Session, sc: i32, window: Size)
    requires
        s.exit_on_esc,
        pending_of(s).1 is None,
    ensures
        poll_spec(
            s,
            seq![
                NativeEvent::KeyboardInput {
                    state: ButtonState::Press,
                    key: Some(NativeKey::Escape),
                    scancode: sc,
                },
            ],
            false,
            window,
        ).session.should_close,
{
    let e = NativeEvent::KeyboardInput {
        state: ButtonState::Press,
        key: Some(NativeKey::Escape),
        scancode: sc,
    };
    assert(seq![e].drop_first() =~= Seq::<NativeEvent>::empty());
    let s1 = next_session(s, Some(e));
    assert(s1.should_close);
    if is_unrecognized(s, Some(e)) {
        assert(poll_spec(s, seq![e], false, window) == poll_spec(s1, Seq::empty(), false, window));
        assert(poll_spec(s1, Seq::empty(), false, window).session == s1);
    }
}

} // verus!
