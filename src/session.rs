use vstd::prelude::*;
use crate::events::{
    BrowserId, ElementState, EmbedderMsg, Key, KeyState, KeyboardEvent, MouseAction, MouseButton,
    EngineButton, NativeEvent, Point, WindowEvent,
};
use crate::translate::{
    click_due, is_control, composed_event, engine_button, engine_key, engine_phase, is_click, key_state,
    scroll_delta, scroll_phase, scroll_vector, to_engine_button, to_key, to_key_state,
    translate_char, translated_char,
};

verus! {

/// A message from the engine, with the browsing context it concerns.
pub type EngineMessage = (Option<BrowserId>, EmbedderMsg);

/// The bridge between the native event source and the engine: cross-event
/// input state and the events waiting to be handed to the engine.
pub struct Session {
    mouse_pos: Point,
    drag_start: Point,
    /// The button that last went down.
    drag_button: Option<MouseButton>,
    /// A key press that waits for the character it produces.
    last_input: Option<KeyboardEvent>,
    event_queue: Vec<WindowEvent>,
}

pub struct SessionView {
    pub mouse_pos: Point,
    pub drag_start: Point,
    pub drag_button: Option<MouseButton>,
    pub last_input: Option<KeyboardEvent>,
    pub queue: Seq<WindowEvent>,
}

impl View for Session {
    type V = SessionView;

    closed spec fn view(&self) -> SessionView {
        SessionView {
            mouse_pos: self.mouse_pos,
            drag_start: self.drag_start,
            drag_button: self.drag_button,
            last_input: self.last_input,
            queue: self.event_queue@,
        }
    }
}

pub open spec fn emit(v: SessionView, ev: WindowEvent) -> SessionView {
    SessionView { queue: v.queue.push(ev), ..v }
}

pub open spec fn on_mouse_input(
    v: SessionView,
    state: ElementState,
    button: MouseButton,
    scale: int,
) -> SessionView {
    match engine_button(button) {
        None => v,
        Some(b) => match state {
            ElementState::Pressed => SessionView {
                drag_start: v.mouse_pos,
                drag_button: Some(button),
                queue: v.queue.push(WindowEvent::Mouse(MouseAction::MouseDown, b, v.mouse_pos)),
                ..v
            },
            ElementState::Released => {
                let up = v.queue.push(WindowEvent::Mouse(MouseAction::MouseUp, b, v.mouse_pos));
                if click_due(v.drag_button, v.drag_start, button, v.mouse_pos, scale) {
                    SessionView {
                        queue: up.push(WindowEvent::Mouse(MouseAction::Click, b, v.mouse_pos)),
                        ..v
                    }
                } else {
                    SessionView { queue: up, ..v }
                }
            },
        },
    }
}

/// A press of an unidentified key waits for its character; an identified key
/// is sent at once and drops any waiting press.
pub open spec fn on_keyboard_input(v: SessionView, ev: KeyboardEvent) -> SessionView {
    if ev.state == KeyState::Down && ev.key == Key::Unidentified {
        SessionView { last_input: Some(ev), ..v }
    } else if ev.key != Key::Unidentified {
        SessionView { last_input: None, ..emit(v, WindowEvent::Keyboard(ev)) }
    } else {
        v
    }
}

/// A character completes the waiting key press; with none waiting, an ASCII
/// character is dropped (its key was sent already) and any other is sent
/// as a key press of its own.
pub open spec fn on_character(v: SessionView, c: char) -> SessionView {
    match translated_char(c) {
        None => v,
        Some(ch) => match v.last_input {
            Some(input) => SessionView {
                last_input: None,
                ..emit(v, WindowEvent::Keyboard(KeyboardEvent { key: Key::Character(ch), ..input }))
            },
            None => if (ch as u32) < 128 {
                v
            } else {
                emit(
                    v,
                    WindowEvent::Keyboard(
                        KeyboardEvent { state: KeyState::Down, key: Key::Character(ch) },
                    ),
                )
            },
        },
    }
}

/// The session after the translator has handled `e` at display scale
/// `scale` (thousandths).
pub open spec fn translate_event(v: SessionView, e: NativeEvent, scale: int) -> SessionView {
    match e {
        NativeEvent::Resized => emit(v, WindowEvent::Resize),
        NativeEvent::CursorMoved(p) => SessionView {
            mouse_pos: p,
            ..emit(v, WindowEvent::MouseMove(p))
        },
        NativeEvent::MouseWheel { delta, phase } => emit(
            v,
            WindowEvent::Scroll(scroll_vector(delta, scale), v.mouse_pos, engine_phase(phase)),
        ),
        NativeEvent::MouseInput { state, button } => on_mouse_input(v, state, button, scale),
        NativeEvent::KeyboardInput { state, key } => on_keyboard_input(
            v,
            KeyboardEvent { state: key_state(state), key: engine_key(key) },
        ),
        NativeEvent::ReceivedCharacter(c) => on_character(v, c),
        NativeEvent::CloseRequested => emit(v, WindowEvent::Quit),
        NativeEvent::Refresh => emit(v, WindowEvent::Refresh),
        NativeEvent::Awakened => emit(v, WindowEvent::Idle),
        NativeEvent::Unhandled => v,
    }
}

/// The answer owed to one engine message: navigation requests of a known
/// browsing context are allowed, everything else needs none.
pub open spec fn answer(m: EngineMessage) -> Seq<WindowEvent> {
    match m.1 {
        EmbedderMsg::AllowNavigationRequest(id) => if m.0.is_some() {
            seq![WindowEvent::AllowNavigationResponse(id, true)]
        } else {
            seq![]
        },
        EmbedderMsg::Unhandled => seq![],
    }
}

/// The answers owed to a batch of engine messages, in order.
pub open spec fn answers(s: Seq<EngineMessage>) -> Seq<WindowEvent>
    decreases s.len(),
{
    if s.len() == 0 {
        seq![]
    } else {
        answers(s.drop_last()) + answer(s.last())
    }
}

/// Whether a flush needs another exchange, after the engine answered with
/// `reply` while `queue_left` was still waiting.
pub open spec fn exchange_continues(queue_left: Seq<WindowEvent>, reply: Seq<EngineMessage>) -> bool {
    reply.len() > 0 || (queue_left + answers(reply)).len() > 0
}

/// The batches that one flush hands to the engine when the engine answers
/// its i-th batch with `replies[i]`: the queued events first, then the
/// answers to each reply, until an exchange leaves nothing to do.
pub open spec fn flush_batches(queue: Seq<WindowEvent>, replies: Seq<Seq<EngineMessage>>) -> Seq<
    Seq<WindowEvent>,
>
    decreases replies.len(),
{
    if replies.len() > 0 && exchange_continues(seq![], replies[0]) {
        seq![queue] + flush_batches(answers(replies[0]), replies.drop_first())
    } else {
        seq![queue]
    }
}

/// A flush ends with the first exchange in which the engine reports
/// nothing: when the engine's k-th reply is its first empty one, the flush
/// makes exactly k + 1 exchanges, handing over the queued events first and
/// then the answers to each earlier reply.
pub proof fn law_flush_quiesces(queue: Seq<WindowEvent>, replies: Seq<Seq<EngineMessage>>, k: int)
    requires
        0 <= k < replies.len(),
        replies[k].len() == 0,
        forall|i: int| 0 <= i < k ==> replies[i].len() > 0,
    ensures
        flush_batches(queue, replies).len() == k + 1,
        flush_batches(queue, replies)[0] == queue,
        forall|i: int| 0 <= i < k ==> flush_batches(queue, replies)[i + 1] == answers(replies[i]),
    decreases k,
{
    if k == 0 {
        assert(answers(replies[0]) =~= seq![]);
        assert(!exchange_continues(seq![], replies[0]));
    } else {
        let rest = replies.drop_first();
        assert forall|i: int| 0 <= i < k - 1 implies rest[i].len() > 0 by {
            assert(rest[i] == replies[i + 1]);
        }
        law_flush_quiesces(answers(replies[0]), rest, k - 1);
        let tail = flush_batches(answers(replies[0]), rest);
        assert(flush_batches(queue, replies) == seq![queue] + tail);
        assert forall|i: int| 0 <= i < k implies flush_batches(queue, replies)[i + 1] == answers(
            replies[i],
        ) by {
            if i > 0 {
                assert(rest[i - 1] == replies[i]);
            }
        }
    }
}

/// A release of a button the engine knows emits the button-up event, and
/// after it a click exactly when the released button is the one that last
/// went down and the pointer moved less than the tolerance since; a release
/// of any other button emits nothing.
pub proof fn law_click_on_release(v: SessionView, button: MouseButton, scale: int)
    ensures
        engine_button(button) matches Some(b) ==> translate_event(
            v,
            NativeEvent::MouseInput { state: ElementState::Released, button },
            scale,
        ).queue == v.queue + if click_due(
            v.drag_button,
            v.drag_start,
            button,
            v.mouse_pos,
            scale,
        ) {
            seq![
                WindowEvent::Mouse(MouseAction::MouseUp, b, v.mouse_pos),
                WindowEvent::Mouse(MouseAction::Click, b, v.mouse_pos),
            ]
        } else {
            seq![WindowEvent::Mouse(MouseAction::MouseUp, b, v.mouse_pos)]
        },
        engine_button(button) is None ==> translate_event(
            v,
            NativeEvent::MouseInput { state: ElementState::Released, button },
            scale,
        ) == v,
{
    let e = NativeEvent::MouseInput { state: ElementState::Released, button };
    if let Some(b) = engine_button(button) {
        let up = WindowEvent::Mouse(MouseAction::MouseUp, b, v.mouse_pos);
        let click = WindowEvent::Mouse(MouseAction::Click, b, v.mouse_pos);
        if click_due(v.drag_button, v.drag_start, button, v.mouse_pos, scale) {
            assert(translate_event(v, e, scale).queue =~= v.queue + seq![up, click]);
        } else {
            assert(translate_event(v, e, scale).queue =~= v.queue + seq![up]);
        }
    }
}

/// Received characters: a control code below 32 stands for the letter
/// typed with Ctrl (code + 96), which completes a waiting key press; with no
/// key press waiting, an ASCII character is dropped and any other character
/// that is not a control code is sent as a key press of its own.
pub proof fn law_received_character(v: SessionView, c: char, scale: int)
    ensures
        (c as u32) < 32 ==> translated_char(c) == Some(((c as u32 + 96) as u8) as char),
        (c as u32) < 32 ==> (((c as u32 + 96) as u8) as char as u32) == (c as u32) + 96,
        (c as u32) < 32 && v.last_input is Some ==> translate_event(
            v,
            NativeEvent::ReceivedCharacter(c),
            scale,
        ) == (SessionView {
            last_input: None,
            queue: v.queue.push(
                WindowEvent::Keyboard(
                    KeyboardEvent {
                        key: Key::Character(((c as u32 + 96) as u8) as char),
                        ..v.last_input->0
                    },
                ),
            ),
            ..v
        }),
        (c as u32) < 128 && v.last_input is None ==> translate_event(
            v,
            NativeEvent::ReceivedCharacter(c),
            scale,
        ) == v,
        128 <= (c as u32) && !is_control(c) && v.last_input is None ==> translate_event(
            v,
            NativeEvent::ReceivedCharacter(c),
            scale,
        ) == emit(
            v,
            WindowEvent::Keyboard(KeyboardEvent { state: KeyState::Down, key: Key::Character(c) }),
        ),
{
}

impl Session {
    pub fn new() -> (r: Session)
        ensures
            r@ == (SessionView {
                mouse_pos: Point { x: 0, y: 0 },
                drag_start: Point { x: 0, y: 0 },
                drag_button: None,
                last_input: None,
                queue: seq![],
            }),
    {
        Session {
            mouse_pos: Point { x: 0, y: 0 },
            drag_start: Point { x: 0, y: 0 },
            drag_button: None,
            last_input: None,
            event_queue: Vec::new(),
        }
    }

    /// Queues an event for the engine.
    pub fn event(&mut self, event: WindowEvent)
        ensures
            final(self)@ == emit(old(self)@, event),
    {
        self.event_queue.push(event);
    }

    /// Queues a pointer button event for the engine.
    pub fn mouse_event(&mut self, action: MouseAction, button: EngineButton, at: Point)
        ensures
            final(self)@ == emit(old(self)@, WindowEvent::Mouse(action, button, at)),
    {
        self.event(WindowEvent::Mouse(action, button, at));
    }

    /// Translates one native event into the events it owes the engine, at
    /// display scale `scale` (thousandths).
    pub fn handle_glutin_event(&mut self, event: NativeEvent, scale: u16)
        ensures
            final(self)@ == translate_event(old(self)@, event, scale as int),
    {
        match event {
            NativeEvent::Resized => self.event(WindowEvent::Resize),
            NativeEvent::CursorMoved(p) => {
                self.mouse_pos = p;
                self.event(WindowEvent::MouseMove(p));
            },
            NativeEvent::MouseWheel { delta, phase } => {
                let d = scroll_delta(delta, scale);
                let ph = scroll_phase(phase);
                self.event(WindowEvent::Scroll(d, self.mouse_pos, ph));
            },
            NativeEvent::MouseInput { state, button } => {
                self.mouse_input(state, button, scale);
            },
            NativeEvent::KeyboardInput { state, key } => {
                let ev = KeyboardEvent { state: to_key_state(state), key: to_key(key) };
                if ev.state == KeyState::Down && ev.key == Key::Unidentified {
                    self.last_input = Some(ev);
                } else if ev.key != Key::Unidentified {
                    self.last_input = None;
                    self.event(WindowEvent::Keyboard(ev));
                }
            },
            NativeEvent::ReceivedCharacter(c) => {
                self.received_character(c);
            },
            NativeEvent::CloseRequested => self.event(WindowEvent::Quit),
            NativeEvent::Refresh => self.event(WindowEvent::Refresh),
            NativeEvent::Awakened => self.event(WindowEvent::Idle),
            NativeEvent::Unhandled => {},
        }
    }

    fn mouse_input(&mut self, state: ElementState, button: MouseButton, scale: u16)
        ensures
            final(self)@ == on_mouse_input(old(self)@, state, button, scale as int),
    {
        let b = match to_engine_button(button) {
            Some(b) => b,
            None => return ,
        };
        match state {
            ElementState::Pressed => {
                self.drag_start = self.mouse_pos;
                self.drag_button = Some(button);
                self.mouse_event(MouseAction::MouseDown, b, self.mouse_pos);
            },
            ElementState::Released => {
                self.mouse_event(MouseAction::MouseUp, b, self.mouse_pos);
                if is_click(self.drag_button, self.drag_start, button, self.mouse_pos, scale) {
                    self.mouse_event(MouseAction::Click, b, self.mouse_pos);
                }
            },
        }
    }

    fn received_character(&mut self, c: char)
        ensures
            final(self)@ == on_character(old(self)@, c),
    {
        let ch = match translate_char(c) {
            Some(ch) => ch,
            None => return ,
        };
        match self.last_input {
            Some(input) => {
                self.last_input = None;
                self.event(WindowEvent::Keyboard(KeyboardEvent { key: Key::Character(ch), ..input }));
            },
            None => {
                if (ch as u32) >= 128 {
                    self.event(WindowEvent::Keyboard(composed_event(ch)));
                }
            },
        }
    }

    /// Hands out the queued events for one exchange with the engine and
    /// empties the queue.
    pub fn take_events(&mut self) -> (r: Vec<WindowEvent>)
        ensures
            r@ == old(self)@.queue,
            final(self)@ == (SessionView { queue: seq![], ..old(self)@ }),
    {
        let mut out: Vec<WindowEvent> = Vec::new();
        std::mem::swap(&mut out, &mut self.event_queue);
        out
    }

    /// Answers the messages the engine produced; reports whether there were
    /// any.
    pub fn handle_servo_events(&mut self, events: Vec<EngineMessage>) -> (r: bool)
        ensures
            r == (events@.len() > 0),
            final(self)@ == (SessionView {
                queue: old(self)@.queue + answers(events@),
                ..old(self)@
            }),
    {
        let n = events.len();
        let mut i: usize = 0;
        while i < n
            invariant
                n == events@.len(),
                0 <= i <= n,
                self@ == (SessionView {
                    queue: old(self)@.queue + answers(events@.subrange(0, i as int)),
                    ..old(self)@
                }),
            decreases n - i,
        {
            let (browser, msg) = events[i];
            proof {
                let next = events@.subrange(0, i + 1);
                assert(next.drop_last() =~= events@.subrange(0, i as int));
                assert(next.last() == events@[i as int]);
            }
            match msg {
                EmbedderMsg::AllowNavigationRequest(id) => {
                    if browser.is_some() {
                        self.event(WindowEvent::AllowNavigationResponse(id, true));
                    }
                },
                EmbedderMsg::Unhandled => {},
            }
            proof {
                assert(self@.queue =~= old(self)@.queue + answers(events@.subrange(0, i + 1)));
            }
            i = i + 1;
        }
        assert(events@.subrange(0, n as int) =~= events@);
        n > 0
    }

    /// Completes one exchange: answers what the engine produced and reports
    /// whether another exchange is needed, that is whether the engine
    /// produced anything or events wait to be handed over.
    pub fn after_exchange(&mut self, events: Vec<EngineMessage>) -> (more: bool)
        ensures
            final(self)@ == (SessionView {
                queue: old(self)@.queue + answers(events@),
                ..old(self)@
            }),
            more == exchange_continues(old(self)@.queue, events@),
    {
        let had = self.handle_servo_events(events);
        had || self.event_queue.len() > 0
    }
}

} // verus!
