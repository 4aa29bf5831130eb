use scrap::events::{
    BrowserId, ElementState, EmbedderMsg, EngineButton, Key, KeyState, KeyboardEvent,
    MouseAction, MouseButton, NativeEvent, PipelineId, Point, ScrollDelta, ScrollInput,
    TouchEventType, TouchPhase, VirtualKeyCode, WindowEvent,
};
use scrap::session::Session;
use scrap::translate::{is_click, scroll_delta, translate_char};

const SCALE_ONE: u16 = 1000;

fn press(button: MouseButton) -> NativeEvent {
    NativeEvent::MouseInput { state: ElementState::Pressed, button }
}

fn release(button: MouseButton) -> NativeEvent {
    NativeEvent::MouseInput { state: ElementState::Released, button }
}

fn moved(x: i32, y: i32) -> NativeEvent {
    NativeEvent::CursorMoved(Point { x, y })
}

fn mouse(action: MouseAction, button: EngineButton, x: i32, y: i32) -> WindowEvent {
    WindowEvent::Mouse(action, button, Point { x, y })
}

fn key_down(key: VirtualKeyCode) -> NativeEvent {
    NativeEvent::KeyboardInput { state: ElementState::Pressed, key }
}

#[test]
fn short_drag_is_a_click() {
    let mut s = Session::new();
    s.handle_glutin_event(moved(10, 10), SCALE_ONE);
    s.take_events();
    s.handle_glutin_event(press(MouseButton::Left), SCALE_ONE);
    s.handle_glutin_event(moved(12, 11), SCALE_ONE);
    s.handle_glutin_event(release(MouseButton::Left), SCALE_ONE);
    assert_eq!(
        s.take_events(),
        vec![
            mouse(MouseAction::MouseDown, EngineButton::Left, 10, 10),
            WindowEvent::MouseMove(Point { x: 12, y: 11 }),
            mouse(MouseAction::MouseUp, EngineButton::Left, 12, 11),
            mouse(MouseAction::Click, EngineButton::Left, 12, 11),
        ]
    );
}

#[test]
fn other_button_release_is_no_click() {
    let mut s = Session::new();
    s.handle_glutin_event(press(MouseButton::Left), SCALE_ONE);
    s.handle_glutin_event(release(MouseButton::Right), SCALE_ONE);
    assert_eq!(
        s.take_events(),
        vec![
            mouse(MouseAction::MouseDown, EngineButton::Left, 0, 0),
            mouse(MouseAction::MouseUp, EngineButton::Right, 0, 0),
        ]
    );
}

#[test]
fn long_drag_is_no_click() {
    let mut s = Session::new();
    s.handle_glutin_event(press(MouseButton::Middle), SCALE_ONE);
    s.handle_glutin_event(moved(8, 0), SCALE_ONE);
    s.handle_glutin_event(release(MouseButton::Middle), SCALE_ONE);
    let q = s.take_events();
    assert_eq!(q.len(), 3);
    assert_eq!(q[2], mouse(MouseAction::MouseUp, EngineButton::Middle, 8, 0));
}

#[test]
fn click_tolerance_grows_with_scale() {
    let start = Point { x: 0, y: 0 };
    let up = Point { x: 8, y: 0 };
    assert!(!is_click(Some(MouseButton::Left), start, MouseButton::Left, up, 1000));
    assert!(is_click(Some(MouseButton::Left), start, MouseButton::Left, up, 1500));
    assert!(!is_click(Some(MouseButton::Left), start, MouseButton::Left, Point { x: 8, y: 1 }, 1015));
    assert!(is_click(Some(MouseButton::Left), start, MouseButton::Left, Point { x: 8, y: 1 }, 1016));
    assert!(!is_click(None, start, MouseButton::Left, start, 1000));
    assert!(is_click(
        Some(MouseButton::Right),
        Point { x: -5, y: 100 },
        MouseButton::Right,
        Point { x: -3, y: 99 },
        1000
    ));
}

#[test]
fn unknown_buttons_are_ignored() {
    let mut s = Session::new();
    s.handle_glutin_event(press(MouseButton::Other(4)), SCALE_ONE);
    s.handle_glutin_event(release(MouseButton::Other(4)), SCALE_ONE);
    assert!(s.take_events().is_empty());
}

#[test]
fn line_scroll_at_double_scale() {
    assert_eq!(
        scroll_delta(ScrollInput::LineDelta { dx: 0, dy: 1000 }, 2000),
        ScrollDelta { dx: 0, dy: 76000 }
    );
    assert_eq!(
        scroll_delta(ScrollInput::LineDelta { dx: -1500, dy: -3 }, 1000),
        ScrollDelta { dx: -57000, dy: -114 }
    );
    assert_eq!(
        scroll_delta(ScrollInput::LineDelta { dx: 1, dy: -1 }, 1000),
        ScrollDelta { dx: 38, dy: -38 }
    );
    assert_eq!(
        scroll_delta(ScrollInput::LineDelta { dx: 1, dy: -1 }, 1),
        ScrollDelta { dx: 0, dy: 0 }
    );
}

#[test]
fn scroll_event_carries_position_and_phase() {
    let mut s = Session::new();
    s.handle_glutin_event(moved(3, 4), SCALE_ONE);
    s.take_events();
    s.handle_glutin_event(
        NativeEvent::MouseWheel {
            delta: ScrollInput::PixelDelta { dx: 250, dy: -7500 },
            phase: TouchPhase::Cancelled,
        },
        2000,
    );
    s.handle_glutin_event(
        NativeEvent::MouseWheel { delta: ScrollInput::LineDelta { dx: 0, dy: 1000 }, phase: TouchPhase::Started },
        2000,
    );
    assert_eq!(
        s.take_events(),
        vec![
            WindowEvent::Scroll(ScrollDelta { dx: 250, dy: -7500 }, Point { x: 3, y: 4 }, TouchEventType::Cancel),
            WindowEvent::Scroll(ScrollDelta { dx: 0, dy: 76000 }, Point { x: 3, y: 4 }, TouchEventType::Down),
        ]
    );
}

#[test]
fn control_codes_become_letters() {
    for code in 0u32..32 {
        let c = char::from_u32(code).unwrap();
        assert_eq!(translate_char(c), Some(char::from_u32(code + 96).unwrap()));
    }
    assert_eq!(translate_char('\u{4}'), Some('d'));
    assert_eq!(translate_char('\u{7f}'), None);
    assert_eq!(translate_char('\u{85}'), None);
    assert_eq!(translate_char('a'), Some('a'));
    assert_eq!(translate_char('é'), Some('é'));
}

#[test]
fn ctrl_letter_completes_waiting_key() {
    let mut s = Session::new();
    s.handle_glutin_event(key_down(VirtualKeyCode::Other), SCALE_ONE);
    assert!(s.take_events().is_empty());
    s.handle_glutin_event(NativeEvent::ReceivedCharacter('\u{3}'), SCALE_ONE);
    assert_eq!(
        s.take_events(),
        vec![WindowEvent::Keyboard(KeyboardEvent { state: KeyState::Down, key: Key::Character('c') })]
    );
    // the waiting press was used up: a second character has nothing to join
    s.handle_glutin_event(NativeEvent::ReceivedCharacter('x'), SCALE_ONE);
    assert!(s.take_events().is_empty());
}

#[test]
fn ascii_without_waiting_key_is_dropped() {
    let mut s = Session::new();
    for c in [' ', 'a', 'Z', '~', '\u{1}'] {
        s.handle_glutin_event(NativeEvent::ReceivedCharacter(c), SCALE_ONE);
    }
    assert!(s.take_events().is_empty());
}

#[test]
fn composed_character_is_sent_alone() {
    let mut s = Session::new();
    s.handle_glutin_event(NativeEvent::ReceivedCharacter('ü'), SCALE_ONE);
    s.handle_glutin_event(NativeEvent::ReceivedCharacter('\u{9f}'), SCALE_ONE);
    assert_eq!(
        s.take_events(),
        vec![WindowEvent::Keyboard(KeyboardEvent { state: KeyState::Down, key: Key::Character('ü') })]
    );
}

#[test]
fn dropped_control_code_keeps_waiting_key() {
    let mut s = Session::new();
    s.handle_glutin_event(key_down(VirtualKeyCode::Other), SCALE_ONE);
    s.handle_glutin_event(NativeEvent::ReceivedCharacter('\u{7f}'), SCALE_ONE);
    s.handle_glutin_event(NativeEvent::ReceivedCharacter('q'), SCALE_ONE);
    assert_eq!(
        s.take_events(),
        vec![WindowEvent::Keyboard(KeyboardEvent { state: KeyState::Down, key: Key::Character('q') })]
    );
}

#[test]
fn named_keys_are_sent_at_once() {
    let mut s = Session::new();
    s.handle_glutin_event(key_down(VirtualKeyCode::Other), SCALE_ONE);
    s.handle_glutin_event(key_down(VirtualKeyCode::Back), SCALE_ONE);
    s.handle_glutin_event(
        NativeEvent::KeyboardInput { state: ElementState::Released, key: VirtualKeyCode::Return },
        SCALE_ONE,
    );
    s.handle_glutin_event(
        NativeEvent::KeyboardInput { state: ElementState::Released, key: VirtualKeyCode::Other },
        SCALE_ONE,
    );
    // the named key dropped the waiting press
    s.handle_glutin_event(NativeEvent::ReceivedCharacter('a'), SCALE_ONE);
    assert_eq!(
        s.take_events(),
        vec![
            WindowEvent::Keyboard(KeyboardEvent { state: KeyState::Down, key: Key::Backspace }),
            WindowEvent::Keyboard(KeyboardEvent { state: KeyState::Up, key: Key::Enter }),
        ]
    );
}

#[test]
fn plain_events_pass_through() {
    let mut s = Session::new();
    for e in [
        NativeEvent::Resized,
        NativeEvent::CloseRequested,
        NativeEvent::Refresh,
        NativeEvent::Awakened,
        NativeEvent::Unhandled,
    ] {
        s.handle_glutin_event(e, SCALE_ONE);
    }
    assert_eq!(
        s.take_events(),
        vec![WindowEvent::Resize, WindowEvent::Quit, WindowEvent::Refresh, WindowEvent::Idle]
    );
}

#[test]
fn navigation_request_settles_in_one_round_trip() {
    let mut s = Session::new();
    s.handle_glutin_event(NativeEvent::Refresh, SCALE_ONE);
    let pipeline = PipelineId { namespace_id: 1, index: 2 };
    let browser = BrowserId { namespace_id: 1, index: 1 };

    let first = s.take_events();
    assert_eq!(first, vec![WindowEvent::Refresh]);
    assert!(s.after_exchange(vec![(Some(browser), EmbedderMsg::AllowNavigationRequest(pipeline))]));

    let second = s.take_events();
    assert_eq!(second, vec![WindowEvent::AllowNavigationResponse(pipeline, true)]);
    assert!(!s.after_exchange(vec![]));
    assert!(s.take_events().is_empty());
}

#[test]
fn requests_without_browser_get_no_answer() {
    let mut s = Session::new();
    let pipeline = PipelineId { namespace_id: 0, index: 9 };
    assert!(s.handle_servo_events(vec![
        (None, EmbedderMsg::AllowNavigationRequest(pipeline)),
        (Some(BrowserId { namespace_id: 0, index: 1 }), EmbedderMsg::Unhandled),
    ]));
    assert!(s.take_events().is_empty());
    assert!(!s.handle_servo_events(vec![]));
}

#[test]
fn queued_events_keep_exchange_going() {
    let mut s = Session::new();
    s.event(WindowEvent::Idle);
    assert!(s.after_exchange(vec![]));
    s.mouse_event(MouseAction::Click, EngineButton::Right, Point { x: 1, y: 2 });
    assert_eq!(
        s.take_events(),
        vec![WindowEvent::Idle, mouse(MouseAction::Click, EngineButton::Right, 1, 2)]
    );
}
