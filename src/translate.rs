use vstd::prelude::*;
use crate::events::{
    EngineButton, Key, KeyState, KeyboardEvent, MouseButton, Point, ScrollDelta, ScrollInput,
    TouchEventType, TouchPhase, VirtualKeyCode, ElementState,
};

verus! {

/// Height of one scrolled line, in device pixels at scale 1.
pub const LINE_HEIGHT: i64 = 38;

/// Largest squared pointer travel, in device pixels at scale 1, for which a
/// press and a release still count as a click.
pub const CLICK_TOLERANCE: u64 = 64;

pub open spec fn sq_dist(a: Point, b: Point) -> int {
    (a.x - b.x) * (a.x - b.x) + (a.y - b.y) * (a.y - b.y)
}

/// A release of `button` at `up` completes a click when it is the button
/// that last went down and the pointer moved less than the tolerance (scaled
/// by `scale`, in thousandths) since then.
pub open spec fn click_due(
    drag_button: Option<MouseButton>,
    drag_start: Point,
    button: MouseButton,
    up: Point,
    scale: int,
) -> bool {
    &&& drag_button == Some(button)
    &&& sq_dist(drag_start, up) * 1000 < CLICK_TOLERANCE * scale
}

/// `v * factor / 1000`, rounded toward zero.
pub open spec fn scale_milli(v: int, factor: int) -> int {
    if v >= 0 {
        v * factor / 1000
    } else {
        -((-v) * factor / 1000)
    }
}

/// Thousandths of a device pixel for `lines` thousandths of a line.
pub open spec fn line_pixels(lines: int, scale: int) -> int {
    scale_milli(lines * LINE_HEIGHT, scale)
}

pub open spec fn scroll_vector(delta: ScrollInput, scale: int) -> ScrollDelta {
    match delta {
        ScrollInput::LineDelta { dx, dy } => ScrollDelta {
            dx: line_pixels(dx as int, scale) as i64,
            dy: line_pixels(dy as int, scale) as i64,
        },
        ScrollInput::PixelDelta { dx, dy } => ScrollDelta { dx: dx as i64, dy: dy as i64 },
    }
}

pub open spec fn engine_phase(phase: TouchPhase) -> TouchEventType {
    match phase {
        TouchPhase::Started => TouchEventType::Down,
        TouchPhase::Moved => TouchEventType::Move,
        TouchPhase::Ended => TouchEventType::Up,
        TouchPhase::Cancelled => TouchEventType::Cancel,
    }
}

pub open spec fn engine_button(button: MouseButton) -> Option<EngineButton> {
    match button {
        MouseButton::Left => Some(EngineButton::Left),
        MouseButton::Middle => Some(EngineButton::Middle),
        MouseButton::Right => Some(EngineButton::Right),
        MouseButton::Other(_) => None,
    }
}

/// Unicode general category Cc.
pub open spec fn is_control(c: char) -> bool {
    (c as u32) < 0x20 || (0x7f <= (c as u32) && (c as u32) <= 0x9f)
}

/// The character that a received character contributes to a key event, or
/// `None` where it is dropped: control codes below 32 become the letter
/// typed with Ctrl (code + 96), other control codes are dropped.
pub open spec fn translated_char(c: char) -> Option<char> {
    if !is_control(c) {
        Some(c)
    } else if (c as u32) < 32 {
        Some(((c as u32 + 96) as u8) as char)
    } else {
        None
    }
}

pub open spec fn engine_key(key: VirtualKeyCode) -> Key {
    match key {
        VirtualKeyCode::Back => Key::Backspace,
        VirtualKeyCode::Return => Key::Enter,
        VirtualKeyCode::Other => Key::Unidentified,
    }
}

pub open spec fn key_state(state: ElementState) -> KeyState {
    match state {
        ElementState::Pressed => KeyState::Down,
        ElementState::Released => KeyState::Up,
    }
}

/// Whether a release at `up` completes a click.
pub fn is_click(
    drag_button: Option<MouseButton>,
    drag_start: Point,
    button: MouseButton,
    up: Point,
    scale: u16,
) -> (r: bool)
    ensures
        r == click_due(drag_button, drag_start, button, up, scale as int),
{
    if drag_button != Some(button) {
        return false;
    }
    let dx: i64 = drag_start.x as i64 - up.x as i64;
    let dy: i64 = drag_start.y as i64 - up.y as i64;
    let ax: u128 = if dx >= 0 { dx as u128 } else { (-dx) as u128 };
    let ay: u128 = if dy >= 0 { dy as u128 } else { (-dy) as u128 };
    assert(ax * ax == dx * dx && ay * ay == dy * dy) by (nonlinear_arith)
        requires
            ax == dx || ax == -dx,
            ay == dy || ay == -dy,
    ;
    assert(ax * ax <= 0x1_0000_0000 * 0x1_0000_0000 && ay * ay <= 0x1_0000_0000
        * 0x1_0000_0000) by (nonlinear_arith)
        requires
            ax <= 0x1_0000_0000,
            ay <= 0x1_0000_0000,
    ;
    let dist: u128 = ax * ax + ay * ay;
    let limit: u128 = 64 * (scale as u128);
    assert(limit == CLICK_TOLERANCE * scale);
    dist * 1000 < limit
}

/// `v * factor / 1000`, rounded toward zero.
pub fn scale_by(v: i64, factor: u16) -> (r: i64)
    requires
        -0x100_0000_0000 <= v <= 0x100_0000_0000,
    ensures
        r == scale_milli(v as int, factor as int),
        -0x100_0000_0000 * 66 <= r <= 0x100_0000_0000 * 66,
{
    let a: u64 = if v >= 0 { v as u64 } else { (-v) as u64 };
    assert(a * factor <= 0x100_0000_0000 * 0xffff) by (nonlinear_arith)
        requires
            a <= 0x100_0000_0000,
            factor <= 0xffff,
    ;
    let q: u64 = a * (factor as u64) / 1000;
    assert(q <= 0x100_0000_0000 * 66) by (nonlinear_arith)
        requires
            q == a * factor / 1000,
            a <= 0x100_0000_0000,
            factor <= 0xffff,
    ;
    if v >= 0 {
        q as i64
    } else {
        -(q as i64)
    }
}

/// The scroll vector for a native wheel movement at display scale `scale`.
pub fn scroll_delta(delta: ScrollInput, scale: u16) -> (r: ScrollDelta)
    ensures
        r == scroll_vector(delta, scale as int),
{
    match delta {
        ScrollInput::LineDelta { dx, dy } => ScrollDelta {
            dx: scale_by(dx as i64 * LINE_HEIGHT, scale),
            dy: scale_by(dy as i64 * LINE_HEIGHT, scale),
        },
        ScrollInput::PixelDelta { dx, dy } => ScrollDelta { dx: dx as i64, dy: dy as i64 },
    }
}

pub fn scroll_phase(phase: TouchPhase) -> (r: TouchEventType)
    ensures
        r == engine_phase(phase),
{
    match phase {
        TouchPhase::Started => TouchEventType::Down,
        TouchPhase::Moved => TouchEventType::Move,
        TouchPhase::Ended => TouchEventType::Up,
        TouchPhase::Cancelled => TouchEventType::Cancel,
    }
}

pub fn to_engine_button(button: MouseButton) -> (r: Option<EngineButton>)
    ensures
        r == engine_button(button),
{
    match button {
        MouseButton::Left => Some(EngineButton::Left),
        MouseButton::Middle => Some(EngineButton::Middle),
        MouseButton::Right => Some(EngineButton::Right),
        MouseButton::Other(_) => None,
    }
}

/// The character a received character contributes to a key event.
pub fn translate_char(c: char) -> (r: Option<char>)
    ensures
        r == translated_char(c),
{
    let code: u32 = c as u32;
    if code < 0x20 {
        Some((code as u8 + 96) as char)
    } else if 0x7f <= code && code <= 0x9f {
        None
    } else {
        Some(c)
    }
}

pub fn to_key(key: VirtualKeyCode) -> (r: Key)
    ensures
        r == engine_key(key),
{
    match key {
        VirtualKeyCode::Back => Key::Backspace,
        VirtualKeyCode::Return => Key::Enter,
        VirtualKeyCode::Other => Key::Unidentified,
    }
}

pub fn to_key_state(state: ElementState) -> (r: KeyState)
    ensures
        r == key_state(state),
{
    match state {
        ElementState::Pressed => KeyState::Down,
        ElementState::Released => KeyState::Up,
    }
}

/// The event emitted for a non-ASCII character that arrives with no key
/// press waiting for it.
pub fn composed_event(ch: char) -> (r: KeyboardEvent)
    ensures
        r == (KeyboardEvent { state: KeyState::Down, key: Key::Character(ch) }),
{
    let mut ev = KeyboardEvent::default();
    ev.key = Key::Character(ch);
    ev
}

} // verus!
