use vstd::prelude::*;

verus! {

/// A position in device pixels.
#[derive(Clone, Copy, Debug, PartialEq, Eq, Structural)]
pub struct Point {
    pub x: i32,
    pub y: i32,
}

/// A pointer button as the native windowing system reports it.
#[derive(Clone, Copy, Debug, PartialEq, Eq, Structural)]
pub enum MouseButton {
    Left,
    Right,
    Middle,
    Other(u8),
}

/// A pointer button as the engine understands it.
#[derive(Clone, Copy, Debug, PartialEq, Eq, Structural)]
pub enum EngineButton {
    Left,
    Middle,
    Right,
}

/// Whether a native key or button went down or up.
#[derive(Clone, Copy, Debug, PartialEq, Eq, Structural)]
pub enum ElementState {
    Pressed,
    Released,
}

/// Phase of a native touch or wheel gesture.
#[derive(Clone, Copy, Debug, PartialEq, Eq, Structural)]
pub enum TouchPhase {
    Started,
    Moved,
    Ended,
    Cancelled,
}

/// Phase of a scroll as the engine understands it.
#[derive(Clone, Copy, Debug, PartialEq, Eq, Structural)]
pub enum TouchEventType {
    Down,
    Move,
    Up,
    Cancel,
}

/// Wheel movement as delivered natively, in thousandths of a line or of a
/// device pixel.
#[derive(Clone, Copy, Debug, PartialEq, Eq, Structural)]
pub enum ScrollInput {
    LineDelta { dx: i32, dy: i32 },
    PixelDelta { dx: i32, dy: i32 },
}

/// A scroll vector in thousandths of a device pixel.
#[derive(Clone, Copy, Debug, PartialEq, Eq, Structural)]
pub struct ScrollDelta {
    pub dx: i64,
    pub dy: i64,
}

/// The native virtual key codes that the translator tells apart.
#[derive(Clone, Copy, Debug, PartialEq, Eq, Structural)]
pub enum VirtualKeyCode {
    Back,
    Return,
    Other,
}

/// Key identity as the engine understands it.
#[derive(Clone, Copy, Debug, PartialEq, Eq, Structural)]
pub enum Key {
    Unidentified,
    Backspace,
    Enter,
    Character(char),
}

#[derive(Clone, Copy, Debug, PartialEq, Eq, Structural)]
pub enum KeyState {
    Down,
    Up,
}

/// A keyboard event for the engine. Key code, location and modifiers are
/// not translated: the engine receives them unidentified, standard and
/// empty, and never as repeated or composing.
#[derive(Clone, Copy, Debug, PartialEq, Eq, Structural)]
pub struct KeyboardEvent {
    pub state: KeyState,
    pub key: Key,
}

impl Default for KeyboardEvent {
    /// A key going down with no identified key.
    fn default() -> (r: KeyboardEvent)
        ensures
            r == (KeyboardEvent { state: KeyState::Down, key: Key::Unidentified }),
    {
        KeyboardEvent { state: KeyState::Down, key: Key::Unidentified }
    }
}

/// What happened to a pointer button, as the engine understands it.
#[derive(Clone, Copy, Debug, PartialEq, Eq, Structural)]
pub enum MouseAction {
    MouseDown,
    MouseUp,
    Click,
}

/// Identifies a document pipeline of the engine.
#[derive(Clone, Copy, Debug, PartialEq, Eq, Structural)]
pub struct PipelineId {
    pub namespace_id: u32,
    pub index: u32,
}

/// Identifies a top-level browsing context of the engine.
#[derive(Clone, Copy, Debug, PartialEq, Eq, Structural)]
pub struct BrowserId {
    pub namespace_id: u32,
    pub index: u32,
}

/// A native event, reduced to what the translator reads. Positions are
/// already converted to device pixels.
#[derive(Clone, Copy, Debug, PartialEq, Eq, Structural)]
pub enum NativeEvent {
    Resized,
    CursorMoved(Point),
    MouseWheel { delta: ScrollInput, phase: TouchPhase },
    MouseInput { state: ElementState, button: MouseButton },
    KeyboardInput { state: ElementState, key: VirtualKeyCode },
    ReceivedCharacter(char),
    CloseRequested,
    Refresh,
    Awakened,
    Unhandled,
}

/// An event handed to the engine.
#[derive(Clone, Copy, Debug, PartialEq, Eq, Structural)]
pub enum WindowEvent {
    Resize,
    MouseMove(Point),
    Mouse(MouseAction, EngineButton, Point),
    Scroll(ScrollDelta, Point, TouchEventType),
    Keyboard(KeyboardEvent),
    Idle,
    Refresh,
    Quit,
    AllowNavigationResponse(PipelineId, bool),
}

/// A message the engine hands back to the embedder.
#[derive(Clone, Copy, Debug, PartialEq, Eq, Structural)]
pub enum EmbedderMsg {
    /// The engine asks whether a pipeline may navigate.
    AllowNavigationRequest(PipelineId),
    /// Any message the embedder does not answer.
    Unhandled,
}

} // verus!
