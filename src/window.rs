use vstd::prelude::*;
use crate::translate::{scale_by, scale_milli};

verus! {

/// Whether the engine needs frames produced continuously.
#[derive(Clone, Copy, Debug, PartialEq, Eq, Structural)]
pub enum AnimationState {
    Idle,
    Animating,
}

#[derive(Clone, Copy, Debug, PartialEq, Eq, Structural)]
pub struct Size {
    pub width: i64,
    pub height: i64,
}

#[derive(Clone, Copy, Debug, PartialEq, Eq, Structural)]
pub struct Position {
    pub x: i64,
    pub y: i64,
}

#[derive(Clone, Copy, Debug, PartialEq, Eq, Structural)]
pub struct Rect {
    pub origin: Position,
    pub size: Size,
}

/// A logical position, in thousandths.
#[derive(Clone, Copy, Debug, PartialEq, Eq, Structural)]
pub struct LogicalPosition {
    pub x: i32,
    pub y: i32,
}

/// What the native window reports of itself. Lengths are logical, in
/// thousandths; `scale` is the display scale factor, in thousandths.
#[derive(Clone, Copy, Debug, PartialEq, Eq, Structural)]
pub struct WindowGeometry {
    pub scale: u16,
    pub outer_width: i32,
    pub outer_height: i32,
    /// The window's position, where the platform reports one.
    pub position: Option<LogicalPosition>,
    pub inner_width: i32,
    pub inner_height: i32,
}

/// The window's coordinates as the engine asks for them, in device pixels.
#[derive(Clone, Copy, Debug, PartialEq, Eq, Structural)]
pub struct EmbedderCoordinates {
    pub viewport: Rect,
    pub framebuffer: Size,
    /// Outer size of the window.
    pub window_size: Size,
    /// Position of the window on the screen.
    pub window_origin: Position,
    pub screen: Size,
    pub screen_avail: Size,
    /// The pixel scale reported to the engine, in thousandths. The lengths
    /// above are scaled already, so this is always one.
    pub hidpi_factor: u32,
}

/// Device pixels for a logical length in thousandths at display scale
/// `scale` (thousandths), rounded toward zero.
pub open spec fn device_len(logical: int, scale: int) -> int {
    let m = scale_milli(logical, scale);
    if m >= 0 {
        m / 1000
    } else {
        -((-m) / 1000)
    }
}

pub open spec fn coordinates(screen_width: u32, screen_height: u32, g: WindowGeometry) -> EmbedderCoordinates {
    let s = g.scale as int;
    let inner = Size {
        width: device_len(g.inner_width as int, s) as i64,
        height: device_len(g.inner_height as int, s) as i64,
    };
    let p = match g.position {
        Some(p) => p,
        None => LogicalPosition { x: 0, y: 0 },
    };
    let screen = Size {
        width: scale_milli(screen_width as int, s) as i64,
        height: scale_milli(screen_height as int, s) as i64,
    };
    EmbedderCoordinates {
        viewport: Rect { origin: Position { x: 0, y: 0 }, size: inner },
        framebuffer: inner,
        window_size: Size {
            width: device_len(g.outer_width as int, s) as i64,
            height: device_len(g.outer_height as int, s) as i64,
        },
        window_origin: Position {
            x: device_len(p.x as int, s) as i64,
            y: device_len(p.y as int, s) as i64,
        },
        screen: screen,
        screen_avail: screen,
        hidpi_factor: 1000,
    }
}

/// The host window as the engine sees it: the screen size in device pixels
/// and the animation state the engine last reported.
#[derive(Clone, Copy, Debug, PartialEq, Eq, Structural)]
pub struct Window {
    pub screen_width: u32,
    pub screen_height: u32,
    pub animation_state: AnimationState,
}

/// Device pixels for a logical length in thousandths, rounded toward zero.
fn to_device(logical: i32, scale: u16) -> (r: i64)
    ensures
        r == device_len(logical as int, scale as int),
{
    let m = scale_by(logical as i64, scale);
    if m >= 0 {
        m / 1000
    } else {
        -((-m) / 1000)
    }
}

impl Window {
    /// A window on a screen of the given size, with the engine idle.
    pub fn new(screen_width: u32, screen_height: u32) -> (r: Window)
        ensures
            r == (Window { screen_width, screen_height, animation_state: AnimationState::Idle }),
    {
        Window { screen_width, screen_height, animation_state: AnimationState::Idle }
    }

    pub fn animating(&self) -> (r: bool)
        ensures
            r == (self.animation_state == AnimationState::Animating),
    {
        self.animation_state == AnimationState::Animating
    }

    /// Records the state the engine reports.
    pub fn set_animation_state(&mut self, state: AnimationState)
        ensures
            *final(self) == (Window { animation_state: state, ..*old(self) }),
    {
        self.animation_state = state;
    }

    /// The window is always ready for the engine to composite.
    pub fn prepare_for_composite(&self) -> (r: bool)
        ensures
            r,
    {
        true
    }

    /// The viewport, framebuffer, outer rectangle and screen in device
    /// pixels. A window that reports no position is taken to be at the
    /// origin.
    pub fn get_coordinates(&self, geometry: WindowGeometry) -> (r: EmbedderCoordinates)
        ensures
            r == coordinates(self.screen_width, self.screen_height, geometry),
    {
        let s = geometry.scale;
        let inner = Size {
            width: to_device(geometry.inner_width, s),
            height: to_device(geometry.inner_height, s),
        };
        let p = match geometry.position {
            Some(p) => p,
            None => LogicalPosition { x: 0, y: 0 },
        };
        let outer = Size {
            width: to_device(geometry.outer_width, s),
            height: to_device(geometry.outer_height, s),
        };
        let origin = Position { x: to_device(p.x, s), y: to_device(p.y, s) };
        let screen = Size {
            width: scale_by(self.screen_width as i64, s),
            height: scale_by(self.screen_height as i64, s),
        };
        EmbedderCoordinates {
            viewport: Rect { origin: Position { x: 0, y: 0 }, size: inner },
            framebuffer: inner,
            window_size: outer,
            window_origin: origin,
            screen: screen,
            screen_avail: screen,
            hidpi_factor: 1000,
        }
    }
}

/// How the scheduling loop waits for native events in one iteration.
#[derive(Clone, Copy, Debug, PartialEq, Eq, Structural)]
pub enum LoopMode {
    /// Sleep until a native event arrives.
    Blocking,
    /// Drain the native events already queued, without waiting.
    Polling,
}

/// Whether a blocking wait goes on after a native event was handled.
#[derive(Clone, Copy, Debug, PartialEq, Eq, Structural)]
pub enum ControlFlow {
    Continue,
    Break,
}

pub open spec fn mode_for(animating: bool) -> LoopMode {
    if animating {
        LoopMode::Polling
    } else {
        LoopMode::Blocking
    }
}

pub open spec fn control_for(animating: bool) -> ControlFlow {
    if animating {
        ControlFlow::Break
    } else {
        ControlFlow::Continue
    }
}

impl LoopMode {
    /// The mode of the next loop iteration: an animating engine is polled,
    /// an idle one is waited for.
    pub fn select(window: &Window) -> (r: LoopMode)
        ensures
            r == mode_for(window.animating_spec()),
    {
        if window.animating() {
            LoopMode::Polling
        } else {
            LoopMode::Blocking
        }
    }
}

impl ControlFlow {
    /// After a native event has been handled and flushed in a blocking wait:
    /// leave the wait as soon as the engine animates.
    pub fn after_event(window: &Window) -> (r: ControlFlow)
        ensures
            r == control_for(window.animating_spec()),
    {
        if window.animating() {
            ControlFlow::Break
        } else {
            ControlFlow::Continue
        }
    }
}

impl Window {
    pub open spec fn animating_spec(&self) -> bool {
        self.animation_state == AnimationState::Animating
    }
}

/// The loop follows the animation state the engine reported last: when it
/// is animating after a native event was handled in a blocking wait, the
/// wait ends and the next iteration polls; when it is idle after a polling
/// pass, the next iteration blocks, and a blocking wait goes on.
pub proof fn law_mode_follows_animation(w: Window, reported: AnimationState)
    ensures
        ({
            let after = Window { animation_state: reported, ..w };
            &&& reported == AnimationState::Animating ==> control_for(after.animating_spec())
                == ControlFlow::Break && mode_for(after.animating_spec()) == LoopMode::Polling
            &&& reported == AnimationState::Idle ==> mode_for(after.animating_spec())
                == LoopMode::Blocking && control_for(after.animating_spec())
                == ControlFlow::Continue
        }),
{
}

} // verus!
