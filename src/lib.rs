//! Event bridge between a native windowing system and an embedded rendering
//! engine: input translation, the per-tick quiescence exchange, the
//! blocking/polling scheduling decision, and the window geometry the engine
//! asks for.
//!
//! Units: pointer positions are whole device pixels; scroll amounts are in
//! thousandths of a line or of a device pixel; display scale factors and
//! logical window lengths are in thousandths.

pub mod events;
pub mod translate;
pub mod session;
pub mod window;
pub mod resources;
