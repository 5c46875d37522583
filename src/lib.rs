//! Client-side window decorations and the configure handshake of a
//! toplevel window, kept free of the display connection: each component is
//! a state machine that takes an event and hands back what the caller must
//! send to the compositor.

pub mod nullable;
pub mod prelude;
pub mod frame;
pub mod cursor;
pub mod buffer;
pub mod window;
