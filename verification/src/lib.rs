//! A minimal terminal line-input echo session: keystrokes accumulate in an
//! editable buffer, committed lines become messages in an append-only log,
//! and a renderer produces the full text of each redraw of the display.
//! Terminal I/O itself stays outside this crate; everything here is pure
//! state and text, stated and proved.

pub mod driver;
pub mod render;
pub mod session;
pub mod term;
