//! Logic of a small color-cycling window demo.
//!
//! The demo keeps a three-channel background color and an index naming the
//! channel currently being edited. Key events raise or lower the active
//! channel in fixed steps (clamped at the byte bounds), switch the active
//! channel, reset the color to black, or quit. A small swatch in the corner
//! of the window shows which channel is active. The window and keyboard
//! themselves live outside this crate; it holds the state, the transition
//! rules, and the swatch geometry.

pub mod draw;
pub mod state;
