//! Verified core of an interactive single-select picker for character terminals:
//! the sliding-window arithmetic, the text of each frame, and the session state
//! machine that decides what the terminal driver does next.

pub mod viewport;
pub mod render;
pub mod session;
