//! Keyboard and mouse intents and their encodings.

pub mod key;
pub mod key_laws;
pub mod key_map;
pub mod mouse;

pub use key_map::KeyCode;
pub use mouse::{MouseAction, ScrollDirection, ScrollMagnitude};
