//! Synthetic mouse input, planned as plain values.
//!
//! Each operation answers with the input events that the host's injection
//! facility is to receive; performing the injection is the caller's part.

pub mod adapter;
pub mod button;
pub mod error;
pub mod event;
pub mod held;
pub mod scale;

pub use adapter::{confirm, move_click, move_mouse, press_mouse, release_mouse};
pub use button::Button;
pub use error::MouseError;
pub use event::MouseEvent;
