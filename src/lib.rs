//! Live single-line terminal indicators: a determinate or bouncing progress
//! bar and a spinner. The widgets' state, every mutation of it, the animation
//! steps and the rendering of a frame are verified here; the concurrent
//! processes that drive them and write to the terminal live outside.

pub mod color;
pub mod frame;
pub mod text;
pub mod bar;
pub mod throbber;

pub use bar::{BarConfig, BarMode, BarState};
pub use color::Color;
pub use frame::Frame;
pub use throbber::{ThrobberConfig, ThrobberState};
