//! Terminal output for command-line programs: leveled messages, structured
//! values and prompts, composed as values that a front end writes out.

pub mod color;
pub mod config;
pub mod global;
pub mod line;
pub mod text;
pub mod xmt;

pub use crate::color::Color;
pub use crate::config::{Config, ConfigView, Level, OutputMode, Style, StyleView, Theme};
pub use crate::line::{Line, LineView, Stream};
pub use crate::xmt::{PickStep, PickStepView, PromptError, Rendering, XMTView, XMT};
pub use crate::global::{init, init_default, nest, nest_scope, pick, restore};
