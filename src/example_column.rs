//! The column page keeps the button page's messages, style picker and state.
pub use crate::example_button::{ButtonExample, ButtonStyle, Message, Task};
