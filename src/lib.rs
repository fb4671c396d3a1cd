//! The state, messages and update rules of a set of small GUI example
//! programs: a greeting, a clock, a pausable clock, a quote fetcher, widget
//! gallery pages and styling demos. Rendering is left to the GUI toolkit; what
//! each program decides lives here.
pub mod timestamp;
pub mod hello_world;
pub mod basic_state_1;
pub mod basic_state_2;
pub mod basic_state_3;
pub mod example_button;
pub mod example_column;
pub mod example_container;
pub mod example_row;
pub mod styling_1;
pub mod styling_2;
pub mod styling_3;
pub mod styling_4;
