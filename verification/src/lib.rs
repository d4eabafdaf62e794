//! Rendering core of a terminal-UI toolkit: a box-model layout engine, a
//! cascading style system, an abstract paint-command queue, and a synchronous
//! state store with reducers and subscribers. The library decides *what* to
//! emit; executing the resulting terminal operations is left to a driver.

pub mod errors;
pub mod dimens;
pub mod style;
pub mod stylesheet;
pub mod tw_command;
pub mod tw_box;
pub mod tw_area;
pub mod store;
pub mod input;
pub mod focus;
pub mod sample_app;
