//! Software for a weather station on a Raspberry Pi: a driver for its
//! character display, an HD44780 panel behind an MCP23017 expander, and a
//! reader for the frames that the sensors send.
//!
//! Nothing here performs I/O. The display driver names the bus operations of
//! each of its operations, one at a time, and is told how each went.

pub mod bus;
pub mod character_lcd;
pub mod commands;
pub mod mqtt_message;
pub mod pins;
pub mod render;
pub mod state;
pub mod transport;
