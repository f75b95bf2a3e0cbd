//! Driver for HD44780-compatible character displays (LCD1602 and kin).
//!
//! The library is split in layers:
//! * [`utils`]: bit helpers on bytes;
//! * [`command`]: the controller's instruction set and its wire encoding;
//! * [`state`]: the software mirror of the controller's address counter and configuration;
//! * [`config`]: the initial configuration of a display;
//! * [`lcd`] and [`anim`]: the driver itself, which turns every operation into a queue of
//!   bus actions and keeps the mirror in step with the controller;
//! * [`sender`]: how a command becomes pin levels or I2C frames on each transport.

pub mod utils;
pub mod command;
pub mod state;
pub mod config;
pub mod lcd;
pub mod anim;
pub mod sender;
