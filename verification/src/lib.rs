//! Verified core of a point-cloud viewer: the command recorder behind its
//! fence-synchronised GPU ring buffers, the instance upload path built on
//! it, and the bookkeeping around them.
//!
//! Nothing here touches a graphics device. Every operation updates a plain
//! model of the device state and hands back the commands that a driver has
//! to carry out, in order, on the real device.

pub mod args_parser;
pub mod geometry;
pub mod gl_wrappers;
pub mod helper_logic;
pub mod ipc_logic;
pub mod rendering;
pub mod view_logic;
pub mod window;
