//! How updates of the point cloud come in from other programs.

pub mod ipc_content_logic;
pub mod ipc_receiver;
