//! What is drawn, and how its data reaches the device.

pub mod camera;
pub mod cluster_colour;
pub mod draw_functions;
pub mod scene_renderer;
pub mod sunlight;
pub mod text_rendering;
pub mod view_fbo;
