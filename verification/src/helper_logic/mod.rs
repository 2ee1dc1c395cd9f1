//! What the main loop decides from the input of a frame.

pub mod main_loop_functions;
