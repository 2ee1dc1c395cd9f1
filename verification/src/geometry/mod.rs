//! The shapes that are uploaded once, as far as the upload paths need them:
//! how many elements each of their arrays holds.

pub mod geometry_trait;
pub mod grid;
pub mod model;
