//! The side views of the scene and which of them the user has picked.

pub mod view_selection;
