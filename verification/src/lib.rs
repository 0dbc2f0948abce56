//! Decision logic of the czkawka GUI: the layout of the result views, what
//! key presses and clicks do, and the image preview of a selected file.

pub mod keys;
pub mod layout;
pub mod names;
pub mod preview;
pub mod preview_laws;
