//! Camera and image configuration, and the capture command's argument list.

pub mod camera_operations;
pub mod settings;
