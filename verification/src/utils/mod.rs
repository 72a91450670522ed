pub mod camera;
pub mod rppal_error;
