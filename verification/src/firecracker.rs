pub mod api;
pub mod jailer;
