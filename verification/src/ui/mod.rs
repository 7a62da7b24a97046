pub mod windows;
pub mod screens;
pub mod text;
