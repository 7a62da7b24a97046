pub mod debug;
pub mod fps_info;
pub mod file;
