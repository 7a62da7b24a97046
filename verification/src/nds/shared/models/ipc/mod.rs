pub mod ipcfifo;
pub mod ipcsync;
