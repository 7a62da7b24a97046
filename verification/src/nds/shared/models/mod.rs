pub mod extkeyin;
pub mod ipc;
pub mod keyinput;
pub mod powcnt;
