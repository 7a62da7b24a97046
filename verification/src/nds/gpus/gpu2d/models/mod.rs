pub mod bgxcnt;
pub mod colorfx;
pub mod dispcnt;
