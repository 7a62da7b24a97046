pub mod nds;
pub mod ui;
