pub mod background;
pub mod obj;
pub mod graphics;
pub mod vram_display;
