pub mod bits;
pub mod interrupts;
pub mod timers;
pub mod sqrt;
pub mod shared;
pub mod bytes;
pub mod gpus;
pub mod spi;
pub mod memory;
pub mod logger;
pub mod arm;
