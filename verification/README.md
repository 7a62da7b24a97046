# nitrous

The hardware model of a Nintendo DS emulator, written in Verus and verified.

- `src/nds/bits.rs`, `bytes.rs`: bit fields and little-endian values.
- `src/nds/interrupts.rs`, `timers.rs`, `sqrt.rs`, `spi.rs`, `memory.rs`:
  interrupt registers, the four timers, the square root unit, the SPI bus
  (firmware flash and touchscreen) and word reads.
- `src/nds/shared/`: state shared by both processors, the key registers and
  the IPC registers (IPCSYNC and the two FIFOs).
- `src/nds/gpus/`: display timing, the VRAM banks and how VRAMCNT maps
  them, the 2D engines' registers, text-mode background and sprite
  rendering, how the layers are laid over each other by priority (with
  scrolling, transparency and alpha blending), and VRAM display.
- `src/nds/logger.rs`: log entries, their names, the rules for keeping
  them and pausing on them, and the entries that the SPI bus, the timers
  and the VRAM banks leave to their caller to log.
- `src/nds/arm.rs`: which of the two processors something belongs to.
- `src/ui/`: the state of the debugging windows: breakpoints and stepping,
  memory editing and navigation, frame timing, the register list, the BIOS
  paths of the preferences, the extra screen windows, and the numbers typed
  into text fields.
- `app/`: the global log with timestamps, the channels on which file dialogs
  hand back BIOS paths, and the floating-point colour and frame-rate
  conversions.
