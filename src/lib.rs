//! Timing and memory-mapped I/O core of a classic handheld game console:
//! video timing, the address-space dispatcher, the sprite-memory DMA engine
//! and the interrupt arbiter.
//!
//! Every operation of the dispatcher is stated over a model, `io::BusView`:
//! `fetch_byte`, `store_byte` and `step` are proved to compute `read`,
//! `written` and `ticked` of that model. Choices made where the behaviour
//! is open:
//! - A scanline lasts 456 ticks (columns 0 to 455). The line counter passes
//!   through 154 before a new frame starts at line 0, so a frame lasts 155
//!   lines.
//! - Access to sprite-attribute memory in `Prelude` or `Active` mode is
//!   refused softly: `Gpu::get_oam` returns `None` and `Gpu::set_oam`
//!   returns `false`; through the bus such a read gives 0xff and such a
//!   write is dropped. The DMA engine writes sprite-attribute memory in any
//!   mode.
//! - Writing the DMA register copies the first byte at once; each following
//!   tick copies one more.
//! - The display is told of a finished frame by the flag that `step`
//!   returns. The controller hands its buttons in with
//!   `Interconnect::set_buttons`; a write to the input register raises a
//!   request that `Interconnect::take_input_request` reports.
pub mod cartridge;
pub mod gpu;
pub mod input;
pub mod interrupts;
pub mod io;
pub mod laws;
pub mod map;
pub mod ram;
pub mod timer;
