//! Core of a fixed-hardware arcade cabinet emulator: the CPU-facing I/O
//! ports (input register and shift register), the input event mapper, the
//! video raster decoder, and the frame/interrupt scheduler. The CPU
//! interpreter and the presentation surface are external collaborators.

pub mod bytes;
pub mod events;
pub mod machine;
pub mod scheduler;
pub mod video;
