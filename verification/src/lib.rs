//! A verified interpreter core for the CHIP-16 console: palette, condition
//! flags, cartridge header, machine state, the fetch-decode-execute cycle
//! with its sprite rasterizer, and the fixed-rate pacing arithmetic.

pub mod alu;
pub mod cartridge;
pub mod color;
pub mod flags;
pub mod instruction;
pub mod interp;
pub mod laws;
pub mod machine;
pub mod schedule;
pub mod screen;
pub mod sprite;

pub use crate::cartridge::CH16Header;
pub use crate::cartridge::LoadFault;
pub use crate::color::Color;
pub use crate::flags::Flag;
pub use crate::flags::Flags;
pub use crate::instruction::Fault;
pub use crate::instruction::Instruction;
pub use crate::machine::CHIP16;
pub use crate::schedule::Pacer;
pub use crate::schedule::State;
pub use crate::screen::Framebuffer;
pub use crate::sprite::Sprite;
