//! Decoding of Dalvik bytecode.

pub mod bits;
pub mod decode;
pub mod definition;
pub mod encode;
pub mod error;
pub mod format;
pub mod opcode;
pub mod raw;
pub mod table;

pub use decode::{Instruction, InstructionView};
pub use error::InstructionError;
pub use format::Format;
pub use opcode::{FormatKind, Opcode};
pub use table::SwitchTable;
