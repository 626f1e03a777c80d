//! Measures how many bytes a serialization pass would produce, without
//! producing them: `SizeCounter` stands in for a byte sink and only adds up
//! the length of every write made into it.

pub mod buf;
pub mod counter;
pub mod laws;
pub mod op;

pub use counter::SizeCounter;
pub use op::{Endian, WriteOp};
