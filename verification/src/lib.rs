//! A bridge between a managed host and an embedded Lua-family virtual machine.
//!
//! Everything that crosses the boundary is either a plain word or a box on the
//! bridge heap, named by its address. The bridge decides what each operation
//! does with the boxes; whoever drives the virtual machine makes the calls
//! that an operation asks for and hands the answers back.

pub mod bridge;
pub mod callback;
pub mod chunk;
pub mod compiler;
pub mod function;
pub mod heap;
pub mod laws;
pub mod multivalue;
pub mod result;
pub mod sharing;
pub mod step;
pub mod string;
pub mod table;
pub mod userdata;
pub mod value;
pub mod vm;
