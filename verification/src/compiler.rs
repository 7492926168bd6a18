//! The settings of the compiler.

use vstd::prelude::*;

verus! {

/// The levels that the compiler is set to when a chunk is loaded. Each is a
/// small number of the virtual machine's own; the bridge hands them on as
/// they are.
#[derive(Clone, Copy, Debug, PartialEq, Eq, Structural)]
pub struct CompilerOpts {
    pub optimization_level: u8,
    pub debug_level: u8,
    pub type_info_level: u8,
    pub coverage_level: u8,
}

} // verus!
