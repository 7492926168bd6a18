//! The virtual machine as the bridge sees it.

use crate::result::GoNoneResult;
use crate::step::Step;
use vstd::prelude::*;

verus! {

/// A virtual machine of type `V`, as the host holds it.
pub struct LuaVmWrapper<V> {
    pub lua: V,
}

/// How a new virtual machine is set up.
#[derive(Clone, Copy, Debug, PartialEq, Eq, Structural)]
pub struct VmSetup {
    /// Whether only the libraries that are safe for scripts which are not
    /// trusted are loaded.
    pub safe_libraries_only: bool,
    /// Whether the virtual machine catches a panic in a function of the
    /// host.
    pub catch_rust_panics: bool,
    /// Whether the virtual machine is kept from wrapping errors in
    /// user-data objects.
    pub disable_error_userdata: bool,
}

/// The setup of every virtual machine that the bridge makes: the safe
/// libraries only, panics not caught, errors not wrapped in user-data
/// objects.
pub fn newluavm() -> (setup: VmSetup)
    ensures
        setup.safe_libraries_only,
        !setup.catch_rust_panics,
        setup.disable_error_userdata,
{
    VmSetup { safe_libraries_only: true, catch_rust_panics: false, disable_error_userdata: true }
}

/// Decides how the memory limit of the virtual machine at `vm` is set to
/// `limit` bytes, where zero lifts the limit: without a virtual machine
/// nothing is set and an error is returned.
pub fn luavm_setmemorylimit(vm: usize, limit: usize) -> (step: Step<usize, GoNoneResult>)
    ensures
        match step {
            Step::Done(r) => vm == 0 && r.failed_with("LuaVmWrapper pointer is null"@),
            Step::Call(bytes) => vm != 0 && bytes == limit,
        },
{
    if vm == 0 {
        Step::Done(GoNoneResult::err("LuaVmWrapper pointer is null".to_string()))
    } else {
        Step::Call(limit)
    }
}

} // verus!
