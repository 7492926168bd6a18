//! Strings of the virtual machine, and the bytes that the host reads.

use crate::bridge::{Bridge, BridgeState};
use crate::result::GoStringResult;
use crate::step::Step;
use crate::value::LuaValueType;
use vstd::prelude::*;

verus! {

/// A run of bytes that the host may read but does not own: `data` is `None`
/// for the null pointer, and `size` is the number of bytes.
#[derive(Debug, PartialEq, Eq)]
pub struct LuaStringBytes<'a> {
    pub data: Option<&'a [u8]>,
    pub size: usize,
}

impl<'a> LuaStringBytes<'a> {
    /// The size is that of the data.
    pub open spec fn wf(self) -> bool {
        self.size == match self.data {
            Some(bytes) => bytes@.len(),
            None => 0,
        }
    }

    /// The null pointer with the size zero.
    pub fn null() -> (r: Self)
        ensures
            r.wf(),
            r.data is None,
            r.size == 0,
    {
        LuaStringBytes { data: None, size: 0 }
    }

    /// The bytes `bytes` with their size.
    pub fn of(bytes: &'a [u8]) -> (r: Self)
        ensures
            r.wf(),
            r.data == Some(bytes),
            r.size == bytes@.len(),
    {
        LuaStringBytes { data: Some(bytes), size: bytes.len() }
    }
}

/// Whether `bytes` is well-formed UTF-8, as `core::str::from_utf8` decides
/// it: that function returns `Ok` exactly on well-formed UTF-8.
#[verifier::external_body]
pub(crate) fn is_utf8(bytes: &[u8]) -> (valid: bool)
    ensures
        valid == vstd::utf8::valid_utf8(bytes@),
{
    core::str::from_utf8(bytes).is_ok()
}

/// Decides how a string is made from the bytes `s` of the host: without a
/// virtual machine nothing is made, and without bytes the empty string is.
pub fn luago_create_string<'a>(vm: usize, s: Option<&'a [u8]>) -> (step: Step<
    &'a [u8],
    GoStringResult,
>)
    ensures
        match step {
            Step::Done(r) => vm == 0 && r.failed_with("LuaVmWrapper pointer is null"@),
            Step::Call(bytes) => vm != 0 && bytes@ == match s {
                Some(s) => s@,
                None => Seq::<u8>::empty(),
            },
        },
{
    if vm == 0 {
        return Step::Done(GoStringResult::err("LuaVmWrapper pointer is null".to_string()));
    }
    match s {
        Some(s) => Step::Call(s),
        None => Step::Call(&[]),
    }
}

/// Decides how the bytes of the string at `string` are read: a null or
/// stale address gives the null pointer, any other the string to read.
pub fn luago_string_as_bytes<'a, H>(bridge: &'a Bridge<H>, string: usize) -> (step: Step<
    &'a H,
    LuaStringBytes<'static>,
>)
    requires
        bridge.wf(),
    ensures
        match step {
            Step::Done(r) => !bridge@.holds_handle(LuaValueType::String, string) && r.data is None
                && r.size == 0,
            Step::Call(h) => bridge@.holds_handle(LuaValueType::String, string) && *h
                == bridge@.handle_at(string),
        },
{
    match bridge.borrow_handle(LuaValueType::String, string) {
        Some(h) => Step::Call(h),
        None => Step::Done(LuaStringBytes::null()),
    }
}

/// Decides how the bytes of the string at `string` are read together with
/// the NUL byte that ends them: a null or stale address gives the null
/// pointer, any other the string to read.
pub fn luago_string_as_bytes_with_nul<'a, H>(bridge: &'a Bridge<H>, string: usize) -> (step: Step<
    &'a H,
    LuaStringBytes<'static>,
>)
    requires
        bridge.wf(),
    ensures
        match step {
            Step::Done(r) => !bridge@.holds_handle(LuaValueType::String, string) && r.data is None
                && r.size == 0,
            Step::Call(h) => bridge@.holds_handle(LuaValueType::String, string) && *h
                == bridge@.handle_at(string),
        },
{
    match bridge.borrow_handle(LuaValueType::String, string) {
        Some(h) => Step::Call(h),
        None => Step::Done(LuaStringBytes::null()),
    }
}

/// Decides how the identity of the string at `string` is read: a null or
/// stale address gives zero, any other the string to ask.
pub fn luago_string_to_pointer<'a, H>(bridge: &'a Bridge<H>, string: usize) -> (step: Step<
    &'a H,
    usize,
>)
    requires
        bridge.wf(),
    ensures
        match step {
            Step::Done(r) => !bridge@.holds_handle(LuaValueType::String, string) && r == 0,
            Step::Call(h) => bridge@.holds_handle(LuaValueType::String, string) && *h
                == bridge@.handle_at(string),
        },
{
    match bridge.borrow_handle(LuaValueType::String, string) {
        Some(h) => Step::Call(h),
        None => Step::Done(0),
    }
}

impl<H> BridgeState<H> {
    /// The state after the box at `addr` was freed, if it holds a native
    /// handle of kind `kind`.
    pub open spec fn without_handle(self, kind: LuaValueType, addr: usize) -> Self {
        if self.holds_handle(kind, addr) {
            self.without_box(addr)
        } else {
            self
        }
    }
}

/// Frees the box of the string at `string`. A null or stale address is left
/// alone.
pub fn luago_free_string<H>(bridge: &mut Bridge<H>, string: usize)
    requires
        old(bridge).wf(),
    ensures
        final(bridge).wf(),
        final(bridge)@ == old(bridge)@.without_handle(LuaValueType::String, string),
{
    let _ = bridge.unbox_handle(LuaValueType::String, string);
}

} // verus!
