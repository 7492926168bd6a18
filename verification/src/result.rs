//! The envelopes that carry either a result or an error message back to the
//! host.

use crate::bridge::{BoxView, Bridge};
use crate::multivalue::GoMultiValue;
use crate::value::{without_nul, GoLuaValue, LuaValueType, NativeValue};
use std::collections::VecDeque;
use vstd::prelude::*;

verus! {

/// The message that the host reads for the text `s`: its bytes without the
/// NUL bytes.
pub open spec fn message_of(s: Seq<char>) -> Seq<u8> {
    without_nul(vstd::utf8::encode_utf8(s))
}

/// Copies `bytes` without its NUL bytes.
pub fn strip_nul(bytes: &[u8]) -> (out: Vec<u8>)
    ensures
        out@ == without_nul(bytes@),
{
    let mut out: Vec<u8> = Vec::new();
    let mut i: usize = 0;
    proof {
        reveal(Seq::filter);
        assert(bytes@.take(0) =~= Seq::<u8>::empty());
    }
    while i < bytes.len()
        invariant
            0 <= i <= bytes.len(),
            out@ == without_nul(bytes@.take(i as int)),
        decreases bytes.len() - i,
    {
        let b: u8 = bytes[i];
        proof {
            reveal(Seq::filter);
            assert(bytes@.take(i + 1).drop_last() =~= bytes@.take(i as int));
        }
        if b != 0 {
            out.push(b);
        }
        i = i + 1;
    }
    assert(bytes@.take(bytes.len() as int) =~= bytes@);
    out
}

/// The error message for `error`, as the host reads it: its bytes without
/// the NUL bytes.
pub fn to_error(error: String) -> (message: Vec<u8>)
    ensures
        message@ == message_of(error@),
{
    strip_nul(error.as_str().as_bytes())
}

/// The envelope of an operation that returns nothing.
#[derive(Debug, PartialEq, Eq)]
pub struct GoNoneResult {
    pub error: Option<Vec<u8>>,
}

impl GoNoneResult {
    /// Whether the envelope is that of a failure with the message `text`.
    pub open spec fn failed_with(self, text: Seq<char>) -> bool {
        self.error is Some && self.error.unwrap()@ == message_of(text)
    }

    /// The envelope of a success.
    pub fn ok() -> (r: Self)
        ensures
            r.error is None,
    {
        Self { error: None }
    }

    /// The envelope of a failure with the message `error`.
    pub fn err(error: String) -> (r: Self)
        ensures
            r.failed_with(error@),
    {
        Self { error: Some(to_error(error)) }
    }

    /// The envelope for what the virtual machine answered.
    pub fn from_outcome(outcome: Result<(), String>) -> (r: Self)
        ensures
            match outcome {
                Ok(_) => r.error is None,
                Err(e) => r.failed_with(e@),
            },
    {
        match outcome {
            Ok(_) => Self::ok(),
            Err(e) => Self::err(e),
        }
    }
}

/// The envelope of an operation that returns a truth value.
#[derive(Debug, PartialEq, Eq)]
pub struct GoBoolResult {
    pub value: bool,
    pub error: Option<Vec<u8>>,
}

impl GoBoolResult {
    /// Whether the envelope is that of a failure with the message `text`.
    pub open spec fn failed_with(self, text: Seq<char>) -> bool {
        !self.value && self.error is Some && self.error.unwrap()@ == message_of(text)
    }

    /// Exactly one of the two is there: the result, or the message, beside
    /// which the result is false.
    pub open spec fn wf(self) -> bool {
        self.error is Some ==> !self.value
    }

    /// The envelope of a success with the result `v`.
    pub fn ok(v: bool) -> (r: Self)
        ensures
            r.wf(),
            r.value == v,
            r.error is None,
    {
        Self { value: v, error: None }
    }

    /// The envelope of a failure with the message `error`.
    pub fn err(error: String) -> (r: Self)
        ensures
            r.wf(),
            r.failed_with(error@),
    {
        Self { value: false, error: Some(to_error(error)) }
    }

    /// The envelope for what the virtual machine answered.
    pub fn from_outcome(outcome: Result<bool, String>) -> (r: Self)
        ensures
            r.wf(),
            match outcome {
                Ok(v) => r.value == v && r.error is None,
                Err(e) => r.failed_with(e@),
            },
    {
        match outcome {
            Ok(v) => Self::ok(v),
            Err(e) => Self::err(e),
        }
    }
}

/// The envelope of an operation that returns an integer.
#[derive(Debug, PartialEq, Eq)]
pub struct GoI64Result {
    pub value: i64,
    pub error: Option<Vec<u8>>,
}

impl GoI64Result {
    /// Whether the envelope is that of a failure with the message `text`.
    pub open spec fn failed_with(self, text: Seq<char>) -> bool {
        self.value == 0 && self.error is Some && self.error.unwrap()@ == message_of(text)
    }

    /// Exactly one of the two is there: the result, or the message, beside
    /// which the result is 0.
    pub open spec fn wf(self) -> bool {
        self.error is Some ==> self.value == 0
    }

    /// The envelope of a success with the result `v`.
    pub fn ok(v: i64) -> (r: Self)
        ensures
            r.wf(),
            r.value == v,
            r.error is None,
    {
        Self { value: v, error: None }
    }

    /// The envelope of a failure with the message `error`.
    pub fn err(error: String) -> (r: Self)
        ensures
            r.wf(),
            r.failed_with(error@),
    {
        Self { value: 0, error: Some(to_error(error)) }
    }

    /// The envelope for what the virtual machine answered.
    pub fn from_outcome(outcome: Result<i64, String>) -> (r: Self)
        ensures
            r.wf(),
            match outcome {
                Ok(v) => r.value == v && r.error is None,
                Err(e) => r.failed_with(e@),
            },
    {
        match outcome {
            Ok(v) => Self::ok(v),
            Err(e) => Self::err(e),
        }
    }
}

/// The envelope of an operation that returns a word of the host.
#[derive(Debug, PartialEq, Eq)]
pub struct GoUsizePtrResult {
    pub value: usize,
    pub error: Option<Vec<u8>>,
}

impl GoUsizePtrResult {
    /// Whether the envelope is that of a failure with the message `text`.
    pub open spec fn failed_with(self, text: Seq<char>) -> bool {
        self.value == 0 && self.error is Some && self.error.unwrap()@ == message_of(text)
    }

    /// Exactly one of the two is there: the result, or the message, beside
    /// which the result is 0.
    pub open spec fn wf(self) -> bool {
        self.error is Some ==> self.value == 0
    }

    /// The envelope of a success with the result `v`.
    pub fn ok(v: usize) -> (r: Self)
        ensures
            r.wf(),
            r.value == v,
            r.error is None,
    {
        Self { value: v, error: None }
    }

    /// The envelope of a failure with the message `error`.
    pub fn err(error: String) -> (r: Self)
        ensures
            r.wf(),
            r.failed_with(error@),
    {
        Self { value: 0, error: Some(to_error(error)) }
    }

    /// The envelope for what the virtual machine answered.
    pub fn from_outcome(outcome: Result<usize, String>) -> (r: Self)
        ensures
            r.wf(),
            match outcome {
                Ok(v) => r.value == v && r.error is None,
                Err(e) => r.failed_with(e@),
            },
    {
        match outcome {
            Ok(v) => Self::ok(v),
            Err(e) => Self::err(e),
        }
    }
}

/// The envelope of an operation that returns a string.
#[derive(Debug, PartialEq, Eq)]
pub struct GoStringResult {
    pub value: usize,
    pub error: Option<Vec<u8>>,
}

impl GoStringResult {
    /// Whether the envelope is that of a failure with the message `text`.
    pub open spec fn failed_with(self, text: Seq<char>) -> bool {
        self.value == 0 && self.error is Some && self.error.unwrap()@ == message_of(text)
    }

    /// Exactly one of the two is there: the address, or the message, beside
    /// which the address is null.
    pub open spec fn wf(self) -> bool {
        self.error is Some <==> self.value == 0
    }

    /// The envelope of a success with the box of a string at `addr`.
    pub fn ok(addr: usize) -> (r: Self)
        requires
            addr != 0,
        ensures
            r.wf(),
            r.value == addr,
            r.error is None,
    {
        Self { value: addr, error: None }
    }

    /// The envelope of a failure with the message `error`.
    pub fn err(error: String) -> (r: Self)
        ensures
            r.wf(),
            r.failed_with(error@),
    {
        Self { value: 0, error: Some(to_error(error)) }
    }
}

impl GoStringResult {
    /// The envelope for what the virtual machine answered: a native handle
    /// goes into a fresh box for the host to own.
    pub fn from_outcome<H>(outcome: Result<H, String>, bridge: &mut Bridge<H>) -> (r: Self)
        requires
            old(bridge).wf(),
            old(bridge)@.has_box_room(1),
        ensures
            final(bridge).wf(),
            r.wf(),
            match outcome {
                Ok(h) => r.value == old(bridge)@.next_box() && r.error is None && final(bridge)@
                    == old(bridge)@.with_box(BoxView::Handle(LuaValueType::String, h)),
                Err(e) => r.failed_with(e@) && final(bridge)@ == old(bridge)@,
            },
    {
        match outcome {
            Ok(h) => Self::ok(bridge.box_handle(LuaValueType::String, h)),
            Err(e) => Self::err(e),
        }
    }
}

/// The envelope of an operation that returns a table.
#[derive(Debug, PartialEq, Eq)]
pub struct GoTableResult {
    pub value: usize,
    pub error: Option<Vec<u8>>,
}

impl GoTableResult {
    /// Whether the envelope is that of a failure with the message `text`.
    pub open spec fn failed_with(self, text: Seq<char>) -> bool {
        self.value == 0 && self.error is Some && self.error.unwrap()@ == message_of(text)
    }

    /// Exactly one of the two is there: the address, or the message, beside
    /// which the address is null.
    pub open spec fn wf(self) -> bool {
        self.error is Some <==> self.value == 0
    }

    /// The envelope of a success with the box of a table at `addr`.
    pub fn ok(addr: usize) -> (r: Self)
        requires
            addr != 0,
        ensures
            r.wf(),
            r.value == addr,
            r.error is None,
    {
        Self { value: addr, error: None }
    }

    /// The envelope of a failure with the message `error`.
    pub fn err(error: String) -> (r: Self)
        ensures
            r.wf(),
            r.failed_with(error@),
    {
        Self { value: 0, error: Some(to_error(error)) }
    }
}

impl GoTableResult {
    /// The envelope for what the virtual machine answered: a native handle
    /// goes into a fresh box for the host to own.
    pub fn from_outcome<H>(outcome: Result<H, String>, bridge: &mut Bridge<H>) -> (r: Self)
        requires
            old(bridge).wf(),
            old(bridge)@.has_box_room(1),
        ensures
            final(bridge).wf(),
            r.wf(),
            match outcome {
                Ok(h) => r.value == old(bridge)@.next_box() && r.error is None && final(bridge)@
                    == old(bridge)@.with_box(BoxView::Handle(LuaValueType::Table, h)),
                Err(e) => r.failed_with(e@) && final(bridge)@ == old(bridge)@,
            },
    {
        match outcome {
            Ok(h) => Self::ok(bridge.box_handle(LuaValueType::Table, h)),
            Err(e) => Self::err(e),
        }
    }
}

/// The envelope of an operation that returns a function.
#[derive(Debug, PartialEq, Eq)]
pub struct GoFunctionResult {
    pub value: usize,
    pub error: Option<Vec<u8>>,
}

impl GoFunctionResult {
    /// Whether the envelope is that of a failure with the message `text`.
    pub open spec fn failed_with(self, text: Seq<char>) -> bool {
        self.value == 0 && self.error is Some && self.error.unwrap()@ == message_of(text)
    }

    /// Exactly one of the two is there: the address, or the message, beside
    /// which the address is null.
    pub open spec fn wf(self) -> bool {
        self.error is Some <==> self.value == 0
    }

    /// The envelope of a success with the box of a function at `addr`.
    pub fn ok(addr: usize) -> (r: Self)
        requires
            addr != 0,
        ensures
            r.wf(),
            r.value == addr,
            r.error is None,
    {
        Self { value: addr, error: None }
    }

    /// The envelope of a failure with the message `error`.
    pub fn err(error: String) -> (r: Self)
        ensures
            r.wf(),
            r.failed_with(error@),
    {
        Self { value: 0, error: Some(to_error(error)) }
    }
}

impl GoFunctionResult {
    /// The envelope for what the virtual machine answered: a native handle
    /// goes into a fresh box for the host to own.
    pub fn from_outcome<H>(outcome: Result<H, String>, bridge: &mut Bridge<H>) -> (r: Self)
        requires
            old(bridge).wf(),
            old(bridge)@.has_box_room(1),
        ensures
            final(bridge).wf(),
            r.wf(),
            match outcome {
                Ok(h) => r.value == old(bridge)@.next_box() && r.error is None && final(bridge)@
                    == old(bridge)@.with_box(BoxView::Handle(LuaValueType::Function, h)),
                Err(e) => r.failed_with(e@) && final(bridge)@ == old(bridge)@,
            },
    {
        match outcome {
            Ok(h) => Self::ok(bridge.box_handle(LuaValueType::Function, h)),
            Err(e) => Self::err(e),
        }
    }
}

/// The envelope of an operation that returns a user-data object.
#[derive(Debug, PartialEq, Eq)]
pub struct GoAnyUserDataResult {
    pub value: usize,
    pub error: Option<Vec<u8>>,
}

impl GoAnyUserDataResult {
    /// Whether the envelope is that of a failure with the message `text`.
    pub open spec fn failed_with(self, text: Seq<char>) -> bool {
        self.value == 0 && self.error is Some && self.error.unwrap()@ == message_of(text)
    }

    /// Exactly one of the two is there: the address, or the message, beside
    /// which the address is null.
    pub open spec fn wf(self) -> bool {
        self.error is Some <==> self.value == 0
    }

    /// The envelope of a success with the box of a user-data object at `addr`.
    pub fn ok(addr: usize) -> (r: Self)
        requires
            addr != 0,
        ensures
            r.wf(),
            r.value == addr,
            r.error is None,
    {
        Self { value: addr, error: None }
    }

    /// The envelope of a failure with the message `error`.
    pub fn err(error: String) -> (r: Self)
        ensures
            r.wf(),
            r.failed_with(error@),
    {
        Self { value: 0, error: Some(to_error(error)) }
    }
}

impl GoAnyUserDataResult {
    /// The envelope for what the virtual machine answered: a native handle
    /// goes into a fresh box for the host to own.
    pub fn from_outcome<H>(outcome: Result<H, String>, bridge: &mut Bridge<H>) -> (r: Self)
        requires
            old(bridge).wf(),
            old(bridge)@.has_box_room(1),
        ensures
            final(bridge).wf(),
            r.wf(),
            match outcome {
                Ok(h) => r.value == old(bridge)@.next_box() && r.error is None && final(bridge)@
                    == old(bridge)@.with_box(BoxView::Handle(LuaValueType::UserData, h)),
                Err(e) => r.failed_with(e@) && final(bridge)@ == old(bridge)@,
            },
    {
        match outcome {
            Ok(h) => Self::ok(bridge.box_handle(LuaValueType::UserData, h)),
            Err(e) => Self::err(e),
        }
    }
}

/// The envelope of an operation that returns several values.
#[derive(Debug, PartialEq, Eq)]
pub struct GoMultiValueResult {
    pub value: usize,
    pub error: Option<Vec<u8>>,
}

impl GoMultiValueResult {
    /// Whether the envelope is that of a failure with the message `text`.
    pub open spec fn failed_with(self, text: Seq<char>) -> bool {
        self.value == 0 && self.error is Some && self.error.unwrap()@ == message_of(text)
    }

    /// Exactly one of the two is there: the address, or the message, beside
    /// which the address is null.
    pub open spec fn wf(self) -> bool {
        self.error is Some <==> self.value == 0
    }

    /// The envelope of a success with the container of values at `addr`.
    pub fn ok(addr: usize) -> (r: Self)
        requires
            addr != 0,
        ensures
            r.wf(),
            r.value == addr,
            r.error is None,
    {
        Self { value: addr, error: None }
    }

    /// The envelope of a failure with the message `error`.
    pub fn err(error: String) -> (r: Self)
        ensures
            r.wf(),
            r.failed_with(error@),
    {
        Self { value: 0, error: Some(to_error(error)) }
    }
}

impl GoMultiValueResult {
    /// The envelope for what the virtual machine answered: the values go
    /// into a fresh container for the host to own.
    pub fn from_outcome<H>(
        outcome: Result<VecDeque<NativeValue<H>>, String>,
        bridge: &mut Bridge<H>,
    ) -> (r: Self)
        requires
            old(bridge).wf(),
            old(bridge)@.has_box_room(1),
        ensures
            final(bridge).wf(),
            r.wf(),
            match outcome {
                Ok(values) => r.value == old(bridge)@.next_box() && r.error is None && final(bridge)@
                    == old(bridge)@.with_box(
                    BoxView::MultiValue(values@.map_values(|v: NativeValue<H>| v@)),
                ),
                Err(e) => r.failed_with(e@) && final(bridge)@ == old(bridge)@,
            },
    {
        match outcome {
            Ok(values) => Self::ok(GoMultiValue::inst(values, bridge)),
            Err(e) => Self::err(e),
        }
    }
}

/// The envelope of an operation that returns one value.
#[derive(Debug, PartialEq, Eq)]
pub struct GoValueResult {
    pub value: GoLuaValue,
    pub error: Option<Vec<u8>>,
}

impl GoValueResult {
    /// Whether the envelope is that of a failure with the message `text`.
    pub open spec fn failed_with(self, text: Seq<char>) -> bool {
        self.value == GoLuaValue::Nil && self.error is Some && self.error.unwrap()@ == message_of(text)
    }

    /// Exactly one of the two is there: the value, or the message, beside
    /// which the value is nil.
    pub open spec fn wf(self) -> bool {
        self.error is Some ==> self.value == GoLuaValue::Nil
    }

    /// The envelope of a success with the result `v`.
    pub fn ok(v: GoLuaValue) -> (r: Self)
        ensures
            r.wf(),
            r.value == v,
            r.error is None,
    {
        Self { value: v, error: None }
    }

    /// The envelope of a failure with the message `error`.
    pub fn err(error: String) -> (r: Self)
        ensures
            r.wf(),
            r.failed_with(error@),
    {
        Self { value: GoLuaValue::Nil, error: Some(to_error(error)) }
    }

    /// The envelope for what the virtual machine answered: a value is handed
    /// to the host as [`GoLuaValue::from_owned`] does.
    pub fn from_outcome<H>(outcome: Result<NativeValue<H>, String>, bridge: &mut Bridge<H>) -> (r:
        Self)
        requires
            old(bridge).wf(),
            old(bridge)@.has_room(1),
        ensures
            final(bridge).wf(),
            r.wf(),
            match outcome {
                Ok(v) => r.value == old(bridge)@.host_value(v@) && r.error is None && final(bridge)@
                    == old(bridge)@.received(v@),
                Err(e) => r.failed_with(e@) && final(bridge)@ == old(bridge)@,
            },
    {
        match outcome {
            Ok(v) => Self::ok(GoLuaValue::from_owned(v, bridge)),
            Err(e) => Self::err(e),
        }
    }
}

} // verus!
