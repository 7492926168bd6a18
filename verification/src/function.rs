//! Functions: those of the host that scripts call, and those of the virtual
//! machine that the host calls.

use crate::bridge::{BoxView, Bridge, BridgeState};
use crate::callback::{IGoCallback, IGoCallbackWrapper};
use crate::multivalue::GoMultiValue;
use crate::result::{GoFunctionResult, GoMultiValueResult};
use crate::step::Step;
use crate::value::{LuaValueType, Native, NativeValue};
use std::collections::VecDeque;
use vstd::prelude::*;

verus! {

/// What a function of the host gets for one call, and where it leaves its
/// answer. `lua` names the virtual machine as seen from this call and
/// `args` the container of the arguments. The host may set `values` to a
/// container of results, or `error` to an error carrier.
#[derive(Clone, Copy, Debug, PartialEq, Eq, Structural)]
pub struct FunctionCallbackData {
    pub lua: usize,
    pub args: usize,
    pub values: usize,
    pub error: usize,
}

impl<H> BridgeState<H> {
    /// The state after a call of a function of the host has ended: the
    /// container of the arguments is freed, then the container of the
    /// results, then the error carrier.
    pub open spec fn call_left(self, data: FunctionCallbackData) -> Self {
        self.without_multivalue(data.args).without_multivalue(data.values).without_error(
            data.error,
        )
    }

    /// Whether a call of a function of the host has ended in an error: the
    /// host left an error carrier.
    pub open spec fn call_failed(self, data: FunctionCallbackData) -> bool {
        self.without_multivalue(data.args).holds_error(data.error)
    }

    /// The message of the error in which the call ended.
    pub open spec fn call_error(self, data: FunctionCallbackData) -> Seq<u8>
        recommends
            self.call_failed(data),
    {
        self.error_bytes(data.error)
    }

    /// The values that the call returns to the script: those that the host
    /// left, or none.
    pub open spec fn call_values(self, data: FunctionCallbackData) -> Seq<Native<H>>
        recommends
            !self.call_failed(data),
    {
        if self.without_multivalue(data.args).holds_multivalue(data.values) {
            self.multivalue_at(data.values)
        } else {
            Seq::empty()
        }
    }
}

impl FunctionCallbackData {
    /// Prepares one call of a function of the host: the arguments `args` of
    /// the script go into a fresh container, and no answer is there yet.
    pub fn enter<H>(lua: usize, args: VecDeque<NativeValue<H>>, bridge: &mut Bridge<H>) -> (data:
        FunctionCallbackData)
        requires
            old(bridge).wf(),
            old(bridge)@.has_box_room(1),
        ensures
            final(bridge).wf(),
            data.lua == lua,
            data.args == old(bridge)@.next_box(),
            data.values == 0,
            data.error == 0,
            final(bridge)@ == old(bridge)@.with_box(
                BoxView::MultiValue(args@.map_values(|v: NativeValue<H>| v@)),
            ),
    {
        let args = GoMultiValue::inst(args, bridge);
        FunctionCallbackData { lua, args, values: 0, error: 0 }
    }

    /// Ends one call of a function of the host and says what the script
    /// gets. The container of the arguments is freed. Where the host left an
    /// error carrier, the call fails with its message, and both the carrier
    /// and any results are freed. Where it left results only, they are
    /// returned, and where it left nothing, no value is.
    pub fn leave<H>(self, bridge: &mut Bridge<H>) -> (outcome: Result<
        VecDeque<NativeValue<H>>,
        Vec<u8>,
    >)
        requires
            old(bridge).wf(),
        ensures
            final(bridge).wf(),
            final(bridge)@ == old(bridge)@.call_left(self),
            match outcome {
                Ok(values) => !old(bridge)@.call_failed(self) && values@.map_values(
                    |v: NativeValue<H>| v@,
                ) == old(bridge)@.call_values(self),
                Err(text) => old(bridge)@.call_failed(self) && text@ == old(bridge)@.call_error(
                    self,
                ),
            },
    {
        let _ = GoMultiValue::into_inner(self.args, bridge);
        let values = GoMultiValue::into_inner(self.values, bridge);
        match bridge.copy_error_message(self.error) {
            Some(text) => {
                bridge.free_error(self.error);
                Err(text)
            },
            None => match values {
                Some(values) => Ok(values),
                None => {
                    let values: VecDeque<NativeValue<H>> = VecDeque::new();
                    assert(values@.map_values(|v: NativeValue<H>| v@) =~= Seq::empty());
                    Ok(values)
                },
            },
        }
    }
}

/// Decides how a function of the host is made callable from scripts:
/// without a virtual machine nothing is made, and `cb` is not wrapped, so
/// that no teardown is owed. Otherwise the wrapper of `cb` goes to the
/// function that the virtual machine makes.
pub fn luago_create_function<F, D>(vm: usize, cb: Option<IGoCallback<F, D>>) -> (step: Step<
    IGoCallbackWrapper<F, D>,
    GoFunctionResult,
>)
    ensures
        match step {
            Step::Done(r) => vm == 0 && r.failed_with("LuaVmWrapper pointer is null"@),
            Step::Call(wrapper) => vm != 0 && !wrapper@.torn_down && wrapper@.handle == match cb {
                Some(cb) => cb.handle,
                None => 0,
            },
        },
{
    if vm == 0 {
        return Step::Done(GoFunctionResult::err("LuaVmWrapper pointer is null".to_string()));
    }
    Step::Call(IGoCallbackWrapper::new(cb))
}

/// Decides how the function at `f` is called with the arguments in the
/// container at `args`. Without a function nothing is done and an error is
/// returned. Otherwise the container is consumed and its values are the
/// arguments of the call; where no container stands at `args`, the call is
/// made without arguments.
pub fn luago_function_call<H>(bridge: &mut Bridge<H>, f: usize, args: usize) -> (step: Step<
    VecDeque<NativeValue<H>>,
    GoMultiValueResult,
>)
    requires
        old(bridge).wf(),
    ensures
        final(bridge).wf(),
        match step {
            Step::Done(r) => !old(bridge)@.holds_handle(LuaValueType::Function, f)
                && r.failed_with("Function pointer is null"@) && final(bridge)@ == old(bridge)@,
            Step::Call(values) => {
                &&& old(bridge)@.holds_handle(LuaValueType::Function, f)
                &&& final(bridge)@ == old(bridge)@.without_multivalue(args)
                &&& values@.map_values(|v: NativeValue<H>| v@) == if old(bridge)@.holds_multivalue(
                    args,
                ) {
                    old(bridge)@.multivalue_at(args)
                } else {
                    Seq::empty()
                }
            },
        },
{
    if bridge.borrow_handle(LuaValueType::Function, f).is_none() {
        return Step::Done(GoMultiValueResult::err("Function pointer is null".to_string()));
    }
    match GoMultiValue::into_inner(args, bridge) {
        Some(values) => Step::Call(values),
        None => {
            let values: VecDeque<NativeValue<H>> = VecDeque::new();
            assert(values@.map_values(|v: NativeValue<H>| v@) =~= Seq::empty());
            Step::Call(values)
        },
    }
}

/// Frees the box of the function at `f`. A null or stale address is left
/// alone.
pub fn luago_free_function<H>(bridge: &mut Bridge<H>, f: usize)
    requires
        old(bridge).wf(),
    ensures
        final(bridge).wf(),
        final(bridge)@ == old(bridge)@.without_handle(LuaValueType::Function, f),
{
    let _ = bridge.unbox_handle(LuaValueType::Function, f);
}

} // verus!
