//! User-data objects: values of the host that scripts hold.

use crate::bridge::Bridge;
use crate::callback::CallbackAction;
use crate::result::{GoAnyUserDataResult, GoUsizePtrResult};
use crate::step::Step;
use crate::value::LuaValueType;
use vstd::prelude::*;

verus! {

/// What stands behind a user-data object: the handle of the host's value,
/// and the function that tells the host when the object is gone. A handle
/// of zero says that there is no value and that nothing is to be told.
pub struct DynamicData<D> {
    pub handle: usize,
    pub drop: D,
}

impl<D> DynamicData<D> {
    /// The call that is owed to the host when the object is gone.
    pub open spec fn spec_release(self) -> Option<CallbackAction> {
        if self.handle != 0 {
            Some(CallbackAction::Teardown { handle: self.handle })
        } else {
            None
        }
    }

    /// The call that is owed to the host when the object is gone: the
    /// teardown of the handle, unless the handle is zero.
    pub fn release(&self) -> (action: Option<CallbackAction>)
        ensures
            action == self.spec_release(),
    {
        if self.handle != 0 {
            Some(CallbackAction::Teardown { handle: self.handle })
        } else {
            None
        }
    }
}

/// Decides how a user-data object is made for `data` with the metatable at
/// `mt`. Without a virtual machine or without a metatable nothing is made:
/// the error is returned together with `data`, which is then gone, so that
/// its teardown is owed. Otherwise `data` goes to the virtual machine.
pub fn luago_create_userdata<H, D>(
    bridge: &Bridge<H>,
    vm: usize,
    data: DynamicData<D>,
    mt: usize,
) -> (step: Step<DynamicData<D>, (GoAnyUserDataResult, DynamicData<D>)>)
    requires
        bridge.wf(),
    ensures
        match step {
            Step::Done((r, gone)) => gone == data && if vm == 0 {
                r.failed_with("LuaVmWrapper pointer is null"@)
            } else {
                !bridge@.holds_handle(LuaValueType::Table, mt) && r.failed_with(
                    "Metatable pointer is null"@,
                )
            },
            Step::Call(kept) => vm != 0 && bridge@.holds_handle(LuaValueType::Table, mt) && kept
                == data,
        },
{
    if vm == 0 {
        return Step::Done(
            (GoAnyUserDataResult::err("LuaVmWrapper pointer is null".to_string()), data),
        );
    }
    if bridge.borrow_handle(LuaValueType::Table, mt).is_none() {
        return Step::Done(
            (GoAnyUserDataResult::err("Metatable pointer is null".to_string()), data),
        );
    }
    Step::Call(data)
}

/// Decides how the handle behind the user-data object at `ud` is read: a
/// null or stale address gives an error, any other the object to ask.
pub fn luago_get_userdata_handle<'a, H>(bridge: &'a Bridge<H>, ud: usize) -> (step: Step<
    &'a H,
    GoUsizePtrResult,
>)
    requires
        bridge.wf(),
    ensures
        match step {
            Step::Done(r) => !bridge@.holds_handle(LuaValueType::UserData, ud) && r.failed_with(
                "LuaUserData pointer is null"@,
            ),
            Step::Call(h) => bridge@.holds_handle(LuaValueType::UserData, ud) && *h
                == bridge@.handle_at(ud),
        },
{
    match bridge.borrow_handle(LuaValueType::UserData, ud) {
        Some(h) => Step::Call(h),
        None => Step::Done(GoUsizePtrResult::err("LuaUserData pointer is null".to_string())),
    }
}

/// Frees the box of the user-data object at `ud`. A null or stale address
/// is left alone.
pub fn luago_free_userdata<H>(bridge: &mut Bridge<H>, ud: usize)
    requires
        old(bridge).wf(),
    ensures
        final(bridge).wf(),
        final(bridge)@ == old(bridge)@.without_handle(LuaValueType::UserData, ud),
{
    let _ = bridge.unbox_handle(LuaValueType::UserData, ud);
}

} // verus!
