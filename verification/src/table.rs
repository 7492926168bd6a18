//! Tables of the virtual machine.
//!
//! Every operation on a table first looks at the address that the host
//! gave: where no table stands there, nothing is done, and the host gets an
//! error or the answer that a missing table has.

use crate::bridge::{BoxView, Bridge, BridgeState};
use crate::callback::{IGoCallback, IGoCallbackWrapper};
use crate::result::{GoBoolResult, GoI64Result, GoNoneResult, GoTableResult, GoValueResult};
use crate::step::Step;
use crate::value::{invalid_text, GoLuaValue, LuaValueType, NativeValue};
use vstd::prelude::*;
use vstd::slice::slice_to_vec;

verus! {

impl<H> BridgeState<H> {
    /// Whether a table stands at `tab`.
    pub open spec fn holds_table(self, tab: usize) -> bool {
        self.holds_handle(LuaValueType::Table, tab)
    }
}

/// Whether a table stands at `tab`.
fn has_table<H>(bridge: &Bridge<H>, tab: usize) -> (found: bool)
    requires
        bridge.wf(),
    ensures
        found == bridge@.holds_table(tab),
{
    bridge.borrow_handle(LuaValueType::Table, tab).is_some()
}

/// Decides how a table is made: without a virtual machine nothing is made.
pub fn luago_create_table(vm: usize) -> (step: Step<(), GoTableResult>)
    ensures
        match step {
            Step::Done(r) => vm == 0 && r.failed_with("LuaVmWrapper pointer is null"@),
            Step::Call(_) => vm != 0,
        },
{
    if vm == 0 {
        Step::Done(GoTableResult::err("LuaVmWrapper pointer is null".to_string()))
    } else {
        Step::Call(())
    }
}

/// Decides how a table is made with room for `narr` elements of a sequence
/// and `nrec` other entries: without a virtual machine nothing is made.
pub fn luago_create_table_with_capacity(vm: usize, narr: usize, nrec: usize) -> (step: Step<
    (usize, usize),
    GoTableResult,
>)
    ensures
        match step {
            Step::Done(r) => vm == 0 && r.failed_with("LuaVmWrapper pointer is null"@),
            Step::Call(room) => vm != 0 && room == (narr, nrec),
        },
{
    if vm == 0 {
        Step::Done(GoTableResult::err("LuaVmWrapper pointer is null".to_string()))
    } else {
        Step::Call((narr, nrec))
    }
}

/// Decides how the table at `tab` is cleared: every entry is removed, and the
/// table keeps its identity and its metatable.
pub fn luago_table_clear<'a, H>(bridge: &'a Bridge<H>, tab: usize) -> (step: Step<&'a H, GoNoneResult>)
    requires
        bridge.wf(),
    ensures
        match step {
            Step::Done(r) => !bridge@.holds_table(tab) && r.failed_with("Table pointer is null"@),
            Step::Call(table) => bridge@.holds_table(tab) && *table == bridge@.handle_at(tab),
        },
{
    match bridge.borrow_handle(LuaValueType::Table, tab) {
        Some(table) => Step::Call(table),
        None => Step::Done(GoNoneResult::err("Table pointer is null".to_string())),
    }
}

/// Decides how the table at `tab` is asked whether it has the key `value`,
/// which is consumed. Without a table nothing is consumed.
pub fn luago_table_contains_key<H>(bridge: &mut Bridge<H>, tab: usize, value: GoLuaValue) -> (step: Step<
    NativeValue<H>,
    GoBoolResult,
>)
    requires
        old(bridge).wf(),
    ensures
        final(bridge).wf(),
        match step {
            Step::Done(r) => !old(bridge)@.holds_table(tab) && r.failed_with(
                "Table pointer is null"@,
            ) && final(bridge)@ == old(bridge)@,
            Step::Call(native) => old(bridge)@.holds_table(tab) && native@ == old(
                bridge,
            )@.native_of(value) && final(bridge)@ == old(bridge)@.consumed(value),
        },
{
    if !has_table(bridge, tab) {
        return Step::Done(GoBoolResult::err("Table pointer is null".to_string()));
    }
    Step::Call(value.to_value_from_owned(bridge))
}

/// Decides how the tables at `tab` and `tab2` are compared: unless both are
/// there, nothing is done.
pub fn luago_table_equals<'a, H>(bridge: &'a Bridge<H>, tab: usize, tab2: usize) -> (step: Step<
    (&'a H, &'a H),
    GoBoolResult,
>)
    requires
        bridge.wf(),
    ensures
        match step {
            Step::Done(r) => !(bridge@.holds_table(tab) && bridge@.holds_table(tab2))
                && r.failed_with("Table pointer is null"@),
            Step::Call(tables) => bridge@.holds_table(tab) && bridge@.holds_table(tab2)
                && *tables.0 == bridge@.handle_at(tab) && *tables.1 == bridge@.handle_at(tab2),
        },
{
    match bridge.borrow_handle(LuaValueType::Table, tab) {
        Some(first) => match bridge.borrow_handle(LuaValueType::Table, tab2) {
            Some(second) => Step::Call((first, second)),
            None => Step::Done(GoBoolResult::err("Table pointer is null".to_string())),
        },
        None => Step::Done(GoBoolResult::err("Table pointer is null".to_string())),
    }
}

/// What the callback of a walk over a table gets for one entry: the key and
/// the value, which the host then owns, and a flag that the host sets to end
/// the walk.
#[derive(Debug, PartialEq, Eq)]
pub struct TableForEachCallbackData {
    pub key: GoLuaValue,
    pub value: GoLuaValue,
    pub stop: bool,
}

impl TableForEachCallbackData {
    /// Hands one entry to the host: first the key, then the value.
    pub fn new<H>(key: NativeValue<H>, value: NativeValue<H>, bridge: &mut Bridge<H>) -> (data:
        Self)
        requires
            old(bridge).wf(),
            old(bridge)@.has_room(2),
        ensures
            final(bridge).wf(),
            data.key == old(bridge)@.host_value(key@),
            data.value == old(bridge)@.received(key@).host_value(value@),
            !data.stop,
            final(bridge)@ == old(bridge)@.received(key@).received(value@),
    {
        let key = GoLuaValue::from_owned(key, bridge);
        let value = GoLuaValue::from_owned(value, bridge);
        TableForEachCallbackData { key, value, stop: false }
    }

    /// What the walk does after the callback has seen the entry: it goes on,
    /// or it ends with the error `stop` where the host set the flag.
    pub fn verdict(&self) -> (next: Result<(), String>)
        ensures
            match next {
                Ok(_) => !self.stop,
                Err(e) => self.stop && e@ == "stop"@,
            },
    {
        walk_verdict(self.stop)
    }
}

/// What the callback of a walk over the values of a table gets for one
/// entry: the value, which the host then owns, and a flag that the host sets
/// to end the walk.
#[derive(Debug, PartialEq, Eq)]
pub struct TableForEachValueCallbackData {
    pub value: GoLuaValue,
    pub stop: bool,
}

impl TableForEachValueCallbackData {
    /// Hands the value of one entry to the host.
    pub fn new<H>(value: NativeValue<H>, bridge: &mut Bridge<H>) -> (data: Self)
        requires
            old(bridge).wf(),
            old(bridge)@.has_room(1),
        ensures
            final(bridge).wf(),
            data.value == old(bridge)@.host_value(value@),
            !data.stop,
            final(bridge)@ == old(bridge)@.received(value@),
    {
        let value = GoLuaValue::from_owned(value, bridge);
        TableForEachValueCallbackData { value, stop: false }
    }

    /// What the walk does after the callback has seen the entry: it goes on,
    /// or it ends with the error `stop` where the host set the flag.
    pub fn verdict(&self) -> (next: Result<(), String>)
        ensures
            match next {
                Ok(_) => !self.stop,
                Err(e) => self.stop && e@ == "stop"@,
            },
    {
        walk_verdict(self.stop)
    }
}

/// The walk goes on unless `stop` is set; then it ends with the error
/// `stop`.
fn walk_verdict(stop: bool) -> (next: Result<(), String>)
    ensures
        match next {
            Ok(_) => !stop,
            Err(e) => stop && e@ == "stop"@,
        },
{
    if stop {
        Err("stop".to_string())
    } else {
        Ok(())
    }
}

/// Decides how the entries of the table at `tab` are shown to the callback
/// `cb`. Without a table nothing is done and `cb` is not wrapped, so that no
/// teardown is owed. Otherwise the wrapper of `cb` is to be invoked once for
/// each entry and torn down when the walk ends.
pub fn luago_table_foreach<H, F, D>(
    bridge: &Bridge<H>,
    tab: usize,
    cb: Option<IGoCallback<F, D>>,
) -> (step: Step<IGoCallbackWrapper<F, D>, GoNoneResult>)
    requires
        bridge.wf(),
    ensures
        match step {
            Step::Done(r) => !bridge@.holds_table(tab) && r.failed_with("Table pointer is null"@),
            Step::Call(wrapper) => bridge@.holds_table(tab) && !wrapper@.torn_down
                && wrapper@.handle == match cb {
                Some(cb) => cb.handle,
                None => 0,
            },
        },
{
    if !has_table(bridge, tab) {
        return Step::Done(GoNoneResult::err("Table pointer is null".to_string()));
    }
    Step::Call(IGoCallbackWrapper::new(cb))
}

/// Decides how the values of the table at `tab` are shown to the callback
/// `cb`. Without a table nothing is done and `cb` is not wrapped, so that no
/// teardown is owed. Otherwise the wrapper of `cb` is to be invoked once for
/// each entry and torn down when the walk ends.
pub fn luago_table_foreach_value<H, F, D>(
    bridge: &Bridge<H>,
    tab: usize,
    cb: Option<IGoCallback<F, D>>,
) -> (step: Step<IGoCallbackWrapper<F, D>, GoNoneResult>)
    requires
        bridge.wf(),
    ensures
        match step {
            Step::Done(r) => !bridge@.holds_table(tab) && r.failed_with("Table pointer is null"@),
            Step::Call(wrapper) => bridge@.holds_table(tab) && !wrapper@.torn_down
                && wrapper@.handle == match cb {
                Some(cb) => cb.handle,
                None => 0,
            },
        },
{
    if !has_table(bridge, tab) {
        return Step::Done(GoNoneResult::err("Table pointer is null".to_string()));
    }
    Step::Call(IGoCallbackWrapper::new(cb))
}

/// Decides how the value under `key` is read from the table at `tab`, with the
/// metamethods that the table has. The key is consumed; without a table
/// nothing is.
pub fn luago_table_get<H>(bridge: &mut Bridge<H>, tab: usize, key: GoLuaValue) -> (step: Step<
    NativeValue<H>,
    GoValueResult,
>)
    requires
        old(bridge).wf(),
    ensures
        final(bridge).wf(),
        match step {
            Step::Done(r) => !old(bridge)@.holds_table(tab) && r.failed_with(
                "Table pointer is null"@,
            ) && final(bridge)@ == old(bridge)@,
            Step::Call(native) => old(bridge)@.holds_table(tab) && native@ == old(
                bridge,
            )@.native_of(key) && final(bridge)@ == old(bridge)@.consumed(key),
        },
{
    if !has_table(bridge, tab) {
        return Step::Done(GoValueResult::err("Table pointer is null".to_string()));
    }
    Step::Call(key.to_value_from_owned(bridge))
}

/// Decides how the table at `tab` is asked whether it is empty. A missing
/// table counts as empty.
pub fn luago_table_is_empty<'a, H>(bridge: &'a Bridge<H>, tab: usize) -> (step: Step<&'a H, bool>)
    requires
        bridge.wf(),
    ensures
        match step {
            Step::Done(r) => !bridge@.holds_table(tab) && r == true,
            Step::Call(table) => bridge@.holds_table(tab) && *table == bridge@.handle_at(tab),
        },
{
    match bridge.borrow_handle(LuaValueType::Table, tab) {
        Some(table) => Step::Call(table),
        None => Step::Done(true),
    }
}

/// Decides how the table at `tab` is asked whether it is read-only. A missing
/// table counts as read-only.
pub fn luago_table_is_readonly<'a, H>(bridge: &'a Bridge<H>, tab: usize) -> (step: Step<&'a H, bool>)
    requires
        bridge.wf(),
    ensures
        match step {
            Step::Done(r) => !bridge@.holds_table(tab) && r == true,
            Step::Call(table) => bridge@.holds_table(tab) && *table == bridge@.handle_at(tab),
        },
{
    match bridge.borrow_handle(LuaValueType::Table, tab) {
        Some(table) => Step::Call(table),
        None => Step::Done(true),
    }
}

/// Decides how the length of the table at `tab` is read, with the metamethods
/// that the table has.
pub fn luago_table_len<'a, H>(bridge: &'a Bridge<H>, tab: usize) -> (step: Step<&'a H, GoI64Result>)
    requires
        bridge.wf(),
    ensures
        match step {
            Step::Done(r) => !bridge@.holds_table(tab) && r.failed_with("Table pointer is null"@),
            Step::Call(table) => bridge@.holds_table(tab) && *table == bridge@.handle_at(tab),
        },
{
    match bridge.borrow_handle(LuaValueType::Table, tab) {
        Some(table) => Step::Call(table),
        None => Step::Done(GoI64Result::err("Table pointer is null".to_string())),
    }
}

/// Decides how the metatable of the table at `tab` is read. A missing table
/// has none: the null address.
pub fn luago_table_metatable<'a, H>(bridge: &'a Bridge<H>, tab: usize) -> (step: Step<&'a H, usize>)
    requires
        bridge.wf(),
    ensures
        match step {
            Step::Done(r) => !bridge@.holds_table(tab) && r == 0,
            Step::Call(table) => bridge@.holds_table(tab) && *table == bridge@.handle_at(tab),
        },
{
    match bridge.borrow_handle(LuaValueType::Table, tab) {
        Some(table) => Step::Call(table),
        None => Step::Done(0),
    }
}

/// The address under which the host gets the metatable `metatable`: that of
/// a fresh box, or null where the table has no metatable.
pub fn metatable_address<H>(bridge: &mut Bridge<H>, metatable: Option<H>) -> (addr: usize)
    requires
        old(bridge).wf(),
        old(bridge)@.has_box_room(1),
    ensures
        final(bridge).wf(),
        match metatable {
            Some(mt) => addr == old(bridge)@.next_box() && final(bridge)@ == old(bridge)@.with_box(
                BoxView::Handle(LuaValueType::Table, mt),
            ),
            None => addr == 0 && final(bridge)@ == old(bridge)@,
        },
{
    match metatable {
        Some(mt) => bridge.box_handle(LuaValueType::Table, mt),
        None => 0,
    }
}

/// Decides how the last element is taken off the table at `tab`, with the
/// metamethods that the table has.
pub fn luago_table_pop<'a, H>(bridge: &'a Bridge<H>, tab: usize) -> (step: Step<&'a H, GoValueResult>)
    requires
        bridge.wf(),
    ensures
        match step {
            Step::Done(r) => !bridge@.holds_table(tab) && r.failed_with("Table pointer is null"@),
            Step::Call(table) => bridge@.holds_table(tab) && *table == bridge@.handle_at(tab),
        },
{
    match bridge.borrow_handle(LuaValueType::Table, tab) {
        Some(table) => Step::Call(table),
        None => Step::Done(GoValueResult::err("Table pointer is null".to_string())),
    }
}

/// Decides how `value` is put at the end of the table at `tab`, with the
/// metamethods that the table has. The value is consumed; without a table
/// nothing is.
pub fn luago_table_push<H>(bridge: &mut Bridge<H>, tab: usize, value: GoLuaValue) -> (step: Step<
    NativeValue<H>,
    GoNoneResult,
>)
    requires
        old(bridge).wf(),
    ensures
        final(bridge).wf(),
        match step {
            Step::Done(r) => !old(bridge)@.holds_table(tab) && r.failed_with(
                "Table pointer is null"@,
            ) && final(bridge)@ == old(bridge)@,
            Step::Call(native) => old(bridge)@.holds_table(tab) && native@ == old(
                bridge,
            )@.native_of(value) && final(bridge)@ == old(bridge)@.consumed(value),
        },
{
    if !has_table(bridge, tab) {
        return Step::Done(GoNoneResult::err("Table pointer is null".to_string()));
    }
    Step::Call(value.to_value_from_owned(bridge))
}

/// Decides how the value under `key` is read from the table at `tab`, without
/// metamethods. The key is consumed; without a table nothing is.
pub fn luago_table_raw_get<H>(bridge: &mut Bridge<H>, tab: usize, key: GoLuaValue) -> (step: Step<
    NativeValue<H>,
    GoValueResult,
>)
    requires
        old(bridge).wf(),
    ensures
        final(bridge).wf(),
        match step {
            Step::Done(r) => !old(bridge)@.holds_table(tab) && r.failed_with(
                "Table pointer is null"@,
            ) && final(bridge)@ == old(bridge)@,
            Step::Call(native) => old(bridge)@.holds_table(tab) && native@ == old(
                bridge,
            )@.native_of(key) && final(bridge)@ == old(bridge)@.consumed(key),
        },
{
    if !has_table(bridge, tab) {
        return Step::Done(GoValueResult::err("Table pointer is null".to_string()));
    }
    Step::Call(key.to_value_from_owned(bridge))
}

/// Decides how `value` is put at the position `idx` of the table at `tab`,
/// without metamethods. The value is consumed; without a table nothing is.
pub fn luago_table_raw_insert<H>(
    bridge: &mut Bridge<H>,
    tab: usize,
    idx: i64,
    value: GoLuaValue,
) -> (step: Step<(i64, NativeValue<H>), GoNoneResult>)
    requires
        old(bridge).wf(),
    ensures
        final(bridge).wf(),
        match step {
            Step::Done(r) => !old(bridge)@.holds_table(tab) && r.failed_with(
                "Table pointer is null"@,
            ) && final(bridge)@ == old(bridge)@,
            Step::Call(call) => old(bridge)@.holds_table(tab) && call.0 == idx && call.1@ == old(
                bridge,
            )@.native_of(value) && final(bridge)@ == old(bridge)@.consumed(value),
        },
{
    if !has_table(bridge, tab) {
        return Step::Done(GoNoneResult::err("Table pointer is null".to_string()));
    }
    Step::Call((idx, value.to_value_from_owned(bridge)))
}

/// Decides how the length of the table at `tab` is read, without metamethods.
/// A missing table has the length zero.
pub fn luago_table_raw_len<'a, H>(bridge: &'a Bridge<H>, tab: usize) -> (step: Step<&'a H, usize>)
    requires
        bridge.wf(),
    ensures
        match step {
            Step::Done(r) => !bridge@.holds_table(tab) && r == 0,
            Step::Call(table) => bridge@.holds_table(tab) && *table == bridge@.handle_at(tab),
        },
{
    match bridge.borrow_handle(LuaValueType::Table, tab) {
        Some(table) => Step::Call(table),
        None => Step::Done(0),
    }
}

/// Decides how the last element is taken off the table at `tab`, without
/// metamethods.
pub fn luago_table_raw_pop<'a, H>(bridge: &'a Bridge<H>, tab: usize) -> (step: Step<&'a H, GoValueResult>)
    requires
        bridge.wf(),
    ensures
        match step {
            Step::Done(r) => !bridge@.holds_table(tab) && r.failed_with("Table pointer is null"@),
            Step::Call(table) => bridge@.holds_table(tab) && *table == bridge@.handle_at(tab),
        },
{
    match bridge.borrow_handle(LuaValueType::Table, tab) {
        Some(table) => Step::Call(table),
        None => Step::Done(GoValueResult::err("Table pointer is null".to_string())),
    }
}

/// Decides how `value` is put at the end of the table at `tab`, without
/// metamethods. The value is consumed; without a table nothing is.
pub fn luago_table_raw_push<H>(bridge: &mut Bridge<H>, tab: usize, value: GoLuaValue) -> (step: Step<
    NativeValue<H>,
    GoNoneResult,
>)
    requires
        old(bridge).wf(),
    ensures
        final(bridge).wf(),
        match step {
            Step::Done(r) => !old(bridge)@.holds_table(tab) && r.failed_with(
                "Table pointer is null"@,
            ) && final(bridge)@ == old(bridge)@,
            Step::Call(native) => old(bridge)@.holds_table(tab) && native@ == old(
                bridge,
            )@.native_of(value) && final(bridge)@ == old(bridge)@.consumed(value),
        },
{
    if !has_table(bridge, tab) {
        return Step::Done(GoNoneResult::err("Table pointer is null".to_string()));
    }
    Step::Call(value.to_value_from_owned(bridge))
}

/// Decides how the entry under `key` is removed from the table at `tab`,
/// without metamethods. The key is consumed; without a table nothing is.
pub fn luago_table_raw_remove<H>(bridge: &mut Bridge<H>, tab: usize, key: GoLuaValue) -> (step: Step<
    NativeValue<H>,
    GoNoneResult,
>)
    requires
        old(bridge).wf(),
    ensures
        final(bridge).wf(),
        match step {
            Step::Done(r) => !old(bridge)@.holds_table(tab) && r.failed_with(
                "Table pointer is null"@,
            ) && final(bridge)@ == old(bridge)@,
            Step::Call(native) => old(bridge)@.holds_table(tab) && native@ == old(
                bridge,
            )@.native_of(key) && final(bridge)@ == old(bridge)@.consumed(key),
        },
{
    if !has_table(bridge, tab) {
        return Step::Done(GoNoneResult::err("Table pointer is null".to_string()));
    }
    Step::Call(key.to_value_from_owned(bridge))
}

/// Decides how `value` is put under `key` in the table at `tab`, without
/// metamethods. First the key is consumed, then the value; without a table
/// nothing is.
pub fn luago_table_raw_set<H>(
    bridge: &mut Bridge<H>,
    tab: usize,
    key: GoLuaValue,
    value: GoLuaValue,
) -> (step: Step<(NativeValue<H>, NativeValue<H>), GoNoneResult>)
    requires
        old(bridge).wf(),
    ensures
        final(bridge).wf(),
        match step {
            Step::Done(r) => !old(bridge)@.holds_table(tab) && r.failed_with(
                "Table pointer is null"@,
            ) && final(bridge)@ == old(bridge)@,
            Step::Call(natives) => old(bridge)@.holds_table(tab) && natives.0@ == old(
                bridge,
            )@.native_of(key) && natives.1@ == old(bridge)@.consumed(key).native_of(value)
                && final(bridge)@ == old(bridge)@.consumed(key).consumed(value),
        },
{
    if !has_table(bridge, tab) {
        return Step::Done(GoNoneResult::err("Table pointer is null".to_string()));
    }
    let key = key.to_value_from_owned(bridge);
    let value = value.to_value_from_owned(bridge);
    Step::Call((key, value))
}

/// Decides how `value` is put under `key` in the table at `tab`, with the
/// metamethods that the table has. First the key is consumed, then the value;
/// without a table nothing is.
pub fn luago_table_set<H>(
    bridge: &mut Bridge<H>,
    tab: usize,
    key: GoLuaValue,
    value: GoLuaValue,
) -> (step: Step<(NativeValue<H>, NativeValue<H>), GoNoneResult>)
    requires
        old(bridge).wf(),
    ensures
        final(bridge).wf(),
        match step {
            Step::Done(r) => !old(bridge)@.holds_table(tab) && r.failed_with(
                "Table pointer is null"@,
            ) && final(bridge)@ == old(bridge)@,
            Step::Call(natives) => old(bridge)@.holds_table(tab) && natives.0@ == old(
                bridge,
            )@.native_of(key) && natives.1@ == old(bridge)@.consumed(key).native_of(value)
                && final(bridge)@ == old(bridge)@.consumed(key).consumed(value),
        },
{
    if !has_table(bridge, tab) {
        return Step::Done(GoNoneResult::err("Table pointer is null".to_string()));
    }
    let key = key.to_value_from_owned(bridge);
    let value = value.to_value_from_owned(bridge);
    Step::Call((key, value))
}

/// Decides how the table at `tab` gets the table at `metatable` as its
/// metatable: a clone of it, or none where no table stands at `metatable`.
/// Without a table at `tab` nothing is done.
pub fn luago_table_set_metatable<H: Clone>(
    bridge: &Bridge<H>,
    tab: usize,
    metatable: usize,
) -> (step: Step<Option<H>, GoNoneResult>)
    requires
        bridge.wf(),
    ensures
        match step {
            Step::Done(r) => !bridge@.holds_table(tab) && r.failed_with("Table pointer is null"@),
            Step::Call(mt) => bridge@.holds_table(tab) && match mt {
                Some(mt) => bridge@.holds_table(metatable) && cloned(
                    bridge@.handle_at(metatable),
                    mt,
                ),
                None => !bridge@.holds_table(metatable),
            },
        },
{
    if !has_table(bridge, tab) {
        return Step::Done(GoNoneResult::err("Table pointer is null".to_string()));
    }
    match bridge.borrow_handle(LuaValueType::Table, metatable) {
        Some(mt) => Step::Call(Some(mt.clone())),
        None => Step::Call(None),
    }
}

/// Decides how the table at `tab` is made read-only or writable again. Without
/// a table nothing is done.
pub fn luago_table_set_readonly<'a, H>(bridge: &'a Bridge<H>, tab: usize, enabled: bool) -> (step: Step<
    (&'a H, bool),
    (),
>)
    requires
        bridge.wf(),
    ensures
        match step {
            Step::Done(_) => !bridge@.holds_table(tab),
            Step::Call(call) => bridge@.holds_table(tab) && *call.0 == bridge@.handle_at(tab)
                && call.1 == enabled,
        },
{
    match bridge.borrow_handle(LuaValueType::Table, tab) {
        Some(table) => Step::Call((table, enabled)),
        None => Step::Done(()),
    }
}

/// Decides how the table at `tab` is marked as a safe environment or not.
/// Without a table nothing is done.
pub fn luago_table_set_safeenv<'a, H>(bridge: &'a Bridge<H>, tab: usize, enabled: bool) -> (step: Step<
    (&'a H, bool),
    (),
>)
    requires
        bridge.wf(),
    ensures
        match step {
            Step::Done(_) => !bridge@.holds_table(tab),
            Step::Call(call) => bridge@.holds_table(tab) && *call.0 == bridge@.handle_at(tab)
                && call.1 == enabled,
        },
{
    match bridge.borrow_handle(LuaValueType::Table, tab) {
        Some(table) => Step::Call((table, enabled)),
        None => Step::Done(()),
    }
}

/// Decides how the identity of the table at `tab` is read. A missing table has
/// the identity zero.
pub fn luago_table_to_pointer<'a, H>(bridge: &'a Bridge<H>, tab: usize) -> (step: Step<&'a H, usize>)
    requires
        bridge.wf(),
    ensures
        match step {
            Step::Done(r) => !bridge@.holds_table(tab) && r == 0,
            Step::Call(table) => bridge@.holds_table(tab) && *table == bridge@.handle_at(tab),
        },
{
    match bridge.borrow_handle(LuaValueType::Table, tab) {
        Some(table) => Step::Call(table),
        None => Step::Done(0),
    }
}

/// The text of a table as the host reads it: the bytes of `debug`, or a
/// fixed text where they hold a NUL byte.
pub open spec fn debug_bytes(debug: Seq<char>) -> Seq<u8> {
    let bytes = vstd::utf8::encode_utf8(debug);
    if bytes.contains(0u8) {
        invalid_text()
    } else {
        bytes
    }
}

/// Decides how the table at `tab` is shown as text. A missing table has no
/// text.
pub fn luago_table_debug<'a, H>(bridge: &'a Bridge<H>, tab: usize) -> (step: Step<
    &'a H,
    Option<Vec<u8>>,
>)
    requires
        bridge.wf(),
    ensures
        match step {
            Step::Done(r) => !bridge@.holds_table(tab) && r is None,
            Step::Call(table) => bridge@.holds_table(tab) && *table == bridge@.handle_at(tab),
        },
{
    match bridge.borrow_handle(LuaValueType::Table, tab) {
        Some(table) => Step::Call(table),
        None => Step::Done(None),
    }
}

/// The text of a table as the host reads it: the bytes of `debug`, or a
/// fixed text where they hold a NUL byte.
pub fn table_debug_text(debug: String) -> (text: Vec<u8>)
    ensures
        text@ == debug_bytes(debug@),
{
    let bytes = debug.as_str().as_bytes();
    let mut i: usize = 0;
    while i < bytes.len()
        invariant
            0 <= i <= bytes.len(),
            bytes@ == vstd::utf8::encode_utf8(debug@),
            forall|j: int| 0 <= j < i ==> bytes@[j] != 0,
        decreases bytes.len() - i,
    {
        if bytes[i] == 0 {
            assert(bytes@[i as int] == 0u8);
            return slice_to_vec("Invalid error string".as_bytes());
        }
        i = i + 1;
    }
    slice_to_vec(bytes)
}

/// Frees the box of the table at `tab`. A null or stale address is left
/// alone.
pub fn luago_free_table<H>(bridge: &mut Bridge<H>, tab: usize)
    requires
        old(bridge).wf(),
    ensures
        final(bridge).wf(),
        final(bridge)@ == old(bridge)@.without_handle(LuaValueType::Table, tab),
{
    let _ = bridge.unbox_handle(LuaValueType::Table, tab);
}

} // verus!
