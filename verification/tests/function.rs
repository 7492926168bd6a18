use luago::bridge::Bridge;
use luago::callback::{CallbackAction, IGoCallback};
use luago::function::{
    luago_create_function, luago_free_function, luago_function_call, FunctionCallbackData,
};
use luago::multivalue::{luago_multivalue_len, luago_multivalue_pop, luago_multivalue_push, GoMultiValue};
use luago::result::GoFunctionResult;
use luago::step::Step;
use luago::value::{luago_error_new, GoLuaValue, NativeValue};
use std::collections::VecDeque;

#[test]
fn a_function_needs_a_machine() {
    let cb = Some(IGoCallback { callback: 1u8, drop: 2u8, handle: 5 });
    match luago_create_function(0, cb) {
        Step::Done(r) => {
            assert_eq!(r.value, 0);
            assert_eq!(r.error, Some(b"LuaVmWrapper pointer is null".to_vec()));
        }
        Step::Call(_) => panic!("made without a machine"),
    }
}

#[test]
fn a_function_wraps_its_callback() {
    let cb = Some(IGoCallback { callback: 1u8, drop: 2u8, handle: 5 });
    match luago_create_function(1, cb) {
        Step::Done(r) => panic!("refused: {:?}", r),
        Step::Call(mut wrapper) => {
            assert_eq!(wrapper.callback(3), Some(CallbackAction::Invoke { val: 3, handle: 5 }));
            assert_eq!(wrapper.teardown(), Some(CallbackAction::Teardown { handle: 5 }));
        }
    }
    let mut bridge: Bridge<u64> = Bridge::new();
    let r = GoFunctionResult::from_outcome(Ok(9), &mut bridge);
    assert_eq!((r.value, r.error), (1, None));
}

#[test]
fn a_call_gets_its_arguments_in_a_container() {
    let mut bridge: Bridge<u64> = Bridge::new();
    let args = VecDeque::from(vec![NativeValue::Integer(1), NativeValue::Table(2)]);
    let data = FunctionCallbackData::enter(64, args, &mut bridge);
    assert_eq!(data, FunctionCallbackData { lua: 64, args: 1, values: 0, error: 0 });
    assert_eq!(luago_multivalue_len(&bridge, data.args), 2);
    assert_eq!(luago_multivalue_pop(&mut bridge, data.args), GoLuaValue::Integer(1));
    assert_eq!(luago_multivalue_pop(&mut bridge, data.args), GoLuaValue::Table(2));
}

#[test]
fn a_call_that_leaves_nothing_returns_no_value() {
    let mut bridge: Bridge<u64> = Bridge::new();
    let data = FunctionCallbackData::enter(64, VecDeque::new(), &mut bridge);
    assert_eq!(data.leave(&mut bridge), Ok(VecDeque::new()));
    assert_eq!(bridge.boxes_made(), 1);
    assert_eq!(bridge.boxes_freed(), 1);
}

#[test]
fn a_call_that_leaves_values_returns_them() {
    let mut bridge: Bridge<u64> = Bridge::new();
    let mut data = FunctionCallbackData::enter(64, VecDeque::new(), &mut bridge);
    data.values = GoMultiValue::new(&mut bridge);
    luago_multivalue_push(&mut bridge, data.values, GoLuaValue::Integer(10));
    luago_multivalue_push(&mut bridge, data.values, GoLuaValue::Boolean(false));
    assert_eq!(
        data.leave(&mut bridge),
        Ok(VecDeque::from(vec![NativeValue::Integer(10), NativeValue::Boolean(false)]))
    );
    assert_eq!(bridge.boxes_freed(), 2);
}

#[test]
fn a_call_that_leaves_an_error_fails_with_its_message() {
    let mut bridge: Bridge<u64> = Bridge::new();
    let mut data = FunctionCallbackData::enter(64, VecDeque::new(), &mut bridge);
    data.values = GoMultiValue::new(&mut bridge);
    luago_multivalue_push(&mut bridge, data.values, GoLuaValue::Integer(10));
    data.error = luago_error_new(&mut bridge, Some(b"host said no"));
    assert_eq!(data.leave(&mut bridge), Err(b"host said no".to_vec()));
    assert_eq!(bridge.boxes_made(), 3);
    assert_eq!(bridge.boxes_freed(), 3);
    assert_eq!(bridge.texts_freed(), 1);
}

#[test]
fn a_call_of_no_function_keeps_the_arguments() {
    let mut bridge: Bridge<u64> = Bridge::new();
    let args = GoMultiValue::new(&mut bridge);
    match luago_function_call(&mut bridge, 0, args) {
        Step::Done(r) => {
            assert_eq!(r.value, 0);
            assert_eq!(r.error, Some(b"Function pointer is null".to_vec()));
        }
        Step::Call(values) => panic!("called: {:?}", values),
    }
    assert_eq!(bridge.boxes_freed(), 0);
    assert_eq!(luago_multivalue_len(&bridge, args), 0);
}

#[test]
fn a_call_takes_the_arguments() {
    let mut bridge: Bridge<u64> = Bridge::new();
    let f = GoLuaValue::from_owned(NativeValue::Function(90), &mut bridge);
    let args = GoMultiValue::new(&mut bridge);
    luago_multivalue_push(&mut bridge, args, GoLuaValue::Integer(4));
    match luago_function_call(&mut bridge, f.address(), args) {
        Step::Done(r) => panic!("refused: {:?}", r),
        Step::Call(values) => assert_eq!(values, VecDeque::from(vec![NativeValue::Integer(4)])),
    }
    assert_eq!(bridge.boxes_freed(), 1);
    match luago_function_call(&mut bridge, f.address(), 0) {
        Step::Done(r) => panic!("refused: {:?}", r),
        Step::Call(values) => assert_eq!(values, VecDeque::new()),
    }
    assert_eq!(f.to_value_from_ref(&bridge), NativeValue::Function(90));
}

#[test]
fn free_function_frees_a_function_only() {
    let mut bridge: Bridge<u64> = Bridge::new();
    let f = GoLuaValue::from_owned(NativeValue::Function(90), &mut bridge);
    let t = GoLuaValue::from_owned(NativeValue::Table(91), &mut bridge);
    luago_free_function(&mut bridge, t.address());
    luago_free_function(&mut bridge, 0);
    assert_eq!(bridge.boxes_freed(), 0);
    luago_free_function(&mut bridge, f.address());
    luago_free_function(&mut bridge, f.address());
    assert_eq!(bridge.boxes_freed(), 1);
    assert_eq!(t.to_value_from_owned(&mut bridge), NativeValue::Table(91));
}
