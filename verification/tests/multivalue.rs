use luago::bridge::Bridge;
use luago::multivalue::{
    luago_create_multivalue_with_capacity, luago_free_multivalue, luago_multivalue_len,
    luago_multivalue_pop, luago_multivalue_push, GoMultiValue,
};
use luago::value::{GoLuaValue, NativeValue};
use std::collections::VecDeque;

#[test]
fn values_come_out_in_the_order_they_went_in() {
    let mut bridge: Bridge<u64> = Bridge::new();
    let ptr = GoMultiValue::new(&mut bridge);
    assert!(luago_multivalue_push(&mut bridge, ptr, GoLuaValue::Integer(1)));
    assert!(luago_multivalue_push(&mut bridge, ptr, GoLuaValue::Boolean(true)));
    assert_eq!(luago_multivalue_len(&bridge, ptr), 2);
    assert_eq!(luago_multivalue_pop(&mut bridge, ptr), GoLuaValue::Integer(1));
    assert_eq!(luago_multivalue_pop(&mut bridge, ptr), GoLuaValue::Boolean(true));
    assert_eq!(luago_multivalue_pop(&mut bridge, ptr), GoLuaValue::Nil);
    assert_eq!(luago_multivalue_len(&bridge, ptr), 0);
}

#[test]
fn pop_of_an_empty_container_is_nil_every_time() {
    let mut bridge: Bridge<u64> = Bridge::new();
    let ptr = GoMultiValue::new(&mut bridge);
    assert_eq!(luago_multivalue_pop(&mut bridge, ptr), GoLuaValue::Nil);
    assert_eq!(luago_multivalue_pop(&mut bridge, ptr), GoLuaValue::Nil);
    assert_eq!(bridge.boxes_made(), 1);
}

#[test]
fn a_null_container_is_left_alone() {
    let mut bridge: Bridge<u64> = Bridge::new();
    let table = GoLuaValue::from_owned(NativeValue::Table(8), &mut bridge);
    assert!(!luago_multivalue_push(&mut bridge, 0, GoLuaValue::Table(1)));
    assert!(!luago_multivalue_push(&mut bridge, 1, GoLuaValue::Integer(1)));
    assert_eq!(bridge.boxes_freed(), 0);
    assert_eq!(luago_multivalue_len(&bridge, 0), 0);
    assert_eq!(luago_multivalue_len(&bridge, 1), 0);
    assert_eq!(luago_multivalue_pop(&mut bridge, 0), GoLuaValue::Nil);
    assert_eq!(luago_multivalue_pop(&mut bridge, 1), GoLuaValue::Nil);
    luago_free_multivalue(&mut bridge, 0);
    luago_free_multivalue(&mut bridge, 1);
    assert_eq!(bridge.boxes_freed(), 0);
    assert_eq!(table.to_value_from_owned(&mut bridge), NativeValue::Table(8));
}

#[test]
fn push_takes_the_box_and_pop_gives_a_new_one() {
    let mut bridge: Bridge<u64> = Bridge::new();
    let ptr = GoMultiValue::new(&mut bridge);
    let table = GoLuaValue::from_owned(NativeValue::Table(30), &mut bridge);
    assert_eq!(table, GoLuaValue::Table(2));
    assert!(luago_multivalue_push(&mut bridge, ptr, table));
    assert_eq!(bridge.boxes_freed(), 1);
    assert_eq!(GoLuaValue::Table(2).to_value_from_ref(&bridge), NativeValue::Nil);
    let popped = luago_multivalue_pop(&mut bridge, ptr);
    assert_eq!(popped, GoLuaValue::Table(3));
    assert_eq!(popped.to_value_from_owned(&mut bridge), NativeValue::Table(30));
}

#[test]
fn errors_travel_through_a_container() {
    let mut bridge: Bridge<u64> = Bridge::new();
    let ptr = GoMultiValue::new(&mut bridge);
    let e = GoLuaValue::from_owned(NativeValue::Error(b"late".to_vec()), &mut bridge);
    assert!(luago_multivalue_push(&mut bridge, ptr, e));
    assert_eq!(bridge.texts_freed(), 1);
    let popped = luago_multivalue_pop(&mut bridge, ptr);
    assert_eq!(popped, GoLuaValue::Error(3));
    assert_eq!(popped.to_value_from_owned(&mut bridge), NativeValue::Error(b"late".to_vec()));
}

#[test]
fn a_container_made_with_a_capacity_is_empty() {
    let mut bridge: Bridge<u64> = Bridge::new();
    let small = luago_create_multivalue_with_capacity(&mut bridge, 3);
    let none = luago_create_multivalue_with_capacity(&mut bridge, 0);
    let huge = luago_create_multivalue_with_capacity(&mut bridge, usize::MAX);
    assert_eq!((small, none, huge), (1, 2, 3));
    assert_eq!(luago_multivalue_len(&bridge, small), 0);
    assert_eq!(luago_multivalue_len(&bridge, none), 0);
    assert_eq!(luago_multivalue_len(&bridge, huge), 0);
    for i in 0..10 {
        assert!(luago_multivalue_push(&mut bridge, small, GoLuaValue::Integer(i)));
    }
    assert_eq!(luago_multivalue_len(&bridge, small), 10);
    assert_eq!(luago_multivalue_pop(&mut bridge, small), GoLuaValue::Integer(0));
}

#[test]
fn inst_boxes_the_values_it_is_given() {
    let mut bridge: Bridge<u64> = Bridge::new();
    let mut values = VecDeque::new();
    values.push_back(NativeValue::Integer(4));
    values.push_back(NativeValue::String(9));
    let ptr = GoMultiValue::inst(values, &mut bridge);
    assert_eq!(ptr, 1);
    assert_eq!(luago_multivalue_len(&bridge, ptr), 2);
    assert_eq!(luago_multivalue_pop(&mut bridge, ptr), GoLuaValue::Integer(4));
    assert_eq!(luago_multivalue_pop(&mut bridge, ptr), GoLuaValue::String(2));
}

#[test]
fn into_inner_frees_the_container_and_keeps_the_values() {
    let mut bridge: Bridge<u64> = Bridge::new();
    let ptr = GoMultiValue::new(&mut bridge);
    luago_multivalue_push(&mut bridge, ptr, GoLuaValue::Integer(6));
    let values = GoMultiValue::into_inner(ptr, &mut bridge);
    assert_eq!(values, Some(VecDeque::from(vec![NativeValue::Integer(6)])));
    assert_eq!(bridge.boxes_freed(), 1);
    assert_eq!(GoMultiValue::<u64>::into_inner(ptr, &mut bridge), None);
    assert_eq!(GoMultiValue::<u64>::into_inner(0, &mut bridge), None);
    assert_eq!(bridge.boxes_freed(), 1);
}

#[test]
fn free_takes_the_container_with_what_is_in_it() {
    let mut bridge: Bridge<u64> = Bridge::new();
    let ptr = GoMultiValue::new(&mut bridge);
    luago_multivalue_push(&mut bridge, ptr, GoLuaValue::Integer(6));
    luago_free_multivalue(&mut bridge, ptr);
    assert_eq!(bridge.boxes_freed(), 1);
    assert_eq!(luago_multivalue_len(&bridge, ptr), 0);
    luago_free_multivalue(&mut bridge, ptr);
    assert_eq!(bridge.boxes_freed(), 1);
}
