use luago::bridge::Bridge;
use luago::callback::{CallbackAction, IGoCallback};
use luago::result::{GoI64Result, GoNoneResult, GoTableResult, GoValueResult};
use luago::step::Step;
use luago::table::{
    luago_create_table, luago_create_table_with_capacity, luago_free_table, luago_table_clear,
    luago_table_contains_key, luago_table_debug, luago_table_equals, luago_table_foreach,
    luago_table_foreach_value, luago_table_get, luago_table_is_empty, luago_table_is_readonly,
    luago_table_len, luago_table_metatable, luago_table_pop, luago_table_push,
    luago_table_raw_get, luago_table_raw_insert, luago_table_raw_len, luago_table_raw_pop,
    luago_table_raw_push, luago_table_raw_remove, luago_table_raw_set, luago_table_set,
    luago_table_set_metatable, luago_table_set_readonly, luago_table_set_safeenv,
    luago_table_to_pointer, metatable_address, table_debug_text, TableForEachCallbackData,
    TableForEachValueCallbackData,
};
use luago::value::{GoLuaValue, NativeValue};

const NO_TABLE: &[u8] = b"Table pointer is null";

fn with_table() -> (Bridge<u64>, usize) {
    let mut bridge: Bridge<u64> = Bridge::new();
    let table = GoLuaValue::from_owned(NativeValue::Table(100), &mut bridge);
    let addr = table.address();
    (bridge, addr)
}

#[test]
fn a_table_needs_a_machine() {
    match luago_create_table(0) {
        Step::Done(r) => {
            assert_eq!((r.value, r.error), (0, Some(b"LuaVmWrapper pointer is null".to_vec())))
        }
        Step::Call(()) => panic!("made without a machine"),
    }
    assert_eq!(luago_create_table(7), Step::Call(()));
    match luago_create_table_with_capacity(0, 4, 5) {
        Step::Done(r) => {
            assert_eq!((r.value, r.error), (0, Some(b"LuaVmWrapper pointer is null".to_vec())))
        }
        Step::Call(_) => panic!("made without a machine"),
    }
    assert_eq!(luago_create_table_with_capacity(7, 4, 5), Step::Call((4, 5)));
    let mut bridge: Bridge<u64> = Bridge::new();
    let r = GoTableResult::from_outcome(Ok(3), &mut bridge);
    assert_eq!((r.value, r.error), (1, None));
}

#[test]
fn operations_without_arguments_ask_the_table() {
    let (bridge, tab) = with_table();
    assert_eq!(luago_table_clear(&bridge, tab), Step::Call(&100));
    assert_eq!(luago_table_len(&bridge, tab), Step::Call(&100));
    assert_eq!(luago_table_pop(&bridge, tab), Step::Call(&100));
    assert_eq!(luago_table_raw_pop(&bridge, tab), Step::Call(&100));
    assert_eq!(luago_table_is_empty(&bridge, tab), Step::Call(&100));
    assert_eq!(luago_table_is_readonly(&bridge, tab), Step::Call(&100));
    assert_eq!(luago_table_metatable(&bridge, tab), Step::Call(&100));
    assert_eq!(luago_table_raw_len(&bridge, tab), Step::Call(&100));
    assert_eq!(luago_table_to_pointer(&bridge, tab), Step::Call(&100));
    assert_eq!(luago_table_debug(&bridge, tab), Step::Call(&100));
    assert_eq!(luago_table_set_readonly(&bridge, tab, true), Step::Call((&100, true)));
    assert_eq!(luago_table_set_safeenv(&bridge, tab, false), Step::Call((&100, false)));
}

#[test]
fn operations_without_arguments_on_no_table() {
    let bridge: Bridge<u64> = Bridge::new();
    assert_eq!(
        luago_table_clear(&bridge, 0),
        Step::Done(GoNoneResult { error: Some(NO_TABLE.to_vec()) })
    );
    assert_eq!(
        luago_table_len(&bridge, 0),
        Step::Done(GoI64Result { value: 0, error: Some(NO_TABLE.to_vec()) })
    );
    assert_eq!(
        luago_table_pop(&bridge, 0),
        Step::Done(GoValueResult { value: GoLuaValue::Nil, error: Some(NO_TABLE.to_vec()) })
    );
    assert_eq!(
        luago_table_raw_pop(&bridge, 3),
        Step::Done(GoValueResult { value: GoLuaValue::Nil, error: Some(NO_TABLE.to_vec()) })
    );
    assert_eq!(luago_table_is_empty(&bridge, 0), Step::Done(true));
    assert_eq!(luago_table_is_readonly(&bridge, 0), Step::Done(true));
    assert_eq!(luago_table_metatable(&bridge, 0), Step::Done(0));
    assert_eq!(luago_table_raw_len(&bridge, 0), Step::Done(0));
    assert_eq!(luago_table_to_pointer(&bridge, 0), Step::Done(0));
    assert_eq!(luago_table_debug(&bridge, 0), Step::Done(None));
    assert_eq!(luago_table_set_readonly(&bridge, 0, true), Step::Done(()));
    assert_eq!(luago_table_set_safeenv(&bridge, 0, true), Step::Done(()));
}

#[test]
fn a_box_of_another_kind_is_no_table() {
    let mut bridge: Bridge<u64> = Bridge::new();
    let s = GoLuaValue::from_owned(NativeValue::String(1), &mut bridge);
    assert_eq!(luago_table_is_empty(&bridge, s.address()), Step::Done(true));
    assert_eq!(
        luago_table_len(&bridge, s.address()),
        Step::Done(GoI64Result { value: 0, error: Some(NO_TABLE.to_vec()) })
    );
    luago_free_table(&mut bridge, s.address());
    assert_eq!(bridge.boxes_freed(), 0);
}

#[test]
fn operations_with_one_value_consume_it() {
    let (mut bridge, tab) = with_table();
    let key = GoLuaValue::from_owned(NativeValue::String(5), &mut bridge);
    assert_eq!(luago_table_get(&mut bridge, tab, key), Step::Call(NativeValue::String(5)));
    assert_eq!(bridge.boxes_freed(), 1);
    assert_eq!(
        luago_table_raw_get(&mut bridge, tab, GoLuaValue::Integer(2)),
        Step::Call(NativeValue::Integer(2))
    );
    assert_eq!(
        luago_table_contains_key(&mut bridge, tab, GoLuaValue::Boolean(true)),
        Step::Call(NativeValue::Boolean(true))
    );
    assert_eq!(
        luago_table_push(&mut bridge, tab, GoLuaValue::Integer(3)),
        Step::Call(NativeValue::Integer(3))
    );
    assert_eq!(
        luago_table_raw_push(&mut bridge, tab, GoLuaValue::Nil),
        Step::Call(NativeValue::Nil)
    );
    assert_eq!(
        luago_table_raw_remove(&mut bridge, tab, GoLuaValue::Integer(1)),
        Step::Call(NativeValue::Integer(1))
    );
    assert_eq!(
        luago_table_raw_insert(&mut bridge, tab, 4, GoLuaValue::Integer(9)),
        Step::Call((4, NativeValue::Integer(9)))
    );
}

#[test]
fn operations_with_one_value_on_no_table_keep_it() {
    let mut bridge: Bridge<u64> = Bridge::new();
    let key = GoLuaValue::from_owned(NativeValue::String(5), &mut bridge);
    let none = Step::Done(GoNoneResult { error: Some(NO_TABLE.to_vec()) });
    let value = || Step::Done(GoValueResult { value: GoLuaValue::Nil, error: Some(NO_TABLE.to_vec()) });
    assert_eq!(luago_table_get(&mut bridge, 0, GoLuaValue::String(1)), value());
    assert_eq!(luago_table_raw_get(&mut bridge, 0, GoLuaValue::String(1)), value());
    match luago_table_contains_key(&mut bridge, 0, GoLuaValue::String(1)) {
        Step::Done(r) => assert_eq!((r.value, r.error), (false, Some(NO_TABLE.to_vec()))),
        Step::Call(_) => panic!("asked no table"),
    }
    assert_eq!(luago_table_push(&mut bridge, 0, GoLuaValue::String(1)), none);
    assert_eq!(luago_table_raw_push(&mut bridge, 0, GoLuaValue::String(1)), none);
    assert_eq!(luago_table_raw_remove(&mut bridge, 0, GoLuaValue::String(1)), none);
    assert_eq!(
        luago_table_raw_insert(&mut bridge, 0, 1, GoLuaValue::String(1)),
        Step::Done(GoNoneResult { error: Some(NO_TABLE.to_vec()) })
    );
    assert_eq!(bridge.boxes_freed(), 0);
    assert_eq!(key.to_value_from_owned(&mut bridge), NativeValue::String(5));
}

#[test]
fn set_consumes_the_key_and_then_the_value() {
    let (mut bridge, tab) = with_table();
    let key = GoLuaValue::from_owned(NativeValue::String(5), &mut bridge);
    let value = GoLuaValue::from_owned(NativeValue::Table(6), &mut bridge);
    assert_eq!(
        luago_table_set(&mut bridge, tab, key, value),
        Step::Call((NativeValue::String(5), NativeValue::Table(6)))
    );
    assert_eq!(bridge.boxes_freed(), 2);
    assert_eq!(
        luago_table_raw_set(&mut bridge, tab, GoLuaValue::Integer(1), GoLuaValue::Nil),
        Step::Call((NativeValue::Integer(1), NativeValue::Nil))
    );
    let once = GoLuaValue::from_owned(NativeValue::String(7), &mut bridge);
    let addr = once.address();
    assert_eq!(
        luago_table_set(&mut bridge, tab, once, GoLuaValue::String(addr)),
        Step::Call((NativeValue::String(7), NativeValue::Nil))
    );
}

#[test]
fn set_on_no_table_keeps_both() {
    let mut bridge: Bridge<u64> = Bridge::new();
    let key = GoLuaValue::from_owned(NativeValue::String(5), &mut bridge);
    let value = GoLuaValue::from_owned(NativeValue::Table(6), &mut bridge);
    let none = Step::Done(GoNoneResult { error: Some(NO_TABLE.to_vec()) });
    assert_eq!(
        luago_table_set(&mut bridge, 0, GoLuaValue::String(1), GoLuaValue::Table(2)),
        none
    );
    assert_eq!(
        luago_table_raw_set(&mut bridge, 9, GoLuaValue::String(1), GoLuaValue::Table(2)),
        none
    );
    assert_eq!(bridge.boxes_freed(), 0);
    assert_eq!(key.to_value_from_owned(&mut bridge), NativeValue::String(5));
    assert_eq!(value.to_value_from_owned(&mut bridge), NativeValue::Table(6));
}

#[test]
fn equals_needs_both_tables() {
    let (mut bridge, tab) = with_table();
    let other = GoLuaValue::from_owned(NativeValue::Table(101), &mut bridge);
    assert_eq!(luago_table_equals(&bridge, tab, other.address()), Step::Call((&100, &101)));
    assert_eq!(luago_table_equals(&bridge, tab, tab), Step::Call((&100, &100)));
    for (a, b) in [(0, tab), (tab, 0), (0, 0)] {
        match luago_table_equals(&bridge, a, b) {
            Step::Done(r) => assert_eq!((r.value, r.error), (false, Some(NO_TABLE.to_vec()))),
            Step::Call(_) => panic!("compared with no table"),
        }
    }
}

#[test]
fn metatable_is_a_clone_or_none() {
    let (mut bridge, tab) = with_table();
    let mt = GoLuaValue::from_owned(NativeValue::Table(200), &mut bridge);
    assert_eq!(luago_table_set_metatable(&bridge, tab, mt.address()), Step::Call(Some(200)));
    assert_eq!(luago_table_set_metatable(&bridge, tab, 0), Step::Call(None));
    assert_eq!(
        luago_table_set_metatable(&bridge, 0, mt.address()),
        Step::Done(GoNoneResult { error: Some(NO_TABLE.to_vec()) })
    );
    assert_eq!(mt.to_value_from_owned(&mut bridge), NativeValue::Table(200));
}

#[test]
fn a_metatable_gets_a_box_and_none_gets_null() {
    let mut bridge: Bridge<u64> = Bridge::new();
    assert_eq!(metatable_address(&mut bridge, None), 0);
    assert_eq!(bridge.boxes_made(), 0);
    assert_eq!(metatable_address(&mut bridge, Some(33)), 1);
    assert_eq!(GoLuaValue::Table(1).to_value_from_owned(&mut bridge), NativeValue::Table(33));
}

#[test]
fn a_walk_needs_a_table() {
    let bridge: Bridge<u64> = Bridge::new();
    let cb = || Some(IGoCallback { callback: 1u8, drop: 2u8, handle: 5 });
    match luago_table_foreach(&bridge, 0, cb()) {
        Step::Done(r) => assert_eq!(r.error, Some(NO_TABLE.to_vec())),
        Step::Call(_) => panic!("walked no table"),
    }
    match luago_table_foreach_value(&bridge, 0, cb()) {
        Step::Done(r) => assert_eq!(r.error, Some(NO_TABLE.to_vec())),
        Step::Call(_) => panic!("walked no table"),
    }
}

#[test]
fn a_walk_shows_each_entry_and_tears_down_once() {
    let (mut bridge, tab) = with_table();
    let cb = Some(IGoCallback { callback: 1u8, drop: 2u8, handle: 5 });
    let mut wrapper = match luago_table_foreach(&bridge, tab, cb) {
        Step::Call(wrapper) => wrapper,
        Step::Done(r) => panic!("refused: {:?}", r),
    };
    let data =
        TableForEachCallbackData::new(NativeValue::String(1), NativeValue::Table(2), &mut bridge);
    assert_eq!(data.key, GoLuaValue::String(2));
    assert_eq!(data.value, GoLuaValue::Table(3));
    assert!(!data.stop);
    assert_eq!(wrapper.callback(4096), Some(CallbackAction::Invoke { val: 4096, handle: 5 }));
    assert_eq!(data.verdict(), Ok(()));
    let mut data =
        TableForEachCallbackData::new(NativeValue::Integer(1), NativeValue::Nil, &mut bridge);
    assert_eq!((&data.key, &data.value), (&GoLuaValue::Integer(1), &GoLuaValue::Nil));
    data.stop = true;
    assert_eq!(data.verdict(), Err("stop".to_string()));
    assert_eq!(GoNoneResult::from_outcome(data.verdict()).error, Some(b"stop".to_vec()));
    assert_eq!(wrapper.teardown(), Some(CallbackAction::Teardown { handle: 5 }));
    assert_eq!(wrapper.teardown(), None);
}

#[test]
fn a_walk_over_values_shows_each_value() {
    let (mut bridge, tab) = with_table();
    let cb = Some(IGoCallback { callback: 1u8, drop: 2u8, handle: 0 });
    let mut wrapper = match luago_table_foreach_value(&bridge, tab, cb) {
        Step::Call(wrapper) => wrapper,
        Step::Done(r) => panic!("refused: {:?}", r),
    };
    let mut data = TableForEachValueCallbackData::new(NativeValue::Function(8), &mut bridge);
    assert_eq!(data.value, GoLuaValue::Function(2));
    assert!(!data.stop);
    assert_eq!(wrapper.callback(1), None);
    assert_eq!(data.verdict(), Ok(()));
    data.stop = true;
    assert_eq!(data.verdict(), Err("stop".to_string()));
    assert_eq!(wrapper.teardown(), None);
}

#[test]
fn debug_text_with_a_nul_byte_is_replaced() {
    assert_eq!(table_debug_text("{ 1, 2 }".to_string()), b"{ 1, 2 }".to_vec());
    assert_eq!(table_debug_text("".to_string()), Vec::<u8>::new());
    assert_eq!(table_debug_text("{ \"a\0\" }".to_string()), b"Invalid error string".to_vec());
}

#[test]
fn free_table_frees_once() {
    let (mut bridge, tab) = with_table();
    luago_free_table(&mut bridge, 0);
    assert_eq!(bridge.boxes_freed(), 0);
    luago_free_table(&mut bridge, tab);
    luago_free_table(&mut bridge, tab);
    assert_eq!(bridge.boxes_freed(), 1);
    assert_eq!(luago_table_is_empty(&bridge, tab), Step::Done(true));
}
