use luago::bridge::Bridge;
use luago::result::{
    strip_nul, to_error, GoAnyUserDataResult, GoBoolResult, GoFunctionResult, GoI64Result,
    GoMultiValueResult, GoNoneResult, GoStringResult, GoTableResult, GoUsizePtrResult,
    GoValueResult,
};
use luago::value::{GoLuaValue, NativeValue};
use std::collections::VecDeque;

#[test]
fn to_error_drops_nul_bytes_only() {
    assert_eq!(to_error("a\0b\0\0c".to_string()), b"abc".to_vec());
    assert_eq!(to_error("plain".to_string()), b"plain".to_vec());
    assert_eq!(to_error("".to_string()), Vec::<u8>::new());
    assert_eq!(to_error("\0".to_string()), Vec::<u8>::new());
    assert_eq!(to_error("\u{e9}\0".to_string()), vec![0xc3, 0xa9]);
}

#[test]
fn strip_nul_keeps_the_order() {
    assert_eq!(strip_nul(&[0, 1, 0, 2, 3, 0]), vec![1, 2, 3]);
    assert_eq!(strip_nul(&[]), Vec::<u8>::new());
    assert_eq!(strip_nul(&[0xff, 0x00, 0xfe]), vec![0xff, 0xfe]);
}

#[test]
fn none_envelope() {
    assert_eq!(GoNoneResult::ok().error, None);
    assert_eq!(GoNoneResult::err("no".to_string()).error, Some(b"no".to_vec()));
    assert_eq!(GoNoneResult::from_outcome(Ok(())).error, None);
    assert_eq!(
        GoNoneResult::from_outcome(Err("memory\0 limit".to_string())).error,
        Some(b"memory limit".to_vec())
    );
}

#[test]
fn bool_envelope_has_a_result_or_a_message() {
    let ok = GoBoolResult::ok(true);
    assert_eq!((ok.value, ok.error), (true, None));
    let ok = GoBoolResult::ok(false);
    assert_eq!((ok.value, ok.error), (false, None));
    let err = GoBoolResult::err("bad key".to_string());
    assert_eq!((err.value, err.error), (false, Some(b"bad key".to_vec())));
    let r = GoBoolResult::from_outcome(Ok(true));
    assert_eq!((r.value, r.error), (true, None));
    let r = GoBoolResult::from_outcome(Err("e".to_string()));
    assert_eq!((r.value, r.error), (false, Some(b"e".to_vec())));
}

#[test]
fn integer_envelope_has_a_result_or_a_message() {
    let ok = GoI64Result::ok(-5);
    assert_eq!((ok.value, ok.error), (-5, None));
    let err = GoI64Result::err("len".to_string());
    assert_eq!((err.value, err.error), (0, Some(b"len".to_vec())));
    let r = GoI64Result::from_outcome(Ok(i64::MAX));
    assert_eq!((r.value, r.error), (i64::MAX, None));
    let r = GoI64Result::from_outcome(Err("e".to_string()));
    assert_eq!((r.value, r.error), (0, Some(b"e".to_vec())));
}

#[test]
fn word_envelope_has_a_result_or_a_message() {
    let ok = GoUsizePtrResult::ok(99);
    assert_eq!((ok.value, ok.error), (99, None));
    let err = GoUsizePtrResult::err("ud".to_string());
    assert_eq!((err.value, err.error), (0, Some(b"ud".to_vec())));
    let r = GoUsizePtrResult::from_outcome(Ok(3));
    assert_eq!((r.value, r.error), (3, None));
    let r = GoUsizePtrResult::from_outcome(Err("e".to_string()));
    assert_eq!((r.value, r.error), (0, Some(b"e".to_vec())));
}

#[test]
fn address_envelopes_have_an_address_or_a_message() {
    let ok = GoStringResult::ok(4);
    assert_eq!((ok.value, ok.error), (4, None));
    let err = GoStringResult::err("s".to_string());
    assert_eq!((err.value, err.error), (0, Some(b"s".to_vec())));
    let ok = GoTableResult::ok(5);
    assert_eq!((ok.value, ok.error), (5, None));
    let err = GoTableResult::err("t".to_string());
    assert_eq!((err.value, err.error), (0, Some(b"t".to_vec())));
    let ok = GoFunctionResult::ok(6);
    assert_eq!((ok.value, ok.error), (6, None));
    let err = GoFunctionResult::err("f".to_string());
    assert_eq!((err.value, err.error), (0, Some(b"f".to_vec())));
    let ok = GoAnyUserDataResult::ok(7);
    assert_eq!((ok.value, ok.error), (7, None));
    let err = GoAnyUserDataResult::err("u".to_string());
    assert_eq!((err.value, err.error), (0, Some(b"u".to_vec())));
    let ok = GoMultiValueResult::ok(8);
    assert_eq!((ok.value, ok.error), (8, None));
    let err = GoMultiValueResult::err("m".to_string());
    assert_eq!((err.value, err.error), (0, Some(b"m".to_vec())));
}

#[test]
fn handle_envelopes_box_what_the_machine_made() {
    let mut bridge: Bridge<u64> = Bridge::new();
    let s = GoStringResult::from_outcome(Ok(40), &mut bridge);
    assert_eq!((s.value, s.error), (1, None));
    assert_eq!(GoLuaValue::String(1).to_value_from_ref(&bridge), NativeValue::String(40));
    let t = GoTableResult::from_outcome(Ok(41), &mut bridge);
    assert_eq!((t.value, t.error), (2, None));
    assert_eq!(GoLuaValue::Table(2).to_value_from_ref(&bridge), NativeValue::Table(41));
    let f = GoFunctionResult::from_outcome(Ok(42), &mut bridge);
    assert_eq!((f.value, f.error), (3, None));
    assert_eq!(GoLuaValue::Function(3).to_value_from_ref(&bridge), NativeValue::Function(42));
    let u = GoAnyUserDataResult::from_outcome(Ok(43), &mut bridge);
    assert_eq!((u.value, u.error), (4, None));
    assert_eq!(GoLuaValue::UserData(4).to_value_from_ref(&bridge), NativeValue::UserData(43));
    assert_eq!(bridge.boxes_made(), 4);
}

#[test]
fn handle_envelopes_of_a_failure_box_nothing() {
    let mut bridge: Bridge<u64> = Bridge::new();
    let s = GoStringResult::from_outcome(Err("out of memory".to_string()), &mut bridge);
    assert_eq!((s.value, s.error), (0, Some(b"out of memory".to_vec())));
    let t = GoTableResult::from_outcome(Err("t".to_string()), &mut bridge);
    assert_eq!((t.value, t.error), (0, Some(b"t".to_vec())));
    let f = GoFunctionResult::from_outcome(Err("f".to_string()), &mut bridge);
    assert_eq!((f.value, f.error), (0, Some(b"f".to_vec())));
    let u = GoAnyUserDataResult::from_outcome(Err("u".to_string()), &mut bridge);
    assert_eq!((u.value, u.error), (0, Some(b"u".to_vec())));
    let m = GoMultiValueResult::from_outcome(Err("m".to_string()), &mut bridge);
    assert_eq!((m.value, m.error), (0, Some(b"m".to_vec())));
    assert_eq!(bridge.boxes_made(), 0);
}

#[test]
fn multi_value_envelope_boxes_the_values() {
    let mut bridge: Bridge<u64> = Bridge::new();
    let values = VecDeque::from(vec![NativeValue::Integer(1), NativeValue::Nil]);
    let r = GoMultiValueResult::from_outcome(Ok(values), &mut bridge);
    assert_eq!((r.value, r.error), (1, None));
    assert_eq!(luago::multivalue::luago_multivalue_len(&bridge, 1), 2);
}

#[test]
fn value_envelope_has_a_value_or_a_message() {
    let mut bridge: Bridge<u64> = Bridge::new();
    let ok = GoValueResult::ok(GoLuaValue::Integer(3));
    assert_eq!((ok.value, ok.error), (GoLuaValue::Integer(3), None));
    let err = GoValueResult::err("v".to_string());
    assert_eq!((err.value, err.error), (GoLuaValue::Nil, Some(b"v".to_vec())));
    let r = GoValueResult::from_outcome(Ok(NativeValue::Table(12)), &mut bridge);
    assert_eq!((r.value, r.error), (GoLuaValue::Table(1), None));
    let r = GoValueResult::from_outcome(Ok(NativeValue::Nil), &mut bridge);
    assert_eq!((r.value, r.error), (GoLuaValue::Nil, None));
    let r = GoValueResult::from_outcome(Err("attempt to index nil".to_string()), &mut bridge);
    assert_eq!((r.value, r.error), (GoLuaValue::Nil, Some(b"attempt to index nil".to_vec())));
    assert_eq!(bridge.boxes_made(), 1);
}
