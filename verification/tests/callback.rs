use luago::callback::{test_callback, CallbackAction, IGoCallback, IGoCallbackWrapper};

fn descriptor(handle: usize) -> Option<IGoCallback<u8, u8>> {
    Some(IGoCallback { callback: 1, drop: 2, handle })
}

#[test]
fn a_zero_handle_asks_for_nothing() {
    let mut wrapper = IGoCallbackWrapper::new(descriptor(0));
    assert_eq!(wrapper.callback(11), None);
    assert_eq!(wrapper.callback(12), None);
    assert_eq!(wrapper.teardown(), None);
    assert_eq!(wrapper.teardown(), None);
    assert_eq!(wrapper.callback(13), None);
}

#[test]
fn a_null_descriptor_asks_for_nothing() {
    let mut wrapper: IGoCallbackWrapper<u8, u8> = IGoCallbackWrapper::new(None);
    assert!(wrapper.descriptor().is_none());
    assert_eq!(wrapper.callback(11), None);
    assert_eq!(wrapper.teardown(), None);
}

#[test]
fn the_teardown_comes_once_whatever_the_number_of_invocations() {
    for n in [0usize, 1, 2, 17] {
        let mut wrapper = IGoCallbackWrapper::new(descriptor(5));
        for val in 0..n {
            assert_eq!(wrapper.callback(val), Some(CallbackAction::Invoke { val, handle: 5 }));
        }
        assert_eq!(wrapper.teardown(), Some(CallbackAction::Teardown { handle: 5 }));
        assert_eq!(wrapper.teardown(), None);
        assert_eq!(wrapper.callback(1), None);
    }
}

#[test]
fn the_descriptor_stays_with_the_wrapper() {
    let wrapper = IGoCallbackWrapper::new(descriptor(8));
    let cb = wrapper.descriptor().unwrap();
    assert_eq!((cb.callback, cb.drop, cb.handle), (1, 2, 8));
}

#[test]
fn test_callback_invokes_once_and_tears_down() {
    assert_eq!(
        test_callback(descriptor(9), 77),
        (
            Some(CallbackAction::Invoke { val: 77, handle: 9 }),
            Some(CallbackAction::Teardown { handle: 9 })
        )
    );
    assert_eq!(test_callback(descriptor(0), 77), (None, None));
    assert_eq!(test_callback::<u8, u8>(None, 77), (None, None));
}
