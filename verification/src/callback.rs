//! The bridge to functions of the host.
//!
//! The host registers a callback as a descriptor: a function to invoke, a
//! function to tear the registration down, and a handle that only the host
//! understands. The wrapper decides when each of the two is owed; whoever
//! holds the wrapper makes the calls that it asks for.

use vstd::prelude::*;

verus! {

/// What the host registered. A handle of zero says that nothing is
/// registered: no call and no teardown is owed.
pub struct IGoCallback<F, D> {
    pub callback: F,
    pub drop: D,
    pub handle: usize,
}

/// A call into the host that the wrapper asks for.
#[derive(Clone, Copy, Debug, PartialEq, Eq, Structural)]
pub enum CallbackAction {
    /// Invoke the callback with the payload `val` and the handle `handle`.
    Invoke { val: usize, handle: usize },
    /// Tear the registration of `handle` down.
    Teardown { handle: usize },
}

/// What a wrapper is: the handle it was made with, and whether the teardown
/// was asked for already.
pub struct CallbackState {
    pub handle: usize,
    pub torn_down: bool,
}

impl CallbackState {
    /// Whether calls are owed to the host.
    pub open spec fn armed(self) -> bool {
        self.handle != 0 && !self.torn_down
    }

    /// The call that an invocation with the payload `val` asks for.
    pub open spec fn invocation(self, val: usize) -> Option<CallbackAction> {
        if self.armed() {
            Some(CallbackAction::Invoke { val, handle: self.handle })
        } else {
            None
        }
    }

    /// The call that a teardown asks for.
    pub open spec fn teardown_action(self) -> Option<CallbackAction> {
        if self.armed() {
            Some(CallbackAction::Teardown { handle: self.handle })
        } else {
            None
        }
    }

    /// The state after a teardown.
    pub open spec fn after_teardown(self) -> Self {
        CallbackState { handle: self.handle, torn_down: true }
    }

    /// The calls of a whole life, in order: one invocation for each payload
    /// of `vals`, then the teardown.
    pub open spec fn life(self, vals: Seq<usize>) -> Seq<CallbackAction>
        decreases vals.len(),
    {
        if vals.len() == 0 {
            match self.teardown_action() {
                Some(action) => seq![action],
                None => Seq::empty(),
            }
        } else {
            let rest = self.life(vals.drop_first());
            match self.invocation(vals.first()) {
                Some(action) => seq![action] + rest,
                None => rest,
            }
        }
    }

    /// How many teardowns `actions` holds.
    pub open spec fn teardowns(actions: Seq<CallbackAction>) -> nat {
        actions.filter(|a: CallbackAction| a is Teardown).len()
    }
}

/// A registered callback, together with what is still owed to the host.
pub struct IGoCallbackWrapper<F, D> {
    callback: Option<IGoCallback<F, D>>,
    torn_down: bool,
}

impl<F, D> View for IGoCallbackWrapper<F, D> {
    type V = CallbackState;

    closed spec fn view(&self) -> CallbackState {
        CallbackState {
            handle: match self.callback {
                Some(cb) => cb.handle,
                None => 0,
            },
            torn_down: self.torn_down,
        }
    }
}

impl<F, D> IGoCallbackWrapper<F, D> {
    /// Wraps what the host registered; `None` stands for a null descriptor.
    pub fn new(callback: Option<IGoCallback<F, D>>) -> (wrapper: Self)
        ensures
            !wrapper@.torn_down,
            wrapper@.handle == match callback {
                Some(cb) => cb.handle,
                None => 0,
            },
    {
        IGoCallbackWrapper { callback, torn_down: false }
    }

    /// The descriptor that was registered, for the one who makes the calls.
    pub fn descriptor(&self) -> (cb: Option<&IGoCallback<F, D>>)
        ensures
            cb is Some ==> cb.unwrap().handle == self@.handle,
            cb is None ==> self@.handle == 0,
    {
        self.callback.as_ref()
    }

    /// Asks for one invocation with the payload `val`. Nothing is asked for
    /// where the handle is zero or the teardown is done.
    pub fn callback(&self, val: usize) -> (action: Option<CallbackAction>)
        ensures
            action == self@.invocation(val),
    {
        if self.torn_down {
            return None;
        }
        match &self.callback {
            Some(cb) => {
                if cb.handle != 0 {
                    Some(CallbackAction::Invoke { val, handle: cb.handle })
                } else {
                    None
                }
            },
            None => None,
        }
    }

    /// Asks for the teardown. It is asked for once: a second teardown asks
    /// for nothing, and neither does one where the handle is zero.
    pub fn teardown(&mut self) -> (action: Option<CallbackAction>)
        ensures
            action == old(self)@.teardown_action(),
            final(self)@ == old(self)@.after_teardown(),
    {
        let action = if self.torn_down {
            None
        } else {
            match &self.callback {
                Some(cb) => {
                    if cb.handle != 0 {
                        Some(CallbackAction::Teardown { handle: cb.handle })
                    } else {
                        None
                    }
                },
                None => None,
            }
        };
        self.torn_down = true;
        action
    }
}

/// Wraps `cb`, invokes it once with the payload `val` and tears it down:
/// the two calls that this asks for, in order.
pub fn test_callback<F, D>(cb: Option<IGoCallback<F, D>>, val: usize) -> (actions: (
    Option<CallbackAction>,
    Option<CallbackAction>,
))
    ensures
        match cb {
            Some(cb) if cb.handle != 0 => actions.0 == Some(
                CallbackAction::Invoke { val, handle: cb.handle },
            ) && actions.1 == Some(CallbackAction::Teardown { handle: cb.handle }),
            _ => actions.0 is None && actions.1 is None,
        },
{
    let mut wrapper = IGoCallbackWrapper::new(cb);
    let invoke = wrapper.callback(val);
    let teardown = wrapper.teardown();
    (invoke, teardown)
}

/// A wrapper with the handle zero asks for no call at all, whatever is done
/// with it.
pub proof fn lemma_zero_handle_is_inert(s: CallbackState, vals: Seq<usize>)
    requires
        s.handle == 0,
    ensures
        forall|val: usize| s.invocation(val) is None,
        s.teardown_action() is None,
        s.life(vals) == Seq::<CallbackAction>::empty(),
    decreases vals.len(),
{
    if vals.len() > 0 {
        lemma_zero_handle_is_inert(s, vals.drop_first());
    }
}

/// A wrapper with a handle other than zero, invoked any number of times and
/// then torn down, asks for each invocation and then for exactly one
/// teardown; after that it asks for nothing more.
pub proof fn lemma_teardown_exactly_once(s: CallbackState, vals: Seq<usize>)
    requires
        s.handle != 0,
        !s.torn_down,
    ensures
        s.life(vals).len() == vals.len() + 1,
        forall|i: int|
            0 <= i < vals.len() ==> #[trigger] s.life(vals)[i] == (CallbackAction::Invoke {
                val: vals[i],
                handle: s.handle,
            }),
        s.life(vals).last() == (CallbackAction::Teardown { handle: s.handle }),
        CallbackState::teardowns(s.life(vals)) == 1,
        s.after_teardown().teardown_action() is None,
        forall|val: usize| s.after_teardown().invocation(val) is None,
    decreases vals.len(),
{
    let is_teardown = |a: CallbackAction| a is Teardown;
    reveal(Seq::filter);
    if vals.len() == 0 {
        let only = seq![CallbackAction::Teardown { handle: s.handle }];
        assert(s.life(vals) == only);
        assert(only.drop_last() =~= Seq::<CallbackAction>::empty());
        assert(only.drop_last().filter(is_teardown) =~= Seq::<CallbackAction>::empty());
        assert(only.filter(is_teardown) =~= only);
    } else {
        let rest = s.life(vals.drop_first());
        lemma_teardown_exactly_once(s, vals.drop_first());
        let head = seq![CallbackAction::Invoke { val: vals.first(), handle: s.handle }];
        assert(s.life(vals) == head + rest);
        assert forall|i: int| 0 <= i < vals.len() implies #[trigger] s.life(vals)[i] == (
        CallbackAction::Invoke { val: vals[i], handle: s.handle }) by {
            if i > 0 {
                assert(s.life(vals)[i] == rest[i - 1]);
                assert(vals.drop_first()[i - 1] == vals[i]);
            }
        }
        Seq::filter_distributes_over_add(head, rest, is_teardown);
        assert(head.drop_last() =~= Seq::<CallbackAction>::empty());
        assert(head.drop_last().filter(is_teardown) =~= Seq::<CallbackAction>::empty());
        assert(head.filter(is_teardown) =~= Seq::<CallbackAction>::empty());
        assert((head + rest).filter(is_teardown) =~= rest.filter(is_teardown));
    }
}

} // verus!
