//! The ordered container of values that carries arguments and results.

use crate::bridge::{BoxView, Boxed, Bridge, BridgeState};
use crate::sharing::{
    lemma_popped_consistent, lemma_pushed_consistent, lemma_with_box_consistent,
    lemma_with_content_consistent, lemma_without_box_consistent,
};
use crate::value::{GoLuaValue, Native, NativeValue};
use std::collections::VecDeque;
use vstd::prelude::*;

verus! {

/// An ordered sequence of native values: pushed at the back, popped at the
/// front.
#[derive(Debug, PartialEq, Eq)]
pub struct GoMultiValue<H> {
    pub values: VecDeque<NativeValue<H>>,
}

impl<H> View for GoMultiValue<H> {
    type V = Seq<Native<H>>;

    open spec fn view(&self) -> Seq<Native<H>> {
        self.values@.map_values(|v: NativeValue<H>| v@)
    }
}

/// The most cells that a new container reserves ahead of its first value.
pub const RESERVE_LIMIT: usize = 4096;

impl<H> BridgeState<H> {
    /// The state after `v` was pushed on the container at `ptr`: `v` is
    /// consumed and its native value stands last. Nothing changes where no
    /// container stands at `ptr`.
    pub open spec fn pushed(self, ptr: usize, v: GoLuaValue) -> Self {
        if self.holds_multivalue(ptr) {
            self.consumed(v).with_content(
                ptr,
                BoxView::MultiValue(self.multivalue_at(ptr).push(self.native_of(v))),
            )
        } else {
            self
        }
    }

    /// The state after the container at `addr` was freed, if there is one.
    pub open spec fn without_multivalue(self, addr: usize) -> Self {
        if self.holds_multivalue(addr) {
            self.without_box(addr)
        } else {
            self
        }
    }

    /// Whether a value can be popped from the container at `ptr`.
    pub open spec fn can_pop(self, ptr: usize) -> bool {
        self.holds_multivalue(ptr) && self.multivalue_at(ptr).len() > 0
    }

    /// The state after the first value left the container at `ptr`, before
    /// it is handed to the host.
    pub open spec fn shifted(self, ptr: usize) -> Self
        recommends
            self.can_pop(ptr),
    {
        self.with_content(ptr, BoxView::MultiValue(self.multivalue_at(ptr).drop_first()))
    }

    /// The state after a pop from the container at `ptr`: its first value is
    /// handed to the host. Nothing changes where there is no such value.
    pub open spec fn popped(self, ptr: usize) -> Self {
        if self.can_pop(ptr) {
            self.shifted(ptr).received(self.multivalue_at(ptr).first())
        } else {
            self
        }
    }

    /// What a pop from the container at `ptr` gives the host: the first
    /// value, or nil where there is none.
    pub open spec fn pop_value(self, ptr: usize) -> GoLuaValue {
        if self.can_pop(ptr) {
            self.shifted(ptr).host_value(self.multivalue_at(ptr).first())
        } else {
            GoLuaValue::Nil
        }
    }
}

impl<H> GoMultiValue<H> {
    /// Makes an empty container in a fresh box.
    pub fn new(bridge: &mut Bridge<H>) -> (ptr: usize)
        requires
            old(bridge).wf(),
            old(bridge)@.has_box_room(1),
        ensures
            final(bridge).wf(),
            ptr == old(bridge)@.next_box(),
            ptr != 0,
            final(bridge)@ == old(bridge)@.with_box(BoxView::MultiValue(Seq::empty())),
    {
        let values: VecDeque<NativeValue<H>> = VecDeque::new();
        assert(values@.map_values(|v: NativeValue<H>| v@) =~= Seq::empty());
        GoMultiValue::inst(values, bridge)
    }

    /// Puts `values` in a fresh box, for the host to own.
    pub fn inst(values: VecDeque<NativeValue<H>>, bridge: &mut Bridge<H>) -> (ptr: usize)
        requires
            old(bridge).wf(),
            old(bridge)@.has_box_room(1),
        ensures
            final(bridge).wf(),
            ptr == old(bridge)@.next_box(),
            ptr != 0,
            final(bridge)@ == old(bridge)@.with_box(
                BoxView::MultiValue(values@.map_values(|v: NativeValue<H>| v@)),
            ),
    {
        proof {
            lemma_with_box_consistent(
                bridge@,
                BoxView::MultiValue(values@.map_values(|v: NativeValue<H>| v@)),
            );
        }
        bridge.put(Boxed::MultiValue(GoMultiValue { values }))
    }

    /// Frees the container at `ptr` and returns its values, for the virtual
    /// machine to own. Any other address is left alone.
    pub fn into_inner(ptr: usize, bridge: &mut Bridge<H>) -> (values: Option<
        VecDeque<NativeValue<H>>,
    >)
        requires
            old(bridge).wf(),
        ensures
            final(bridge).wf(),
            match values {
                Some(values) => old(bridge)@.holds_multivalue(ptr) && values@.map_values(
                    |v: NativeValue<H>| v@,
                ) == old(bridge)@.multivalue_at(ptr) && final(bridge)@ == old(
                    bridge,
                )@.without_box(ptr),
                None => !old(bridge)@.holds_multivalue(ptr) && final(bridge)@ == old(bridge)@,
            },
    {
        let found = match bridge.peek(ptr) {
            Some(Boxed::MultiValue(_)) => true,
            _ => false,
        };
        if !found {
            return None;
        }
        proof {
            lemma_without_box_consistent(bridge@, ptr);
        }
        match bridge.take(ptr) {
            Some(Boxed::MultiValue(mv)) => Some(mv.values),
            _ => None,
        }
    }
}

/// Makes an empty container, with room reserved for `cap` values as far as
/// [`RESERVE_LIMIT`] allows.
pub fn luago_create_multivalue_with_capacity<H>(bridge: &mut Bridge<H>, cap: usize) -> (ptr: usize)
    requires
        old(bridge).wf(),
        old(bridge)@.has_box_room(1),
    ensures
        final(bridge).wf(),
        ptr == old(bridge)@.next_box(),
        ptr != 0,
        final(bridge)@ == old(bridge)@.with_box(BoxView::MultiValue(Seq::empty())),
{
    let reserve = if cap > RESERVE_LIMIT {
        RESERVE_LIMIT
    } else {
        cap
    };
    let values: VecDeque<NativeValue<H>> = VecDeque::with_capacity(reserve);
    assert(values@.map_values(|v: NativeValue<H>| v@) =~= Seq::empty());
    GoMultiValue::inst(values, bridge)
}

/// Pushes `value` on the back of the container at `vec_ptr` and consumes it.
/// Where no container stands at `vec_ptr`, nothing is done and `value` stays
/// with the host.
pub fn luago_multivalue_push<H>(
    bridge: &mut Bridge<H>,
    vec_ptr: usize,
    value: GoLuaValue,
) -> (pushed: bool)
    requires
        old(bridge).wf(),
    ensures
        final(bridge).wf(),
        pushed == old(bridge)@.holds_multivalue(vec_ptr),
        final(bridge)@ == old(bridge)@.pushed(vec_ptr, value),
{
    let found = match bridge.peek(vec_ptr) {
        Some(Boxed::MultiValue(_)) => true,
        _ => false,
    };
    if !found {
        return false;
    }
    proof {
        lemma_pushed_consistent(bridge@, vec_ptr, value);
    }
    let native = value.to_value_from_owned(bridge);
    match bridge.peek_mut(vec_ptr) {
        Some(slot) => match slot {
            Boxed::MultiValue(mv) => {
                mv.values.push_back(native);
                assert(mv@ =~= old(bridge)@.multivalue_at(vec_ptr).push(native@));
            },
            _ => {},
        },
        None => {},
    }
    true
}

/// The number of values in the container at `vec_ptr`, zero where there is
/// no container.
pub fn luago_multivalue_len<H>(bridge: &Bridge<H>, vec_ptr: usize) -> (len: usize)
    requires
        bridge.wf(),
    ensures
        len == if bridge@.holds_multivalue(vec_ptr) {
            bridge@.multivalue_at(vec_ptr).len()
        } else {
            0
        },
{
    match bridge.peek(vec_ptr) {
        Some(Boxed::MultiValue(mv)) => mv.values.len(),
        _ => 0,
    }
}

/// Pops the value at the front of the container at `vec_ptr` and hands it to
/// the host. An empty container gives nil, and so does an address at which no
/// container stands.
pub fn luago_multivalue_pop<H>(bridge: &mut Bridge<H>, vec_ptr: usize) -> (value: GoLuaValue)
    requires
        old(bridge).wf(),
        old(bridge)@.has_room(1),
    ensures
        final(bridge).wf(),
        value == old(bridge)@.pop_value(vec_ptr),
        final(bridge)@ == old(bridge)@.popped(vec_ptr),
{
    proof {
        lemma_popped_consistent(bridge@, vec_ptr);
        if bridge@.can_pop(vec_ptr) {
            lemma_with_content_consistent(
                bridge@,
                vec_ptr,
                BoxView::MultiValue(bridge@.multivalue_at(vec_ptr).drop_first()),
            );
        }
    }
    let first = match bridge.peek_mut(vec_ptr) {
        Some(slot) => match slot {
            Boxed::MultiValue(mv) => {
                let first = mv.values.pop_front();
                assert(first.is_some() ==> mv@ =~= old(bridge)@.multivalue_at(
                    vec_ptr,
                ).drop_first());
                assert(first.is_none() ==> mv@ =~= old(bridge)@.multivalue_at(vec_ptr));
                first
            },
            _ => None,
        },
        None => None,
    };
    match first {
        Some(native) => GoLuaValue::from_owned(native, bridge),
        None => {
            assert(bridge@.boxes =~= old(bridge)@.boxes);
            GoLuaValue::Nil
        },
    }
}

/// Frees the container at `vec_ptr` with every value still in it. Any other
/// address is left alone.
pub fn luago_free_multivalue<H>(bridge: &mut Bridge<H>, vec_ptr: usize)
    requires
        old(bridge).wf(),
    ensures
        final(bridge).wf(),
        final(bridge)@ == old(bridge)@.without_multivalue(vec_ptr),
{
    let _ = GoMultiValue::into_inner(vec_ptr, bridge);
}

} // verus!
