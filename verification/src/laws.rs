//! What holds of the bridge as a whole, proved over its model.

use crate::bridge::{BridgeState, TextView};
use crate::sharing::lemma_with_error_clone_consistent;
use crate::value::{without_nul, GoLuaValue, Native};
use vstd::prelude::*;

verus! {

/// Bytes without NUL bytes lose nothing when the NUL bytes are taken out
/// again.
pub proof fn lemma_without_nul_idempotent(text: Seq<u8>)
    ensures
        without_nul(without_nul(text)) == without_nul(text),
    decreases text.len(),
{
    let keep = |b: u8| b != 0;
    reveal(Seq::filter);
    if text.len() > 0 {
        lemma_without_nul_idempotent(text.drop_last());
        let front = text.drop_last().filter(keep);
        if keep(text.last()) {
            assert(front.push(text.last()).drop_last() =~= front);
        }
    }
}

/// Bytes that hold no NUL byte are kept as they are.
pub proof fn lemma_without_nul_keeps_clean(text: Seq<u8>)
    requires
        !text.contains(0u8),
    ensures
        without_nul(text) == text,
    decreases text.len(),
{
    let keep = |b: u8| b != 0;
    reveal(Seq::filter);
    if text.len() > 0 {
        assert(text.last() == text[text.len() - 1]);
        assert forall|b: u8| text.drop_last().contains(b) implies text.contains(b) by {
            let i = choose|i: int| 0 <= i < text.drop_last().len() && text.drop_last()[i] == b;
            assert(text[i] == b);
        }
        lemma_without_nul_keeps_clean(text.drop_last());
        assert(text.drop_last().push(text.last()) =~= text);
    } else {
        assert(text.filter(keep) =~= text);
    }
}

/// A value that was handed to the host and is consumed again comes back as
/// it was, but for the NUL bytes of an error's message; the bridge is left
/// with the boxes and texts that it had. For a boxed value exactly one box
/// was allocated and exactly one freed, and for an error the same holds of
/// its text. A value of an unknown kind has no payload to hand over and is
/// left out: it comes back as nil.
pub proof fn lemma_owned_round_trip<H>(s: BridgeState<H>, x: Native<H>)
    requires
        s.wf(),
        s.has_room(1),
        !(x is Other),
    ensures
        s.host_value(x).spec_tag() == x.kind(),
        s.received(x).native_of(s.host_value(x)) == x.crossed(),
        s.received(x).consumed(s.host_value(x)).boxes == s.boxes,
        s.received(x).consumed(s.host_value(x)).texts == s.texts,
        s.received(x).consumed(s.host_value(x)).boxes_made - s.boxes_made == (if x.kind().is_composite()
            || x is Error {
            1int
        } else {
            0int
        }),
        s.received(x).consumed(s.host_value(x)).boxes_freed - s.boxes_freed == s.received(
            x,
        ).consumed(s.host_value(x)).boxes_made - s.boxes_made,
        s.received(x).consumed(s.host_value(x)).texts_made - s.texts_made == (if x is Error {
            1int
        } else {
            0int
        }),
        s.received(x).consumed(s.host_value(x)).texts_freed - s.texts_freed == s.received(
            x,
        ).consumed(s.host_value(x)).texts_made - s.texts_made,
        s.received(x).consumed(s.host_value(x)).wf(),
{
    let v = s.host_value(x);
    let s1 = s.received(x);
    let s2 = s1.consumed(v);
    let a = s.next_box();
    assert(!s.boxes.dom().contains(a));
    match x {
        Native::Error(text) => {
            let t = s.next_text();
            assert(!s.texts.dom().contains(t));
            assert(s1.holds_error(a));
            assert(s1.error_text(a) == t);
            assert(s2.boxes =~= s.boxes);
            assert(s2.texts =~= s.texts);
        },
        _ => {
            if x.kind().is_composite() {
                assert(s1.holds_handle(x.kind(), a));
                assert(s2.boxes =~= s.boxes);
            }
        },
    }
}

/// A value of an unknown kind comes back from the host as nil.
pub proof fn lemma_other_reads_as_nil<H>(s: BridgeState<H>)
    ensures
        s.host_value(Native::<H>::Other) == GoLuaValue::Other,
        s.received(Native::<H>::Other) == s,
        s.native_of(GoLuaValue::Other) == Native::<H>::Nil,
{
}

/// A clone that was handed to the host reads back, any number of times, as
/// a value of the same kind: the same scalar, the same message but for its
/// NUL bytes, or a clone of the handle in the box. Reading it frees
/// nothing: the box stays where it is, and the source never was on the
/// bridge.
pub proof fn lemma_ref_round_trip<H: Clone>(
    s: BridgeState<H>,
    x: Native<H>,
    copy: Native<H>,
    read: Native<H>,
)
    requires
        s.wf(),
        s.has_room(1),
        !(x is Other),
        copy.is_clone_of(x),
        read.is_clone_of(s.received(copy).native_of(s.host_value(copy))),
    ensures
        s.host_value(copy) == s.host_value(x),
        read.kind() == x.kind(),
        x.handle() is None ==> read == x.crossed(),
        x.handle() is Some ==> read.handle() is Some && s.received(copy).holds_value(
            s.host_value(x),
        ) && cloned(x.handle().unwrap(), s.received(copy).handle_at(s.next_box())) && cloned(
            s.received(copy).handle_at(s.next_box()),
            read.handle().unwrap(),
        ),
{
    lemma_owned_round_trip(s, copy);
    let a = s.next_box();
    assert(!s.boxes.dom().contains(a));
    if x.handle() is Some {
        assert(s.received(copy).holds_handle(copy.kind(), a));
    }
}

/// A clone of a boxed value has a box of its own: the value and its clone
/// are consumed one after the other, in either order, and each gives what
/// it gave before the other was consumed. Two boxes are freed, and of a
/// shared text one share is given up each time.
pub proof fn lemma_clone_is_independent<H>(s: BridgeState<H>, v: GoLuaValue, c: H)
    requires
        s.consistent(),
        s.has_room(1),
        s.holds_value(v),
    ensures
        ({
            let w = s.clone_value(v);
            let s1 = s.with_clone(v, c);
            &&& w.spec_tag() == v.spec_tag()
            &&& w.spec_address() != v.spec_address()
            &&& s1.holds_value(v)
            &&& s1.holds_value(w)
            &&& s1.native_of(v) == s.native_of(v)
            &&& s1.consumed(v).holds_value(w)
            &&& s1.consumed(v).native_of(w) == s1.native_of(w)
            &&& s1.consumed(w).holds_value(v)
            &&& s1.consumed(w).native_of(v) == s1.native_of(v)
            &&& s1.consumed(v).consumed(w).boxes == s.boxes.remove(v.spec_address())
            &&& s1.consumed(w).consumed(v).boxes == s.boxes.remove(v.spec_address())
            &&& s1.consumed(v).consumed(w).boxes_freed == s.boxes_freed + 2
            &&& s1.consumed(w).consumed(v).boxes_freed == s.boxes_freed + 2
            &&& v is Error ==> s1.native_of(w) == s.native_of(v)
        }),
{
    let w = s.clone_value(v);
    let s1 = s.with_clone(v, c);
    let a = v.spec_address();
    let b = s.next_box();
    assert(!s.boxes.dom().contains(b));
    assert(s.boxes.dom().contains(a));
    assert(a != b);
    if v is Error {
        let t = s.error_text(a);
        lemma_with_error_clone_consistent(s, a);
        assert(s.texts[t].shares >= 1);
        assert(s1.holds_error(b));
        assert(s1.error_text(b) == t);
        assert(s1.texts[t].shares >= 2);
        assert(s1.consumed(v).consumed(w).boxes =~= s.boxes.remove(a));
        assert(s1.consumed(w).consumed(v).boxes =~= s.boxes.remove(a));
    } else {
        assert(s1.holds_handle(v.spec_tag(), b));
        assert(s1.consumed(v).consumed(w).boxes =~= s.boxes.remove(a));
        assert(s1.consumed(w).consumed(v).boxes =~= s.boxes.remove(a));
    }
}

/// A container gives its values back in the order in which they were
/// pushed: after two pushes on an empty container, the first pop gives the
/// first value, the second pop the second, and the third pop nil, with
/// nothing changed by it. A scalar comes back as it is, a boxed value in a
/// box of its own.
pub proof fn lemma_first_in_first_out<H>(
    s: BridgeState<H>,
    ptr: usize,
    a: GoLuaValue,
    b: GoLuaValue,
)
    requires
        s.wf(),
        s.has_room(2),
        s.holds_multivalue(ptr),
        s.multivalue_at(ptr).len() == 0,
    ensures
        ({
            let s1 = s.pushed(ptr, a);
            let s2 = s1.pushed(ptr, b);
            let s3 = s2.popped(ptr);
            let s4 = s3.popped(ptr);
            &&& s2.multivalue_at(ptr) == seq![s.native_of(a), s1.native_of(b)]
            &&& s3.native_of(s2.pop_value(ptr)) == s.native_of(a).crossed()
            &&& s4.native_of(s3.pop_value(ptr)) == s1.native_of(b).crossed()
            &&& s4.pop_value(ptr) == GoLuaValue::Nil
            &&& s4.popped(ptr) == s4
            &&& a.is_scalar() ==> s2.pop_value(ptr) == a
            &&& b.is_scalar() ==> s3.pop_value(ptr) == b
        }),
{
    let s1 = s.pushed(ptr, a);
    let s2 = s1.pushed(ptr, b);
    let s3 = s2.popped(ptr);
    let s4 = s3.popped(ptr);
    let x = s.native_of(a);
    let y = s1.native_of(b);
    lemma_consumed_keeps_others(s, a, ptr);
    assert(s1.holds_multivalue(ptr));
    assert(s1.multivalue_at(ptr) =~= seq![x]);
    lemma_consumed_keeps_others(s1, b, ptr);
    assert(s2.holds_multivalue(ptr));
    assert(s2.multivalue_at(ptr) =~= seq![x, y]);
    lemma_consumed_wf(s, a);
    assert(s1.wf());
    lemma_consumed_wf(s1, b);
    assert(s2.wf());
    assert(s2.has_room(2));
    assert(s2.can_pop(ptr));
    assert(s2.multivalue_at(ptr).first() == x);
    let r2 = s2.shifted(ptr);
    assert(r2.holds_multivalue(ptr));
    assert(r2.multivalue_at(ptr) =~= seq![y]);
    assert(r2.wf());
    lemma_native_of_nothing_is_plain(s, a);
    lemma_native_of_nothing_is_plain(s1, b);
    lemma_received_reads_back(r2, x);
    lemma_received_keeps_others(r2, x, ptr);
    lemma_received_wf(r2, x);
    assert(s3 == r2.received(x));
    assert(s3.multivalue_at(ptr) =~= seq![y]);
    assert(s3.can_pop(ptr));
    assert(s3.multivalue_at(ptr).first() == y);
    let r3 = s3.shifted(ptr);
    assert(r3.holds_multivalue(ptr));
    assert(r3.wf());
    assert(r3.has_room(1));
    assert(r3.multivalue_at(ptr) =~= Seq::<Native<H>>::empty());
    lemma_received_reads_back(r3, y);
    lemma_received_keeps_others(r3, y, ptr);
    assert(s4 == r3.received(y));
    assert(s4.multivalue_at(ptr) =~= Seq::<Native<H>>::empty());
    assert(!s4.can_pop(ptr));
    if a.is_scalar() {
        assert(r2.host_value(x) == a);
    }
    if b.is_scalar() {
        assert(r3.host_value(y) == b);
    }
}

/// What a value stands for is never of an unknown kind.
pub proof fn lemma_native_of_nothing_is_plain<H>(s: BridgeState<H>, v: GoLuaValue)
    ensures
        !(s.native_of(v) is Other),
{
}

/// Consuming a value leaves every container where it is.
pub proof fn lemma_consumed_keeps_others<H>(s: BridgeState<H>, v: GoLuaValue, ptr: usize)
    requires
        s.holds_multivalue(ptr),
    ensures
        s.consumed(v).holds_multivalue(ptr),
        s.consumed(v).multivalue_at(ptr) == s.multivalue_at(ptr),
{
}

/// Handing a value to the host leaves every container where it is.
pub proof fn lemma_received_keeps_others<H>(s: BridgeState<H>, x: Native<H>, ptr: usize)
    requires
        s.wf(),
        s.has_room(1),
        s.holds_multivalue(ptr),
    ensures
        s.received(x).holds_multivalue(ptr),
        s.received(x).multivalue_at(ptr) == s.multivalue_at(ptr),
{
    assert(!s.boxes.dom().contains(s.next_box()));
}

/// A value that was handed to the host reads back as it was, but for the
/// NUL bytes of an error's message.
pub proof fn lemma_received_reads_back<H>(s: BridgeState<H>, x: Native<H>)
    requires
        s.wf(),
        s.has_room(1),
        !(x is Other),
    ensures
        s.received(x).native_of(s.host_value(x)) == x.crossed(),
        x.handle() is None && !(x is Error) ==> s.native_of(s.host_value(x)) == x,
{
    lemma_owned_round_trip(s, x);
}

/// Consuming a value keeps the state well-formed.
pub proof fn lemma_consumed_wf<H>(s: BridgeState<H>, v: GoLuaValue)
    requires
        s.wf(),
    ensures
        s.consumed(v).wf(),
        s.consumed(v).boxes_made == s.boxes_made,
        s.consumed(v).texts_made == s.texts_made,
{
}

/// Handing a value to the host keeps the state well-formed.
pub proof fn lemma_received_wf<H>(s: BridgeState<H>, x: Native<H>)
    requires
        s.wf(),
        s.has_room(1),
    ensures
        s.received(x).wf(),
        s.received(x).boxes_made <= s.boxes_made + 1,
        s.received(x).texts_made <= s.texts_made + 1,
{
}

impl<H> BridgeState<H> {
    /// The state after the text at `t` got `n` more shares.
    pub open spec fn shared_times(self, t: usize, n: nat) -> Self
        decreases n,
    {
        if n == 0 {
            self
        } else {
            self.shared_times(t, (n - 1) as nat).shared(t)
        }
    }

    /// The state after `n` shares of the text at `t` were given up.
    pub open spec fn released_times(self, t: usize, n: nat) -> Self
        decreases n,
    {
        if n == 0 {
            self
        } else {
            self.released_times(t, (n - 1) as nat).released(t)
        }
    }
}

/// Sharing a text `n` times copies no bytes and counts the shares.
pub proof fn lemma_shared_times<H>(s: BridgeState<H>, t: usize, n: nat)
    requires
        s.texts.dom().contains(t),
        s.texts[t].shares + n <= usize::MAX,
    ensures
        s.shared_times(t, n).texts == s.texts.insert(
            t,
            TextView { bytes: s.texts[t].bytes, shares: s.texts[t].shares + n },
        ),
        s.shared_times(t, n).texts_made == s.texts_made,
        s.shared_times(t, n).texts_freed == s.texts_freed,
        s.shared_times(t, n).boxes == s.boxes,
        s.shared_times(t, n).boxes_made == s.boxes_made,
        s.shared_times(t, n).boxes_freed == s.boxes_freed,
    decreases n,
{
    if n == 0 {
        assert(s.texts =~= s.texts.insert(t, s.texts[t]));
    } else {
        lemma_shared_times(s, t, (n - 1) as nat);
        let before = s.shared_times(t, (n - 1) as nat);
        assert(before.can_share(t));
        assert(before.shared(t).texts =~= s.texts.insert(
            t,
            TextView { bytes: s.texts[t].bytes, shares: s.texts[t].shares + n },
        ));
    }
}

/// Giving up `m` of the shares of a text keeps the text as long as a share
/// is left, and frees it with the last one, once.
pub proof fn lemma_released_times<H>(s: BridgeState<H>, t: usize, m: nat)
    requires
        s.texts.dom().contains(t),
        1 <= s.texts[t].shares,
        m <= s.texts[t].shares,
    ensures
        s.released_times(t, m).texts_made == s.texts_made,
        s.released_times(t, m).boxes == s.boxes,
        s.released_times(t, m).boxes_made == s.boxes_made,
        s.released_times(t, m).boxes_freed == s.boxes_freed,
        m < s.texts[t].shares ==> s.released_times(t, m).texts == s.texts.insert(
            t,
            TextView { bytes: s.texts[t].bytes, shares: (s.texts[t].shares - m) as nat },
        ) && s.released_times(t, m).texts_freed == s.texts_freed,
        m == s.texts[t].shares ==> s.released_times(t, m).texts == s.texts.remove(t)
            && s.released_times(t, m).texts_freed == s.texts_freed + 1,
    decreases m,
{
    if m == 0 {
        assert(s.texts =~= s.texts.insert(t, s.texts[t]));
    } else {
        lemma_released_times(s, t, (m - 1) as nat);
        let before = s.released_times(t, (m - 1) as nat);
        assert(before.texts.dom().contains(t));
        if m < s.texts[t].shares {
            assert(before.released(t).texts =~= s.texts.insert(
                t,
                TextView { bytes: s.texts[t].bytes, shares: (s.texts[t].shares - m) as nat },
            ));
        } else {
            assert(before.released(t).texts =~= s.texts.remove(t));
        }
    }
}

/// A text that is shared by one error carrier, shared `n` more times and
/// then given up `n + 1` times, is allocated once and freed once: it is
/// still there, with the same bytes, after every release but the last, it
/// is gone after the last, and a release too many frees nothing.
pub proof fn lemma_text_freed_with_last_share<H>(s: BridgeState<H>, t: usize, n: nat, m: nat)
    requires
        s.texts.dom().contains(t),
        s.texts[t].shares == 1,
        n < usize::MAX,
        m <= n,
    ensures
        ({
            let shared = s.shared_times(t, n);
            let partly = shared.released_times(t, m);
            let wholly = shared.released_times(t, n + 1);
            &&& shared.texts_made == s.texts_made
            &&& shared.texts[t].shares == n + 1
            &&& partly.texts.dom().contains(t)
            &&& partly.texts[t].bytes == s.texts[t].bytes
            &&& partly.texts[t].shares == n + 1 - m
            &&& partly.texts_freed == s.texts_freed
            &&& !wholly.texts.dom().contains(t)
            &&& wholly.texts_freed == s.texts_freed + 1
            &&& wholly.texts_made == s.texts_made
            &&& wholly.released(t) == wholly
        }),
{
    lemma_shared_times(s, t, n);
    let shared = s.shared_times(t, n);
    lemma_released_times(shared, t, m);
    lemma_released_times(shared, t, n + 1);
}

/// Cloning an error carrier copies no bytes: the clone is a carrier of its
/// own for the same text, which has one share more.
pub proof fn lemma_carrier_clone_shares_text<H>(s: BridgeState<H>, e: usize)
    requires
        s.consistent(),
        s.has_room(1),
        s.holds_error(e),
    ensures
        ({
            let t = s.error_text(e);
            let after = s.with_error_clone(e);
            &&& after.holds_error(s.next_box())
            &&& after.holds_error(e)
            &&& s.next_box() != e
            &&& after.error_text(s.next_box()) == t
            &&& after.error_text(e) == t
            &&& after.texts == s.shared(t).texts
            &&& after.texts[t].bytes == s.texts[t].bytes
            &&& after.texts[t].shares == s.texts[t].shares + 1
            &&& after.texts_made == s.texts_made
            &&& after.texts_freed == s.texts_freed
        }),
{
    lemma_with_error_clone_consistent(s, e);
    assert(!s.boxes.dom().contains(s.next_box()));
}

/// Freeing an error carrier gives up one share of its text, and nothing
/// else of the texts changes.
pub proof fn lemma_carrier_free_releases_text<H>(s: BridgeState<H>, e: usize)
    requires
        s.holds_error(e),
    ensures
        !s.without_error(e).boxes.dom().contains(e),
        s.without_error(e).boxes_freed == s.boxes_freed + 1,
        s.without_error(e).texts == s.released(s.error_text(e)).texts,
        s.without_error(e).texts_freed == s.released(s.error_text(e)).texts_freed,
        s.without_error(e).texts_made == s.texts_made,
{
}

} // verus!
