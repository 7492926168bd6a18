//! The bookkeeping of shared texts: every text counts the error carriers
//! that share it, and every carrier has its text.
//!
//! The operations that make, clone and free carriers keep these books, and
//! so does every operation that leaves the carriers alone.

use crate::bridge::{BoxView, BridgeState};
use crate::chunk::ChunkOpts;
use crate::function::FunctionCallbackData;
use crate::value::{GoLuaValue, LuaValueType, Native};
use vstd::prelude::*;

verus! {

impl<H> BridgeState<H> {
    /// The error carriers that share the text at `t`.
    pub open spec fn carriers(self, t: usize) -> Set<usize> {
        Set::new(|e: usize| self.holds_error(e) && self.error_text(e) == t)
    }

    /// The books are in order: the state is well-formed, every error
    /// carrier has a live text, and every live text has as many shares as
    /// there are carriers of it.
    pub open spec fn consistent(self) -> bool {
        &&& self.wf()
        &&& forall|e: usize| #[trigger]
            self.holds_error(e) ==> self.texts.dom().contains(self.error_text(e))
        &&& forall|t: usize| #[trigger]
            self.texts.dom().contains(t) ==> self.carriers(t).finite() && self.carriers(t).len()
                == self.texts[t].shares
    }
}

/// A bridge that has allocated nothing has its books in order.
pub proof fn lemma_empty_consistent<H>()
    ensures
        BridgeState::<H>::empty().consistent(),
{
}

/// A fresh box that holds no error carrier keeps the books in order.
pub proof fn lemma_with_box_consistent<H>(s: BridgeState<H>, b: BoxView<H>)
    requires
        s.consistent(),
        s.has_box_room(1),
        !(b is Error),
    ensures
        s.with_box(b).consistent(),
{
    let after = s.with_box(b);
    assert(!s.boxes.dom().contains(s.next_box()));
    assert forall|e: usize| #[trigger] after.holds_error(e) implies after.texts.dom().contains(
        after.error_text(e),
    ) by {
        assert(s.holds_error(e));
    }
    assert forall|t: usize| #[trigger] after.texts.dom().contains(t) implies after.carriers(
        t,
    ).finite() && after.carriers(t).len() == after.texts[t].shares by {
        assert(after.carriers(t) =~= s.carriers(t));
    }
}

/// Freeing a box that holds no error carrier keeps the books in order.
pub proof fn lemma_without_box_consistent<H>(s: BridgeState<H>, addr: usize)
    requires
        s.consistent(),
        !s.holds_error(addr),
    ensures
        s.without_box(addr).consistent(),
{
    let after = s.without_box(addr);
    assert forall|e: usize| #[trigger] after.holds_error(e) implies after.texts.dom().contains(
        after.error_text(e),
    ) by {
        assert(s.holds_error(e));
    }
    assert forall|t: usize| #[trigger] after.texts.dom().contains(t) implies after.carriers(
        t,
    ).finite() && after.carriers(t).len() == after.texts[t].shares by {
        assert(after.carriers(t) =~= s.carriers(t));
    }
}

/// A change of what a box holds keeps the books in order, as long as the
/// box holds no error carrier before or after.
pub proof fn lemma_with_content_consistent<H>(s: BridgeState<H>, addr: usize, b: BoxView<H>)
    requires
        s.consistent(),
        s.boxes.dom().contains(addr),
        !s.holds_error(addr),
        !(b is Error),
    ensures
        s.with_content(addr, b).consistent(),
{
    let after = s.with_content(addr, b);
    assert forall|e: usize| #[trigger] after.holds_error(e) implies after.texts.dom().contains(
        after.error_text(e),
    ) by {
        assert(s.holds_error(e));
    }
    assert forall|t: usize| #[trigger] after.texts.dom().contains(t) implies after.carriers(
        t,
    ).finite() && after.carriers(t).len() == after.texts[t].shares by {
        assert(after.carriers(t) =~= s.carriers(t));
    }
}

/// A new error carrier with a text of its own keeps the books in order: the
/// text has one share, that of the carrier.
pub proof fn lemma_with_error_consistent<H>(s: BridgeState<H>, bytes: Seq<u8>)
    requires
        s.consistent(),
        s.has_room(1),
    ensures
        s.with_error(bytes).consistent(),
        s.with_error(bytes).carriers(s.next_text()) == set![s.next_box()],
{
    let after = s.with_error(bytes);
    let e = s.next_box();
    let t = s.next_text();
    assert(!s.boxes.dom().contains(e));
    assert(!s.texts.dom().contains(t));
    assert(after.holds_error(e) && after.error_text(e) == t);
    assert forall|c: usize| #[trigger] after.holds_error(c) implies after.texts.dom().contains(
        after.error_text(c),
    ) by {
        if c != e {
            assert(s.holds_error(c));
        }
    }
    assert forall|u: usize| #[trigger] after.texts.dom().contains(u) implies after.carriers(
        u,
    ).finite() && after.carriers(u).len() == after.texts[u].shares by {
        if u == t {
            assert forall|c: usize| after.carriers(t).contains(c) implies c == e by {
                if c != e {
                    assert(s.holds_error(c));
                }
            }
            assert(after.carriers(t) =~= set![e]);
        } else {
            assert(after.carriers(u) =~= s.carriers(u));
        }
    }
    assert(after.texts.dom().contains(t));
    assert(after.carriers(t) =~= set![e]) by {
        assert forall|c: usize| after.carriers(t).contains(c) implies c == e by {
            if c != e {
                assert(s.holds_error(c));
            }
        }
    }
}

/// A clone of an error carrier keeps the books in order: the text has one
/// share more, that of the clone.
pub proof fn lemma_with_error_clone_consistent<H>(s: BridgeState<H>, e: usize)
    requires
        s.consistent(),
        s.has_room(1),
        s.holds_error(e),
    ensures
        s.with_error_clone(e).consistent(),
        s.can_share(s.error_text(e)),
        s.with_error_clone(e).carriers(s.error_text(e)) == s.carriers(s.error_text(e)).insert(
            s.next_box(),
        ),
        s.with_error_clone(e).texts[s.error_text(e)].shares == s.texts[s.error_text(e)].shares
            + 1,
        s.with_error_clone(e).texts_made == s.texts_made,
{
    let t = s.error_text(e);
    let b = s.next_box();
    assert(s.texts.dom().contains(t));
    lemma_carriers_bounded(s, t);
    assert(s.can_share(t));
    let after = s.with_error_clone(e);
    assert(after == s.shared(t).with_box(BoxView::Error(t)));
    assert(!s.boxes.dom().contains(b));
    assert(after.holds_error(b) && after.error_text(b) == t);
    assert forall|c: usize| #[trigger] after.holds_error(c) implies after.texts.dom().contains(
        after.error_text(c),
    ) by {
        if c != b {
            assert(s.holds_error(c));
        }
    }
    assert forall|u: usize| #[trigger] after.texts.dom().contains(u) implies after.carriers(
        u,
    ).finite() && after.carriers(u).len() == after.texts[u].shares by {
        if u == t {
            assert(after.carriers(t) =~= s.carriers(t).insert(b));
            assert(!s.carriers(t).contains(b));
        } else {
            assert(after.carriers(u) =~= s.carriers(u));
        }
    }
    assert(after.carriers(t) =~= s.carriers(t).insert(b));
}

/// A text never has more carriers than boxes were made.
pub proof fn lemma_carriers_bounded<H>(s: BridgeState<H>, t: usize)
    requires
        s.consistent(),
        s.texts.dom().contains(t),
    ensures
        s.texts[t].shares <= s.boxes_made,
{
    let upto = Set::new(|a: usize| 1 <= a <= s.boxes_made);
    lemma_addresses_counted(s.boxes_made);
    vstd::set_lib::lemma_len_subset(s.carriers(t), upto);
}

/// There are `n` addresses from one to `n`.
pub proof fn lemma_addresses_counted(n: nat)
    requires
        n <= usize::MAX,
    ensures
        Set::new(|a: usize| 1 <= a <= n).finite(),
        Set::new(|a: usize| 1 <= a <= n).len() == n,
    decreases n,
{
    let upto = Set::new(|a: usize| 1 <= a <= n);
    if n == 0 {
        assert(upto =~= Set::<usize>::empty());
    } else {
        let before = Set::new(|a: usize| 1 <= a <= n - 1);
        lemma_addresses_counted((n - 1) as nat);
        assert(upto =~= before.insert(n as usize));
        assert(!before.contains(n as usize));
    }
}

/// Freeing an error carrier keeps the books in order: the text has one
/// share fewer, and is gone with the last one.
pub proof fn lemma_without_error_consistent<H>(s: BridgeState<H>, e: usize)
    requires
        s.consistent(),
    ensures
        s.without_error(e).consistent(),
        s.holds_error(e) ==> {
            let t = s.error_text(e);
            &&& s.texts[t].shares > 1 ==> s.without_error(e).texts.dom().contains(t)
                && s.without_error(e).texts[t].shares == s.texts[t].shares - 1 && s.without_error(
                e,
            ).texts_freed == s.texts_freed
            &&& s.texts[t].shares == 1 ==> !s.without_error(e).texts.dom().contains(t)
                && s.without_error(e).texts_freed == s.texts_freed + 1
        },
{
    if s.holds_error(e) {
        let t = s.error_text(e);
        let unboxed = s.without_box(e);
        let after = s.without_error(e);
        assert(s.texts.dom().contains(t));
        assert(s.carriers(t).contains(e));
        assert(unboxed.carriers(t) =~= s.carriers(t).remove(e));
        assert forall|c: usize| #[trigger] after.holds_error(c) implies after.texts.dom().contains(
            after.error_text(c),
        ) by {
            assert(s.holds_error(c));
            if after.error_text(c) == t {
                assert(unboxed.carriers(t).contains(c));
                if s.texts[t].shares <= 1 {
                    assert(unboxed.carriers(t).len() == 0);
                    unboxed.carriers(t).lemma_len0_is_empty();
                }
            }
        }
        assert forall|u: usize| #[trigger] after.texts.dom().contains(u) implies after.carriers(
            u,
        ).finite() && after.carriers(u).len() == after.texts[u].shares by {
            if u == t {
                assert(after.carriers(t) =~= s.carriers(t).remove(e));
            } else {
                assert(after.carriers(u) =~= s.carriers(u));
            }
        }
    }
}

/// Handing a value to the host keeps the books in order.
pub proof fn lemma_received_consistent<H>(s: BridgeState<H>, x: Native<H>)
    requires
        s.consistent(),
        s.has_room(1),
    ensures
        s.received(x).consistent(),
{
    match x {
        Native::Error(text) => {
            lemma_with_error_consistent(s, crate::value::without_nul(text));
        },
        _ => {
            if x.handle() is Some {
                lemma_with_box_consistent(s, BoxView::Handle(x.kind(), x.handle().unwrap()));
            }
        },
    }
}

/// Consuming a value keeps the books in order.
pub proof fn lemma_consumed_consistent<H>(s: BridgeState<H>, v: GoLuaValue)
    requires
        s.consistent(),
    ensures
        s.consumed(v).consistent(),
{
    if s.holds_value(v) {
        if v is Error {
            lemma_without_error_consistent(s, v.spec_address());
        } else {
            lemma_without_box_consistent(s, v.spec_address());
        }
    }
}

/// Cloning a value keeps the books in order.
pub proof fn lemma_with_clone_consistent<H>(s: BridgeState<H>, v: GoLuaValue, c: H)
    requires
        s.consistent(),
        s.has_room(1),
    ensures
        s.with_clone(v, c).consistent(),
{
    if s.holds_value(v) {
        if v is Error {
            lemma_with_error_clone_consistent(s, v.spec_address());
        } else {
            lemma_with_box_consistent(s, BoxView::Handle(v.spec_tag(), c));
        }
    }
}

/// A push on a container keeps the books in order.
pub proof fn lemma_pushed_consistent<H>(s: BridgeState<H>, ptr: usize, v: GoLuaValue)
    requires
        s.consistent(),
    ensures
        s.pushed(ptr, v).consistent(),
{
    if s.holds_multivalue(ptr) {
        lemma_consumed_consistent(s, v);
        lemma_with_content_consistent(
            s.consumed(v),
            ptr,
            BoxView::MultiValue(s.multivalue_at(ptr).push(s.native_of(v))),
        );
    }
}

/// A pop from a container keeps the books in order.
pub proof fn lemma_popped_consistent<H>(s: BridgeState<H>, ptr: usize)
    requires
        s.consistent(),
        s.has_room(1),
    ensures
        s.popped(ptr).consistent(),
{
    if s.can_pop(ptr) {
        lemma_with_content_consistent(
            s,
            ptr,
            BoxView::MultiValue(s.multivalue_at(ptr).drop_first()),
        );
        lemma_received_consistent(s.shifted(ptr), s.multivalue_at(ptr).first());
    }
}

/// Freeing the box of a native handle keeps the books in order.
pub proof fn lemma_without_handle_consistent<H>(s: BridgeState<H>, kind: LuaValueType, addr: usize)
    requires
        s.consistent(),
    ensures
        s.without_handle(kind, addr).consistent(),
{
    if s.holds_handle(kind, addr) {
        lemma_without_box_consistent(s, addr);
    }
}

/// Freeing a container keeps the books in order.
pub proof fn lemma_without_multivalue_consistent<H>(s: BridgeState<H>, addr: usize)
    requires
        s.consistent(),
    ensures
        s.without_multivalue(addr).consistent(),
{
    if s.holds_multivalue(addr) {
        lemma_without_box_consistent(s, addr);
    }
}

/// Taking a chunk for loading keeps the books in order.
pub proof fn lemma_chunk_taken_consistent<H>(s: BridgeState<H>, opts: ChunkOpts)
    requires
        s.consistent(),
    ensures
        s.chunk_taken(opts).consistent(),
{
    if s.holds_chunk(opts.code) {
        lemma_without_box_consistent(s, opts.code);
    }
    let after = s.without_chunk(opts.code);
    if after.holds_chunk(opts.name) {
        lemma_without_box_consistent(after, opts.name);
    }
}

/// The end of a call of a function of the host keeps the books in order.
pub proof fn lemma_call_left_consistent<H>(s: BridgeState<H>, data: FunctionCallbackData)
    requires
        s.consistent(),
    ensures
        s.call_left(data).consistent(),
{
    lemma_without_multivalue_consistent(s, data.args);
    let first = s.without_multivalue(data.args);
    lemma_without_multivalue_consistent(first, data.values);
    lemma_without_error_consistent(first.without_multivalue(data.values), data.error);
}

} // verus!
