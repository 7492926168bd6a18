//! The state of the bridge: the boxes that the host holds by address, and the
//! shared texts of the error carriers.
//!
//! Every operation of the library is described by a function on
//! [`BridgeState`], the mathematical model of a [`Bridge`].

use crate::chunk::ChunkString;
use crate::heap::Heap;
use crate::multivalue::GoMultiValue;
use crate::sharing::{lemma_empty_consistent, lemma_with_box_consistent, lemma_without_box_consistent};
use crate::value::{ErrorVariant, LuaValueType, Native};
use vstd::prelude::*;

verus! {

/// What one box holds.
pub enum Boxed<H> {
    /// One native handle of a composite kind.
    Handle(LuaValueType, H),
    /// An error carrier.
    Error(ErrorVariant),
    /// A container of values.
    MultiValue(GoMultiValue<H>),
    /// A buffer of bytes from the host.
    Chunk(ChunkString),
}

/// What a [`Boxed`] is.
pub enum BoxView<H> {
    Handle(LuaValueType, H),
    /// An error carrier, by the address of its text.
    Error(usize),
    MultiValue(Seq<Native<H>>),
    Chunk(Seq<u8>),
}

impl<H> View for Boxed<H> {
    type V = BoxView<H>;

    open spec fn view(&self) -> BoxView<H> {
        match *self {
            Boxed::Handle(kind, h) => BoxView::Handle(kind, h),
            Boxed::Error(e) => BoxView::Error(e.error),
            Boxed::MultiValue(mv) => BoxView::MultiValue(mv@),
            Boxed::Chunk(c) => BoxView::Chunk(c@),
        }
    }
}

/// An immutable text and the number of error carriers that share it.
pub struct SharedText {
    pub bytes: Vec<u8>,
    pub shares: usize,
}

/// What a [`SharedText`] is.
pub struct TextView {
    pub bytes: Seq<u8>,
    pub shares: nat,
}

impl View for SharedText {
    type V = TextView;

    open spec fn view(&self) -> TextView {
        TextView { bytes: self.bytes@, shares: self.shares as nat }
    }
}

/// The model of a bridge.
pub struct BridgeState<H> {
    /// The live boxes, by address.
    pub boxes: Map<usize, BoxView<H>>,
    /// The live shared texts, by address.
    pub texts: Map<usize, TextView>,
    /// How many boxes were ever allocated.
    pub boxes_made: nat,
    /// How many boxes were ever freed.
    pub boxes_freed: nat,
    /// How many texts were ever allocated.
    pub texts_made: nat,
    /// How many texts were ever freed.
    pub texts_freed: nat,
}

impl<H> BridgeState<H> {
    /// The state of a bridge that has allocated nothing yet.
    pub open spec fn empty() -> Self {
        BridgeState {
            boxes: Map::empty(),
            texts: Map::empty(),
            boxes_made: 0,
            boxes_freed: 0,
            texts_made: 0,
            texts_freed: 0,
        }
    }

    /// What holds of the state of every bridge: the addresses fit in a
    /// word, the live boxes and texts have addresses that were handed out,
    /// and every live text has a share.
    pub open spec fn wf(self) -> bool {
        &&& self.boxes_made < usize::MAX
        &&& self.texts_made < usize::MAX
        &&& forall|a: usize| #[trigger]
            self.boxes.dom().contains(a) ==> 1 <= a <= self.boxes_made
        &&& forall|t: usize| #[trigger]
            self.texts.dom().contains(t) ==> 1 <= t <= self.texts_made && self.texts[t].shares
                >= 1
    }

    /// Whether `n` more boxes can be allocated.
    pub open spec fn has_box_room(self, n: nat) -> bool {
        self.boxes_made + n < usize::MAX
    }

    /// Whether `n` more texts can be allocated.
    pub open spec fn has_text_room(self, n: nat) -> bool {
        self.texts_made + n < usize::MAX
    }

    /// Whether `n` more boxes and `n` more texts can be allocated.
    pub open spec fn has_room(self, n: nat) -> bool {
        self.has_box_room(n) && self.has_text_room(n)
    }

    /// The address that the next box gets.
    pub open spec fn next_box(self) -> usize {
        (self.boxes_made + 1) as usize
    }

    /// The address that the next text gets.
    pub open spec fn next_text(self) -> usize {
        (self.texts_made + 1) as usize
    }

    /// The state after `b` was put in a fresh box.
    pub open spec fn with_box(self, b: BoxView<H>) -> Self {
        BridgeState {
            boxes: self.boxes.insert(self.next_box(), b),
            boxes_made: self.boxes_made + 1,
            ..self
        }
    }

    /// The state after the box at `addr` was freed, if there is one.
    pub open spec fn without_box(self, addr: usize) -> Self {
        if self.boxes.dom().contains(addr) {
            BridgeState {
                boxes: self.boxes.remove(addr),
                boxes_freed: self.boxes_freed + 1,
                ..self
            }
        } else {
            self
        }
    }

    /// The state after the box at `addr` was given the content `b`.
    pub open spec fn with_content(self, addr: usize, b: BoxView<H>) -> Self {
        BridgeState { boxes: self.boxes.insert(addr, b), ..self }
    }

    /// The state after a fresh text with the bytes `bytes` and one share was
    /// allocated.
    pub open spec fn with_text(self, bytes: Seq<u8>) -> Self {
        BridgeState {
            texts: self.texts.insert(self.next_text(), TextView { bytes, shares: 1 }),
            texts_made: self.texts_made + 1,
            ..self
        }
    }

    /// Whether the text at `t` can take one more share.
    pub open spec fn can_share(self, t: usize) -> bool {
        self.texts.dom().contains(t) && self.texts[t].shares < usize::MAX
    }

    /// The state after the text at `t` got one more share.
    pub open spec fn shared(self, t: usize) -> Self {
        if self.can_share(t) {
            BridgeState {
                texts: self.texts.insert(
                    t,
                    TextView { shares: self.texts[t].shares + 1, ..self.texts[t] },
                ),
                ..self
            }
        } else {
            self
        }
    }

    /// The state after one share of the text at `t` was given up: the text is
    /// freed with its last share.
    pub open spec fn released(self, t: usize) -> Self {
        if !self.texts.dom().contains(t) {
            self
        } else if self.texts[t].shares <= 1 {
            BridgeState {
                texts: self.texts.remove(t),
                texts_freed: self.texts_freed + 1,
                ..self
            }
        } else {
            BridgeState {
                texts: self.texts.insert(
                    t,
                    TextView { shares: (self.texts[t].shares - 1) as nat, ..self.texts[t] },
                ),
                ..self
            }
        }
    }

    /// The bytes of the text at `t`, empty where there is none.
    pub open spec fn text_bytes(self, t: usize) -> Seq<u8> {
        if self.texts.dom().contains(t) {
            self.texts[t].bytes
        } else {
            Seq::empty()
        }
    }

    /// Whether a box with a native handle of kind `kind` stands at `addr`.
    pub open spec fn holds_handle(self, kind: LuaValueType, addr: usize) -> bool {
        self.boxes.dom().contains(addr) && self.boxes[addr] is Handle && self.boxes[addr]->Handle_0
            == kind
    }

    /// The native handle in the box at `addr`.
    pub open spec fn handle_at(self, addr: usize) -> H
        recommends
            self.boxes.dom().contains(addr),
            self.boxes[addr] is Handle,
    {
        self.boxes[addr]->Handle_1
    }

    /// Whether an error carrier stands at `addr`.
    pub open spec fn holds_error(self, addr: usize) -> bool {
        self.boxes.dom().contains(addr) && self.boxes[addr] is Error
    }

    /// The address of the text of the error carrier at `addr`.
    pub open spec fn error_text(self, addr: usize) -> usize
        recommends
            self.holds_error(addr),
    {
        self.boxes[addr]->Error_0
    }

    /// Whether a container of values stands at `addr`.
    pub open spec fn holds_multivalue(self, addr: usize) -> bool {
        self.boxes.dom().contains(addr) && self.boxes[addr] is MultiValue
    }

    /// The values in the container at `addr`.
    pub open spec fn multivalue_at(self, addr: usize) -> Seq<Native<H>>
        recommends
            self.holds_multivalue(addr),
    {
        self.boxes[addr]->MultiValue_0
    }

    /// Whether a buffer of bytes stands at `addr`.
    pub open spec fn holds_chunk(self, addr: usize) -> bool {
        self.boxes.dom().contains(addr) && self.boxes[addr] is Chunk
    }

    /// The bytes in the buffer at `addr`.
    pub open spec fn chunk_at(self, addr: usize) -> Seq<u8>
        recommends
            self.holds_chunk(addr),
    {
        self.boxes[addr]->Chunk_0
    }
}

/// The bridge: every box that the host holds an address of, and every text
/// that an error carrier shares.
pub struct Bridge<H> {
    boxes: Heap<Boxed<H>>,
    texts: Heap<SharedText>,
}

impl<H> View for Bridge<H> {
    type V = BridgeState<H>;

    closed spec fn view(&self) -> BridgeState<H> {
        BridgeState {
            boxes: self.boxes.live().map_values(|b: Boxed<H>| b@),
            texts: self.texts.live().map_values(|t: SharedText| t@),
            boxes_made: self.boxes.allocations(),
            boxes_freed: self.boxes.frees(),
            texts_made: self.texts.allocations(),
            texts_freed: self.texts.frees(),
        }
    }
}

impl<H> Bridge<H> {
    /// The bridge is well-formed: its counters are exact and its books of
    /// shared texts are in order.
    pub open spec fn wf(self) -> bool {
        self.heaps_wf() && self@.consistent()
    }

    /// The counters of the bridge are exact, and every live text has a
    /// share. This is all that the operations on single boxes and texts
    /// ask for and keep: whoever makes or frees an error carrier with them
    /// keeps the books of shared texts.
    pub closed spec fn heaps_wf(self) -> bool {
        &&& self.boxes.wf()
        &&& self.texts.wf()
        &&& forall|t: usize| #[trigger]
            self.texts.live().dom().contains(t) ==> self.texts.live()[t].shares >= 1
    }

    /// The state of a bridge is well-formed.
    pub proof fn lemma_view_wf(self)
        requires
            self.heaps_wf(),
        ensures
            self@.wf(),
    {
        self.boxes.lemma_allocations_bound();
        self.texts.lemma_allocations_bound();
        assert forall|a: usize| #[trigger] self@.boxes.dom().contains(a) implies 1 <= a
            <= self@.boxes_made by {
            self.boxes.lemma_live_bound(a);
        }
        assert forall|t: usize| #[trigger] self@.texts.dom().contains(t) implies 1 <= t
            <= self@.texts_made && self@.texts[t].shares >= 1 by {
            self.texts.lemma_live_bound(t);
            assert(self.texts.live().dom().contains(t));
        }
    }

    /// A bridge that has allocated nothing yet.
    pub fn new() -> (bridge: Self)
        ensures
            bridge.wf(),
            bridge@ == BridgeState::<H>::empty(),
    {
        let bridge = Bridge { boxes: Heap::new(), texts: Heap::new() };
        assert(bridge@.boxes =~= Map::empty());
        assert(bridge@.texts =~= Map::empty());
        proof {
            lemma_empty_consistent::<H>();
        }
        bridge
    }

    /// How many boxes were ever allocated.
    pub fn boxes_made(&self) -> (n: usize)
        requires
            self.heaps_wf(),
        ensures
            n == self@.boxes_made,
    {
        self.boxes.allocated()
    }

    /// How many boxes were ever freed.
    pub fn boxes_freed(&self) -> (n: usize)
        requires
            self.heaps_wf(),
        ensures
            n == self@.boxes_freed,
    {
        self.boxes.freed()
    }

    /// How many texts were ever allocated.
    pub fn texts_made(&self) -> (n: usize)
        requires
            self.heaps_wf(),
        ensures
            n == self@.texts_made,
    {
        self.texts.allocated()
    }

    /// How many texts were ever freed.
    pub fn texts_freed(&self) -> (n: usize)
        requires
            self.heaps_wf(),
        ensures
            n == self@.texts_freed,
    {
        self.texts.freed()
    }

    /// How many error carriers share the text at `t`: zero where there is
    /// no text.
    pub fn text_shares(&self, t: usize) -> (n: usize)
        requires
            self.heaps_wf(),
        ensures
            n == if self@.texts.dom().contains(t) {
                self@.texts[t].shares
            } else {
                0
            },
    {
        match self.texts.get(t) {
            Some(text) => text.shares,
            None => 0,
        }
    }

    /// Whether `n` more boxes and `n` more texts can be allocated.
    pub fn room_for(&self, n: usize) -> (enough: bool)
        requires
            self.heaps_wf(),
        ensures
            enough == self@.has_room(n as nat),
    {
        self.boxes.room_for(n) && self.texts.room_for(n)
    }

    /// Puts `b` in a fresh box and returns the box's address.
    pub(crate) fn put(&mut self, b: Boxed<H>) -> (addr: usize)
        requires
            old(self).heaps_wf(),
            old(self)@.has_box_room(1),
        ensures
            final(self).heaps_wf(),
            addr == old(self)@.next_box(),
            addr != 0,
            !old(self)@.boxes.dom().contains(addr),
            final(self)@ == old(self)@.with_box(b@),
    {
        let addr = self.boxes.allocate(b);
        assert(self@.boxes =~= old(self)@.boxes.insert(addr, b@));
        assert(self@.texts =~= old(self)@.texts);
        addr
    }

    /// Frees the box at `addr` and returns what it held.
    pub(crate) fn take(&mut self, addr: usize) -> (b: Option<Boxed<H>>)
        requires
            old(self).heaps_wf(),
        ensures
            final(self).heaps_wf(),
            final(self)@ == old(self)@.without_box(addr),
            match b {
                Some(b) => old(self)@.boxes.dom().contains(addr) && b@ == old(self)@.boxes[addr],
                None => !old(self)@.boxes.dom().contains(addr),
            },
    {
        let b = self.boxes.free(addr);
        assert(self@.boxes =~= old(self)@.boxes.remove(addr));
        assert(self@.texts =~= old(self)@.texts);
        if b.is_none() {
            assert(self@.boxes =~= old(self)@.boxes);
        }
        b
    }

    /// Borrows what the box at `addr` holds, to change it in place.
    pub(crate) fn peek_mut(&mut self, addr: usize) -> (b: Option<&mut Boxed<H>>)
        requires
            old(self).heaps_wf(),
        ensures
            final(self).heaps_wf(),
            match b {
                Some(b) => old(self)@.boxes.dom().contains(addr) && b@ == old(self)@.boxes[addr]
                    && final(self)@ == old(self)@.with_content(addr, final(b)@),
                None => !old(self)@.boxes.dom().contains(addr) && final(self)@ == old(self)@,
            },
    {
        let ghost before = self@;
        let ghost live = self.boxes.live();
        match self.boxes.get_mut(addr) {
            Some(slot) => {
                proof {
                    assert(live.insert(addr, *final(slot)).map_values(|b: Boxed<H>| b@)
                        =~= before.boxes.insert(addr, final(slot)@));
                }
                Some(slot)
            },
            None => None,
        }
    }

    /// Borrows what the box at `addr` holds.
    pub fn peek(&self, addr: usize) -> (b: Option<&Boxed<H>>)
        requires
            self.heaps_wf(),
        ensures
            match b {
                Some(b) => self@.boxes.dom().contains(addr) && b@ == self@.boxes[addr],
                None => !self@.boxes.dom().contains(addr),
            },
    {
        self.boxes.get(addr)
    }

    /// Allocates a text with the bytes `bytes` and one share.
    pub(crate) fn new_text(&mut self, bytes: Vec<u8>) -> (t: usize)
        requires
            old(self).heaps_wf(),
            old(self)@.has_text_room(1),
        ensures
            final(self).heaps_wf(),
            t == old(self)@.next_text(),
            t != 0,
            !old(self)@.texts.dom().contains(t),
            final(self)@ == old(self)@.with_text(bytes@),
    {
        let text = SharedText { bytes, shares: 1 };
        let t = self.texts.allocate(text);
        assert(self@.texts =~= old(self)@.texts.insert(t, text@));
        assert(self@.boxes =~= old(self)@.boxes);
        t
    }

    /// Gives the text at `t` one more share, where it can take one.
    pub(crate) fn share_text(&mut self, t: usize) -> (done: bool)
        requires
            old(self).heaps_wf(),
        ensures
            final(self).heaps_wf(),
            done == old(self)@.can_share(t),
            final(self)@ == old(self)@.shared(t),
    {
        let done = match self.texts.get_mut(t) {
            Some(text) => {
                if text.shares < usize::MAX {
                    text.shares = text.shares + 1;
                    true
                } else {
                    false
                }
            },
            None => false,
        };
        assert(self@.boxes =~= old(self)@.boxes);
        assert(self@.texts =~= old(self)@.shared(t).texts);
        done
    }

    /// Gives up one share of the text at `t`, and frees the text with its
    /// last share.
    pub(crate) fn release_text(&mut self, t: usize)
        requires
            old(self).heaps_wf(),
        ensures
            final(self).heaps_wf(),
            final(self)@ == old(self)@.released(t),
    {
        let last = match self.texts.get_mut(t) {
            Some(text) => {
                if text.shares <= 1 {
                    true
                } else {
                    text.shares = text.shares - 1;
                    false
                }
            },
            None => false,
        };
        if last {
            let _ = self.texts.free(t);
        }
        assert(self@.boxes =~= old(self)@.boxes);
        assert(self@.texts =~= old(self)@.released(t).texts);
    }

    /// Borrows the bytes of the text at `t`.
    pub fn text(&self, t: usize) -> (bytes: Option<&Vec<u8>>)
        requires
            self.heaps_wf(),
        ensures
            match bytes {
                Some(bytes) => self@.texts.dom().contains(t) && bytes@ == self@.texts[t].bytes,
                None => !self@.texts.dom().contains(t),
            },
    {
        match self.texts.get(t) {
            Some(text) => Some(&text.bytes),
            None => None,
        }
    }

    /// Puts the native handle `h` of kind `kind` in a fresh box.
    pub fn box_handle(&mut self, kind: LuaValueType, h: H) -> (addr: usize)
        requires
            old(self).wf(),
            old(self)@.has_box_room(1),
        ensures
            final(self).wf(),
            addr == old(self)@.next_box(),
            addr != 0,
            final(self)@ == old(self)@.with_box(BoxView::Handle(kind, h)),
    {
        proof {
            lemma_with_box_consistent(self@, BoxView::Handle(kind, h));
        }
        self.put(Boxed::Handle(kind, h))
    }

    /// Frees the box at `addr` if it holds a native handle of kind `kind`,
    /// and returns the handle. Any other address is left alone.
    pub fn unbox_handle(&mut self, kind: LuaValueType, addr: usize) -> (h: Option<H>)
        requires
            old(self).wf(),
        ensures
            final(self).wf(),
            match h {
                Some(h) => old(self)@.holds_handle(kind, addr) && h == old(self)@.handle_at(addr)
                    && final(self)@ == old(self)@.without_box(addr),
                None => !old(self)@.holds_handle(kind, addr) && final(self)@ == old(self)@,
            },
    {
        let found = match self.peek(addr) {
            Some(Boxed::Handle(k, _)) => *k == kind,
            _ => false,
        };
        if !found {
            return None;
        }
        proof {
            lemma_without_box_consistent(self@, addr);
        }
        match self.take(addr) {
            Some(Boxed::Handle(_, h)) => Some(h),
            _ => None,
        }
    }

    /// Borrows the native handle of kind `kind` in the box at `addr`.
    pub fn borrow_handle(&self, kind: LuaValueType, addr: usize) -> (h: Option<&H>)
        requires
            self.wf(),
        ensures
            match h {
                Some(h) => self@.holds_handle(kind, addr) && *h == self@.handle_at(addr),
                None => !self@.holds_handle(kind, addr),
            },
    {
        match self.peek(addr) {
            Some(Boxed::Handle(k, h)) => {
                if *k == kind {
                    Some(h)
                } else {
                    None
                }
            },
            _ => None,
        }
    }
}

} // verus!
