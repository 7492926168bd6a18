//! The values that cross the boundary.
//!
//! A [`NativeValue`] is a value as the virtual machine holds it: scalars by
//! value, composite objects by a native handle of type `H`. A [`GoLuaValue`]
//! is the same value as the host sees it: scalars by value, composite objects
//! by the address of a box on the bridge heap.

use crate::bridge::{BoxView, Boxed, Bridge, BridgeState};
use crate::result::strip_nul;
use crate::sharing::{
    lemma_with_error_clone_consistent, lemma_with_error_consistent, lemma_without_error_consistent,
};
use crate::string::{is_utf8, LuaStringBytes};
use vstd::prelude::*;
use vstd::slice::slice_to_vec;

verus! {

/// The kind of a value.
#[derive(Clone, Copy, Debug, PartialEq, Eq, Structural)]
pub enum LuaValueType {
    Nil,
    Boolean,
    LightUserData,
    Integer,
    Number,
    Vector,
    String,
    Table,
    Function,
    Thread,
    UserData,
    Buffer,
    Error,
    Other,
}

impl LuaValueType {
    /// Whether a value of this kind crosses as a boxed native handle.
    pub open spec fn is_composite(self) -> bool {
        self == LuaValueType::String || self == LuaValueType::Table || self
            == LuaValueType::Function || self == LuaValueType::Thread || self
            == LuaValueType::UserData || self == LuaValueType::Buffer
    }

    /// The number that names the kind on the wire.
    pub open spec fn spec_code(self) -> u8 {
        match self {
            LuaValueType::Nil => 0,
            LuaValueType::Boolean => 1,
            LuaValueType::LightUserData => 2,
            LuaValueType::Integer => 3,
            LuaValueType::Number => 4,
            LuaValueType::Vector => 5,
            LuaValueType::String => 6,
            LuaValueType::Table => 7,
            LuaValueType::Function => 8,
            LuaValueType::Thread => 9,
            LuaValueType::UserData => 10,
            LuaValueType::Buffer => 11,
            LuaValueType::Error => 12,
            LuaValueType::Other => 13,
        }
    }

    /// The number that names the kind on the wire.
    pub fn code(self) -> (c: u8)
        ensures
            c == self.spec_code(),
    {
        match self {
            LuaValueType::Nil => 0,
            LuaValueType::Boolean => 1,
            LuaValueType::LightUserData => 2,
            LuaValueType::Integer => 3,
            LuaValueType::Number => 4,
            LuaValueType::Vector => 5,
            LuaValueType::String => 6,
            LuaValueType::Table => 7,
            LuaValueType::Function => 8,
            LuaValueType::Thread => 9,
            LuaValueType::UserData => 10,
            LuaValueType::Buffer => 11,
            LuaValueType::Error => 12,
            LuaValueType::Other => 13,
        }
    }

    /// The kind of a native value.
    pub fn from_value<H>(value: &NativeValue<H>) -> (kind: LuaValueType)
        ensures
            kind == value@.kind(),
    {
        match value {
            NativeValue::Nil => LuaValueType::Nil,
            NativeValue::Boolean(_) => LuaValueType::Boolean,
            NativeValue::LightUserData(_) => LuaValueType::LightUserData,
            NativeValue::Integer(_) => LuaValueType::Integer,
            NativeValue::Number(_) => LuaValueType::Number,
            NativeValue::Vector(_, _, _) => LuaValueType::Vector,
            NativeValue::String(_) => LuaValueType::String,
            NativeValue::Table(_) => LuaValueType::Table,
            NativeValue::Function(_) => LuaValueType::Function,
            NativeValue::Thread(_) => LuaValueType::Thread,
            NativeValue::UserData(_) => LuaValueType::UserData,
            NativeValue::Buffer(_) => LuaValueType::Buffer,
            NativeValue::Error(_) => LuaValueType::Error,
            NativeValue::Other => LuaValueType::Other,
        }
    }
}

/// A value as the virtual machine holds it.
///
/// A number is carried by its IEEE 754 bit pattern, a vector by the bit
/// patterns of its three components, an error by its formatted message.
#[derive(Debug, PartialEq, Eq)]
pub enum NativeValue<H> {
    Nil,
    Boolean(bool),
    LightUserData(usize),
    Integer(i64),
    Number(u64),
    Vector(u32, u32, u32),
    String(H),
    Table(H),
    Function(H),
    Thread(H),
    UserData(H),
    Buffer(H),
    Error(Vec<u8>),
    Other,
}

/// What a [`NativeValue`] is, with the message of an error as a sequence.
pub enum Native<H> {
    Nil,
    Boolean(bool),
    LightUserData(usize),
    Integer(i64),
    Number(u64),
    Vector(u32, u32, u32),
    String(H),
    Table(H),
    Function(H),
    Thread(H),
    UserData(H),
    Buffer(H),
    Error(Seq<u8>),
    Other,
}

impl<H> View for NativeValue<H> {
    type V = Native<H>;

    open spec fn view(&self) -> Native<H> {
        match *self {
            NativeValue::Nil => Native::Nil,
            NativeValue::Boolean(b) => Native::Boolean(b),
            NativeValue::LightUserData(p) => Native::LightUserData(p),
            NativeValue::Integer(i) => Native::Integer(i),
            NativeValue::Number(n) => Native::Number(n),
            NativeValue::Vector(x, y, z) => Native::Vector(x, y, z),
            NativeValue::String(h) => Native::String(h),
            NativeValue::Table(h) => Native::Table(h),
            NativeValue::Function(h) => Native::Function(h),
            NativeValue::Thread(h) => Native::Thread(h),
            NativeValue::UserData(h) => Native::UserData(h),
            NativeValue::Buffer(h) => Native::Buffer(h),
            NativeValue::Error(text) => Native::Error(text@),
            NativeValue::Other => Native::Other,
        }
    }
}

/// The bytes of `text` that are not NUL, in order.
pub open spec fn without_nul(text: Seq<u8>) -> Seq<u8> {
    text.filter(|b: u8| b != 0)
}

impl<H> Native<H> {
    pub open spec fn kind(self) -> LuaValueType {
        match self {
            Native::Nil => LuaValueType::Nil,
            Native::Boolean(_) => LuaValueType::Boolean,
            Native::LightUserData(_) => LuaValueType::LightUserData,
            Native::Integer(_) => LuaValueType::Integer,
            Native::Number(_) => LuaValueType::Number,
            Native::Vector(_, _, _) => LuaValueType::Vector,
            Native::String(_) => LuaValueType::String,
            Native::Table(_) => LuaValueType::Table,
            Native::Function(_) => LuaValueType::Function,
            Native::Thread(_) => LuaValueType::Thread,
            Native::UserData(_) => LuaValueType::UserData,
            Native::Buffer(_) => LuaValueType::Buffer,
            Native::Error(_) => LuaValueType::Error,
            Native::Other => LuaValueType::Other,
        }
    }

    /// The native handle of a composite value.
    pub open spec fn handle(self) -> Option<H> {
        match self {
            Native::String(h) => Some(h),
            Native::Table(h) => Some(h),
            Native::Function(h) => Some(h),
            Native::Thread(h) => Some(h),
            Native::UserData(h) => Some(h),
            Native::Buffer(h) => Some(h),
            _ => None,
        }
    }

    /// The composite value of kind `kind` with the native handle `h`.
    pub open spec fn composite(kind: LuaValueType, h: H) -> Native<H>
        recommends
            kind.is_composite(),
    {
        match kind {
            LuaValueType::String => Native::String(h),
            LuaValueType::Table => Native::Table(h),
            LuaValueType::Function => Native::Function(h),
            LuaValueType::Thread => Native::Thread(h),
            LuaValueType::UserData => Native::UserData(h),
            LuaValueType::Buffer => Native::Buffer(h),
            _ => Native::Nil,
        }
    }

    /// The value as it reads after one crossing: the message of an error
    /// loses its NUL bytes, every other value is kept.
    pub open spec fn crossed(self) -> Native<H> {
        match self {
            Native::Error(text) => Native::Error(without_nul(text)),
            other => other,
        }
    }
}

/// An error carrier: one share of an immutable text, by the text's address.
#[derive(Clone, Copy, Debug, PartialEq, Eq, Structural)]
pub struct ErrorVariant {
    pub error: usize,
}

/// A value as the host holds it: a scalar by value, a composite value or an
/// error by the address of its box, which is null where the host has none.
#[derive(Debug, PartialEq, Eq, Structural)]
pub enum GoLuaValue {
    Nil,
    Boolean(bool),
    LightUserData(usize),
    Integer(i64),
    Number(u64),
    Vector(u32, u32, u32),
    String(usize),
    Table(usize),
    Function(usize),
    Thread(usize),
    UserData(usize),
    Buffer(usize),
    Error(usize),
    Other,
}

impl GoLuaValue {
    pub open spec fn spec_tag(self) -> LuaValueType {
        match self {
            GoLuaValue::Nil => LuaValueType::Nil,
            GoLuaValue::Boolean(_) => LuaValueType::Boolean,
            GoLuaValue::LightUserData(_) => LuaValueType::LightUserData,
            GoLuaValue::Integer(_) => LuaValueType::Integer,
            GoLuaValue::Number(_) => LuaValueType::Number,
            GoLuaValue::Vector(_, _, _) => LuaValueType::Vector,
            GoLuaValue::String(_) => LuaValueType::String,
            GoLuaValue::Table(_) => LuaValueType::Table,
            GoLuaValue::Function(_) => LuaValueType::Function,
            GoLuaValue::Thread(_) => LuaValueType::Thread,
            GoLuaValue::UserData(_) => LuaValueType::UserData,
            GoLuaValue::Buffer(_) => LuaValueType::Buffer,
            GoLuaValue::Error(_) => LuaValueType::Error,
            GoLuaValue::Other => LuaValueType::Other,
        }
    }

    /// Whether the value is carried whole: nil, a truth value, a light
    /// user-data word, an integer, a number or a vector.
    pub open spec fn is_scalar(self) -> bool {
        !self.spec_tag().is_composite() && !(self is Error) && !(self is Other)
    }

    /// The address that the value carries, null for a scalar.
    pub open spec fn spec_address(self) -> usize {
        match self {
            GoLuaValue::String(a) => a,
            GoLuaValue::Table(a) => a,
            GoLuaValue::Function(a) => a,
            GoLuaValue::Thread(a) => a,
            GoLuaValue::UserData(a) => a,
            GoLuaValue::Buffer(a) => a,
            GoLuaValue::Error(a) => a,
            _ => 0,
        }
    }

    /// The value of composite kind `kind` whose box stands at `addr`.
    pub open spec fn spec_boxed(kind: LuaValueType, addr: usize) -> GoLuaValue
        recommends
            kind.is_composite(),
    {
        match kind {
            LuaValueType::String => GoLuaValue::String(addr),
            LuaValueType::Table => GoLuaValue::Table(addr),
            LuaValueType::Function => GoLuaValue::Function(addr),
            LuaValueType::Thread => GoLuaValue::Thread(addr),
            LuaValueType::UserData => GoLuaValue::UserData(addr),
            LuaValueType::Buffer => GoLuaValue::Buffer(addr),
            _ => GoLuaValue::Nil,
        }
    }

    /// The address that the value carries, null for a scalar.
    pub fn address(&self) -> (addr: usize)
        ensures
            addr == self.spec_address(),
    {
        match self {
            GoLuaValue::String(a) => *a,
            GoLuaValue::Table(a) => *a,
            GoLuaValue::Function(a) => *a,
            GoLuaValue::Thread(a) => *a,
            GoLuaValue::UserData(a) => *a,
            GoLuaValue::Buffer(a) => *a,
            GoLuaValue::Error(a) => *a,
            _ => 0,
        }
    }

    /// The value of composite kind `kind` whose box stands at `addr`; nil
    /// for any other kind.
    pub fn boxed(kind: LuaValueType, addr: usize) -> (v: GoLuaValue)
        ensures
            v == GoLuaValue::spec_boxed(kind, addr),
    {
        match kind {
            LuaValueType::String => GoLuaValue::String(addr),
            LuaValueType::Table => GoLuaValue::Table(addr),
            LuaValueType::Function => GoLuaValue::Function(addr),
            LuaValueType::Thread => GoLuaValue::Thread(addr),
            LuaValueType::UserData => GoLuaValue::UserData(addr),
            LuaValueType::Buffer => GoLuaValue::Buffer(addr),
            _ => GoLuaValue::Nil,
        }
    }

    /// The kind of the value.
    pub fn tag(&self) -> (kind: LuaValueType)
        ensures
            kind == self.spec_tag(),
    {
        match self {
            GoLuaValue::Nil => LuaValueType::Nil,
            GoLuaValue::Boolean(_) => LuaValueType::Boolean,
            GoLuaValue::LightUserData(_) => LuaValueType::LightUserData,
            GoLuaValue::Integer(_) => LuaValueType::Integer,
            GoLuaValue::Number(_) => LuaValueType::Number,
            GoLuaValue::Vector(_, _, _) => LuaValueType::Vector,
            GoLuaValue::String(_) => LuaValueType::String,
            GoLuaValue::Table(_) => LuaValueType::Table,
            GoLuaValue::Function(_) => LuaValueType::Function,
            GoLuaValue::Thread(_) => LuaValueType::Thread,
            GoLuaValue::UserData(_) => LuaValueType::UserData,
            GoLuaValue::Buffer(_) => LuaValueType::Buffer,
            GoLuaValue::Error(_) => LuaValueType::Error,
            GoLuaValue::Other => LuaValueType::Other,
        }
    }
}

impl<H: Clone> Native<H> {
    /// Whether the value is a clone of `source`: of the same kind, with a
    /// clone of its native handle or with the same scalar or message.
    pub open spec fn is_clone_of(self, source: Native<H>) -> bool {
        match (source.handle(), self.handle()) {
            (Some(a), Some(b)) => self.kind() == source.kind() && cloned(a, b),
            (None, None) => self == source,
            _ => false,
        }
    }
}

impl<H> BridgeState<H> {
    /// The state after an error carrier for a fresh text with the bytes
    /// `bytes` was made. The carrier stands at `self.next_box()`.
    pub open spec fn with_error(self, bytes: Seq<u8>) -> Self {
        self.with_text(bytes).with_box(BoxView::Error(self.next_text()))
    }

    /// The state after the error carrier at `addr` was freed, if there is
    /// one: its box is gone and its share of the text is given up.
    pub open spec fn without_error(self, addr: usize) -> Self {
        if self.holds_error(addr) {
            self.without_box(addr).released(self.error_text(addr))
        } else {
            self
        }
    }

    /// The message of the error carrier at `addr`.
    pub open spec fn error_bytes(self, addr: usize) -> Seq<u8>
        recommends
            self.holds_error(addr),
    {
        self.text_bytes(self.error_text(addr))
    }

    /// Whether `v` names a live box of its own kind.
    pub open spec fn holds_value(self, v: GoLuaValue) -> bool {
        if v is Error {
            self.holds_error(v.spec_address())
        } else {
            v.spec_tag().is_composite() && self.holds_handle(v.spec_tag(), v.spec_address())
        }
    }

    /// The native value that `v` stands for: a scalar stands for itself, the
    /// address of a live box for what the box holds, and anything else for
    /// nil.
    pub open spec fn native_of(self, v: GoLuaValue) -> Native<H> {
        match v {
            GoLuaValue::Nil => Native::Nil,
            GoLuaValue::Boolean(b) => Native::Boolean(b),
            GoLuaValue::LightUserData(p) => Native::LightUserData(p),
            GoLuaValue::Integer(i) => Native::Integer(i),
            GoLuaValue::Number(n) => Native::Number(n),
            GoLuaValue::Vector(x, y, z) => Native::Vector(x, y, z),
            GoLuaValue::Error(a) => if self.holds_error(a) {
                Native::Error(self.error_bytes(a))
            } else {
                Native::Nil
            },
            GoLuaValue::Other => Native::Nil,
            _ => if self.holds_value(v) {
                Native::composite(v.spec_tag(), self.handle_at(v.spec_address()))
            } else {
                Native::Nil
            },
        }
    }

    /// The state after `v` was consumed: the box that it names is freed.
    pub open spec fn consumed(self, v: GoLuaValue) -> Self {
        if !self.holds_value(v) {
            self
        } else if v is Error {
            self.without_error(v.spec_address())
        } else {
            self.without_box(v.spec_address())
        }
    }

    /// The value that the host gets for the native value `x`: a scalar by
    /// value, anything boxed by the address of the next box.
    pub open spec fn host_value(self, x: Native<H>) -> GoLuaValue {
        match x {
            Native::Nil => GoLuaValue::Nil,
            Native::Boolean(b) => GoLuaValue::Boolean(b),
            Native::LightUserData(p) => GoLuaValue::LightUserData(p),
            Native::Integer(i) => GoLuaValue::Integer(i),
            Native::Number(n) => GoLuaValue::Number(n),
            Native::Vector(x, y, z) => GoLuaValue::Vector(x, y, z),
            Native::Error(_) => GoLuaValue::Error(self.next_box()),
            Native::Other => GoLuaValue::Other,
            _ => GoLuaValue::spec_boxed(x.kind(), self.next_box()),
        }
    }

    /// The state after the native value `x` was handed to the host: a
    /// composite value has its handle in a fresh box, an error has a fresh
    /// carrier for its message without NUL bytes.
    pub open spec fn received(self, x: Native<H>) -> Self {
        match x {
            Native::Error(text) => self.with_error(without_nul(text)),
            _ => match x.handle() {
                Some(h) => self.with_box(BoxView::Handle(x.kind(), h)),
                None => self,
            },
        }
    }

    /// The value that the host gets for a clone of `v`.
    pub open spec fn clone_value(self, v: GoLuaValue) -> GoLuaValue {
        match v {
            GoLuaValue::Nil => GoLuaValue::Nil,
            GoLuaValue::Boolean(b) => GoLuaValue::Boolean(b),
            GoLuaValue::LightUserData(p) => GoLuaValue::LightUserData(p),
            GoLuaValue::Integer(i) => GoLuaValue::Integer(i),
            GoLuaValue::Number(n) => GoLuaValue::Number(n),
            GoLuaValue::Vector(x, y, z) => GoLuaValue::Vector(x, y, z),
            GoLuaValue::Error(a) => if self.holds_error(a) {
                GoLuaValue::Error(self.next_box())
            } else {
                GoLuaValue::Error(0)
            },
            GoLuaValue::Other => GoLuaValue::Other,
            _ => if self.holds_value(v) {
                GoLuaValue::spec_boxed(v.spec_tag(), self.next_box())
            } else {
                GoLuaValue::Nil
            },
        }
    }

    /// The state after `v` was cloned, where `c` is the clone of the native
    /// handle that `v` names: a composite value has `c` in a fresh box, an
    /// error has a fresh carrier, and nothing changes for any other value.
    pub open spec fn with_clone(self, v: GoLuaValue, c: H) -> Self {
        if !self.holds_value(v) {
            self
        } else if v is Error {
            self.with_error_clone(v.spec_address())
        } else {
            self.with_box(BoxView::Handle(v.spec_tag(), c))
        }
    }

    /// The state after the error carrier at `addr` was cloned: a fresh
    /// carrier shares its text, which has one share more.
    pub open spec fn with_error_clone(self, addr: usize) -> Self
        recommends
            self.holds_error(addr),
    {
        let t = self.error_text(addr);
        self.shared(t).with_box(BoxView::Error(t))
    }
}

impl<H> Bridge<H> {
    /// Makes an error carrier for a fresh text with the bytes `bytes`.
    pub fn new_error(&mut self, bytes: Vec<u8>) -> (addr: usize)
        requires
            old(self).wf(),
            old(self)@.has_room(1),
        ensures
            final(self).wf(),
            addr == old(self)@.next_box(),
            addr != 0,
            final(self)@ == old(self)@.with_error(bytes@),
    {
        proof {
            lemma_with_error_consistent(self@, bytes@);
        }
        let t = self.new_text(bytes);
        self.put(Boxed::Error(ErrorVariant { error: t }))
    }

    /// Frees the error carrier at `addr`. Any other address is left alone.
    pub fn free_error(&mut self, addr: usize) -> (freed: bool)
        requires
            old(self).wf(),
        ensures
            final(self).wf(),
            freed == old(self)@.holds_error(addr),
            final(self)@ == old(self)@.without_error(addr),
    {
        let text = match self.peek(addr) {
            Some(Boxed::Error(e)) => Some(e.error),
            _ => None,
        };
        proof {
            lemma_without_error_consistent(self@, addr);
        }
        match text {
            Some(t) => {
                let _ = self.take(addr);
                self.release_text(t);
                true
            },
            None => false,
        }
    }

    /// Borrows the message of the error carrier at `addr`.
    pub fn error_message(&self, addr: usize) -> (bytes: Option<&Vec<u8>>)
        requires
            self.wf(),
        ensures
            match bytes {
                Some(bytes) => self@.holds_error(addr) && bytes@ == self@.error_bytes(addr),
                None => !self@.holds_error(addr),
            },
    {
        match self.peek(addr) {
            Some(Boxed::Error(e)) => self.text(e.error),
            _ => None,
        }
    }

    /// Copies the message of the error carrier at `addr`.
    pub fn copy_error_message(&self, addr: usize) -> (bytes: Option<Vec<u8>>)
        requires
            self.wf(),
        ensures
            match bytes {
                Some(bytes) => self@.holds_error(addr) && bytes@ == self@.error_bytes(addr),
                None => !self@.holds_error(addr),
            },
    {
        match self.error_message(addr) {
            Some(bytes) => Some(slice_to_vec(bytes.as_slice())),
            None => None,
        }
    }
}

impl GoLuaValue {
    /// Hands the native value `value` to the host. The handle of a composite
    /// value moves into a fresh box that the host then owns; the message of
    /// an error is stored, without its NUL bytes, behind a fresh carrier.
    pub fn from_owned<H>(value: NativeValue<H>, bridge: &mut Bridge<H>) -> (v: GoLuaValue)
        requires
            old(bridge).wf(),
            old(bridge)@.has_room(1),
        ensures
            final(bridge).wf(),
            v == old(bridge)@.host_value(value@),
            final(bridge)@ == old(bridge)@.received(value@),
    {
        match value {
            NativeValue::Nil => GoLuaValue::Nil,
            NativeValue::Boolean(b) => GoLuaValue::Boolean(b),
            NativeValue::LightUserData(p) => GoLuaValue::LightUserData(p),
            NativeValue::Integer(i) => GoLuaValue::Integer(i),
            NativeValue::Number(n) => GoLuaValue::Number(n),
            NativeValue::Vector(x, y, z) => GoLuaValue::Vector(x, y, z),
            NativeValue::String(h) => GoLuaValue::String(
                bridge.box_handle(LuaValueType::String, h),
            ),
            NativeValue::Table(h) => GoLuaValue::Table(bridge.box_handle(LuaValueType::Table, h)),
            NativeValue::Function(h) => GoLuaValue::Function(
                bridge.box_handle(LuaValueType::Function, h),
            ),
            NativeValue::Thread(h) => GoLuaValue::Thread(
                bridge.box_handle(LuaValueType::Thread, h),
            ),
            NativeValue::UserData(h) => GoLuaValue::UserData(
                bridge.box_handle(LuaValueType::UserData, h),
            ),
            NativeValue::Buffer(h) => GoLuaValue::Buffer(
                bridge.box_handle(LuaValueType::Buffer, h),
            ),
            NativeValue::Error(text) => {
                let message = strip_nul(text.as_slice());
                GoLuaValue::Error(bridge.new_error(message))
            },
            NativeValue::Other => GoLuaValue::Other,
        }
    }

    /// Hands a clone of the native value `value` to the host: what
    /// [`GoLuaValue::from_owned`] does with a clone of `value`. The source
    /// is left to its owner.
    pub fn from_ref<H: Clone>(value: &NativeValue<H>, bridge: &mut Bridge<H>) -> (v: GoLuaValue)
        requires
            old(bridge).wf(),
            old(bridge)@.has_room(1),
        ensures
            final(bridge).wf(),
            v == old(bridge)@.host_value(value@),
            exists|copy: Native<H>| #[trigger]
                copy.is_clone_of(value@) && final(bridge)@ == old(bridge)@.received(copy),
    {
        let copy = clone_native(value);
        GoLuaValue::from_owned(copy, bridge)
    }

    /// Gives the native value back and frees the box that the host owned.
    /// A null or stale address reads as nil and frees nothing.
    pub fn to_value_from_owned<H>(self, bridge: &mut Bridge<H>) -> (value: NativeValue<H>)
        requires
            old(bridge).wf(),
        ensures
            final(bridge).wf(),
            value@ == old(bridge)@.native_of(self),
            final(bridge)@ == old(bridge)@.consumed(self),
    {
        match self {
            GoLuaValue::Nil => NativeValue::Nil,
            GoLuaValue::Boolean(b) => NativeValue::Boolean(b),
            GoLuaValue::LightUserData(p) => NativeValue::LightUserData(p),
            GoLuaValue::Integer(i) => NativeValue::Integer(i),
            GoLuaValue::Number(n) => NativeValue::Number(n),
            GoLuaValue::Vector(x, y, z) => NativeValue::Vector(x, y, z),
            GoLuaValue::String(a) => match bridge.unbox_handle(LuaValueType::String, a) {
                Some(h) => NativeValue::String(h),
                None => NativeValue::Nil,
            },
            GoLuaValue::Table(a) => match bridge.unbox_handle(LuaValueType::Table, a) {
                Some(h) => NativeValue::Table(h),
                None => NativeValue::Nil,
            },
            GoLuaValue::Function(a) => match bridge.unbox_handle(LuaValueType::Function, a) {
                Some(h) => NativeValue::Function(h),
                None => NativeValue::Nil,
            },
            GoLuaValue::Thread(a) => match bridge.unbox_handle(LuaValueType::Thread, a) {
                Some(h) => NativeValue::Thread(h),
                None => NativeValue::Nil,
            },
            GoLuaValue::UserData(a) => match bridge.unbox_handle(LuaValueType::UserData, a) {
                Some(h) => NativeValue::UserData(h),
                None => NativeValue::Nil,
            },
            GoLuaValue::Buffer(a) => match bridge.unbox_handle(LuaValueType::Buffer, a) {
                Some(h) => NativeValue::Buffer(h),
                None => NativeValue::Nil,
            },
            GoLuaValue::Error(a) => match bridge.copy_error_message(a) {
                Some(text) => {
                    bridge.free_error(a);
                    NativeValue::Error(text)
                },
                None => NativeValue::Nil,
            },
            GoLuaValue::Other => NativeValue::Nil,
        }
    }

    /// Gives a clone of the native value and frees nothing. A null or stale
    /// address reads as nil.
    pub fn to_value_from_ref<H: Clone>(&self, bridge: &Bridge<H>) -> (value: NativeValue<H>)
        requires
            bridge.wf(),
        ensures
            value@.is_clone_of(bridge@.native_of(*self)),
    {
        match self {
            GoLuaValue::Nil => NativeValue::Nil,
            GoLuaValue::Boolean(b) => NativeValue::Boolean(*b),
            GoLuaValue::LightUserData(p) => NativeValue::LightUserData(*p),
            GoLuaValue::Integer(i) => NativeValue::Integer(*i),
            GoLuaValue::Number(n) => NativeValue::Number(*n),
            GoLuaValue::Vector(x, y, z) => NativeValue::Vector(*x, *y, *z),
            GoLuaValue::String(a) => match bridge.borrow_handle(LuaValueType::String, *a) {
                Some(h) => NativeValue::String(h.clone()),
                None => NativeValue::Nil,
            },
            GoLuaValue::Table(a) => match bridge.borrow_handle(LuaValueType::Table, *a) {
                Some(h) => NativeValue::Table(h.clone()),
                None => NativeValue::Nil,
            },
            GoLuaValue::Function(a) => match bridge.borrow_handle(LuaValueType::Function, *a) {
                Some(h) => NativeValue::Function(h.clone()),
                None => NativeValue::Nil,
            },
            GoLuaValue::Thread(a) => match bridge.borrow_handle(LuaValueType::Thread, *a) {
                Some(h) => NativeValue::Thread(h.clone()),
                None => NativeValue::Nil,
            },
            GoLuaValue::UserData(a) => match bridge.borrow_handle(LuaValueType::UserData, *a) {
                Some(h) => NativeValue::UserData(h.clone()),
                None => NativeValue::Nil,
            },
            GoLuaValue::Buffer(a) => match bridge.borrow_handle(LuaValueType::Buffer, *a) {
                Some(h) => NativeValue::Buffer(h.clone()),
                None => NativeValue::Nil,
            },
            GoLuaValue::Error(a) => match bridge.copy_error_message(*a) {
                Some(text) => NativeValue::Error(text),
                None => NativeValue::Nil,
            },
            GoLuaValue::Other => NativeValue::Nil,
        }
    }
}

impl GoLuaValue {
    /// Clones the value. A scalar is copied. A composite value gets a box of
    /// its own with a clone of the native handle; a null or stale address
    /// gives nil. An error gets a carrier of its own that shares the text;
    /// a null or stale address gives an error with a null address.
    pub fn clone<H: Clone>(&self, bridge: &mut Bridge<H>) -> (copy: GoLuaValue)
        requires
            old(bridge).wf(),
            old(bridge)@.has_room(1),
        ensures
            final(bridge).wf(),
            copy == old(bridge)@.clone_value(*self),
            exists|c: H|
                {
                    &&& final(bridge)@ == #[trigger] old(bridge)@.with_clone(*self, c)
                    &&& old(bridge)@.holds_value(*self) && !(*self is Error) ==> cloned(
                        old(bridge)@.handle_at(self.spec_address()),
                        c,
                    )
                },
    {
        let copy = match self {
            GoLuaValue::Nil => GoLuaValue::Nil,
            GoLuaValue::Boolean(b) => GoLuaValue::Boolean(*b),
            GoLuaValue::LightUserData(p) => GoLuaValue::LightUserData(*p),
            GoLuaValue::Integer(i) => GoLuaValue::Integer(*i),
            GoLuaValue::Number(n) => GoLuaValue::Number(*n),
            GoLuaValue::Vector(x, y, z) => GoLuaValue::Vector(*x, *y, *z),
            GoLuaValue::String(_)
            | GoLuaValue::Table(_)
            | GoLuaValue::Function(_)
            | GoLuaValue::Thread(_)
            | GoLuaValue::UserData(_)
            | GoLuaValue::Buffer(_) => {
                let addr = clone_box(bridge, self.tag(), self.address());
                if addr == 0 {
                    GoLuaValue::Nil
                } else {
                    GoLuaValue::boxed(self.tag(), addr)
                }
            },
            GoLuaValue::Error(a) => GoLuaValue::Error(bridge.clone_error(*a)),
            GoLuaValue::Other => GoLuaValue::Other,
        };
        proof {
            if old(bridge)@.holds_value(*self) && !(*self is Error) {
                let c = choose|c: H|
                    cloned(old(bridge)@.handle_at(self.spec_address()), c) && bridge@
                        == #[trigger] old(bridge)@.with_box(BoxView::Handle(self.spec_tag(), c));
                assert(bridge@ == old(bridge)@.with_clone(*self, c));
            } else {
                assert(bridge@ == old(bridge)@.with_clone(*self, arbitrary()));
            }
        }
        copy
    }
}

/// Clones the native handle of kind `kind` in the box at `addr` into a fresh
/// box. Any other address gives null and changes nothing.
fn clone_box<H: Clone>(bridge: &mut Bridge<H>, kind: LuaValueType, addr: usize) -> (copy: usize)
    requires
        old(bridge).wf(),
        old(bridge)@.has_box_room(1),
    ensures
        final(bridge).wf(),
        copy == if old(bridge)@.holds_handle(kind, addr) {
            old(bridge)@.next_box()
        } else {
            0
        },
        old(bridge)@.holds_handle(kind, addr) ==> exists|c: H|
            cloned(old(bridge)@.handle_at(addr), c) && final(bridge)@ == #[trigger] old(
                bridge,
            )@.with_box(BoxView::Handle(kind, c)),
        !old(bridge)@.holds_handle(kind, addr) ==> final(bridge)@ == old(bridge)@,
{
    let c = match bridge.borrow_handle(kind, addr) {
        Some(h) => Some(h.clone()),
        None => None,
    };
    match c {
        Some(c) => bridge.box_handle(kind, c),
        None => 0,
    }
}

impl<H> Bridge<H> {
    /// Clones the error carrier at `addr`: a fresh carrier shares its text.
    /// Any other address gives null and changes nothing.
    pub fn clone_error(&mut self, addr: usize) -> (copy: usize)
        requires
            old(self).wf(),
            old(self)@.has_room(1),
        ensures
            final(self).wf(),
            copy == if old(self)@.holds_error(addr) {
                old(self)@.next_box()
            } else {
                0
            },
            final(self)@ == if old(self)@.holds_error(addr) {
                old(self)@.with_error_clone(addr)
            } else {
                old(self)@
            },
    {
        let text = match self.peek(addr) {
            Some(Boxed::Error(e)) => Some(e.error),
            _ => None,
        };
        proof {
            if self@.holds_error(addr) {
                lemma_with_error_clone_consistent(self@, addr);
            }
        }
        match text {
            None => 0,
            Some(t) => {
                self.share_text(t);
                self.put(Boxed::Error(ErrorVariant { error: t }))
            },
        }
    }
}

/// Clones a native value: the handle of a composite value is cloned, a
/// scalar or a message is copied.
pub fn clone_native<H: Clone>(value: &NativeValue<H>) -> (copy: NativeValue<H>)
    ensures
        copy@.is_clone_of(value@),
{
    match value {
        NativeValue::Nil => NativeValue::Nil,
        NativeValue::Boolean(b) => NativeValue::Boolean(*b),
        NativeValue::LightUserData(p) => NativeValue::LightUserData(*p),
        NativeValue::Integer(i) => NativeValue::Integer(*i),
        NativeValue::Number(n) => NativeValue::Number(*n),
        NativeValue::Vector(x, y, z) => NativeValue::Vector(*x, *y, *z),
        NativeValue::String(h) => NativeValue::String(h.clone()),
        NativeValue::Table(h) => NativeValue::Table(h.clone()),
        NativeValue::Function(h) => NativeValue::Function(h.clone()),
        NativeValue::Thread(h) => NativeValue::Thread(h.clone()),
        NativeValue::UserData(h) => NativeValue::UserData(h.clone()),
        NativeValue::Buffer(h) => NativeValue::Buffer(h.clone()),
        NativeValue::Error(text) => NativeValue::Error(slice_to_vec(text.as_slice())),
        NativeValue::Other => NativeValue::Other,
    }
}

/// Clones `value` as [`GoLuaValue::clone`] does: the host keeps `value` and
/// owns the clone besides.
pub fn luago_value_clone<H: Clone>(bridge: &mut Bridge<H>, value: &GoLuaValue) -> (copy: GoLuaValue)
    requires
        old(bridge).wf(),
        old(bridge)@.has_room(1),
    ensures
        final(bridge).wf(),
        copy == old(bridge)@.clone_value(*value),
        exists|c: H|
            {
                &&& final(bridge)@ == #[trigger] old(bridge)@.with_clone(*value, c)
                &&& old(bridge)@.holds_value(*value) && !(*value is Error) ==> cloned(
                    old(bridge)@.handle_at(value.spec_address()),
                    c,
                )
            },
{
    value.clone(bridge)
}

/// The text that stands in for a message that is not well-formed UTF-8.
pub open spec fn invalid_text() -> Seq<u8> {
    vstd::utf8::encode_utf8("Invalid error string"@)
}

/// The message of an error carrier as the host reads it: the bytes
/// themselves where they are well-formed UTF-8, a fixed text where not.
pub open spec fn readable(bytes: Seq<u8>) -> Seq<u8> {
    if vstd::utf8::valid_utf8(bytes) {
        bytes
    } else {
        invalid_text()
    }
}

/// Makes an error carrier for the message `error` of the host, without its
/// NUL bytes. No message, or an empty one, gives the null address.
pub fn luago_error_new<H>(bridge: &mut Bridge<H>, error: Option<&[u8]>) -> (addr: usize)
    requires
        old(bridge).wf(),
        old(bridge)@.has_room(1),
    ensures
        final(bridge).wf(),
        match error {
            Some(bytes) if bytes@.len() > 0 => addr == old(bridge)@.next_box() && final(bridge)@
                == old(bridge)@.with_error(without_nul(bytes@)),
            _ => addr == 0 && final(bridge)@ == old(bridge)@,
        },
{
    match error {
        Some(bytes) => {
            if bytes.len() == 0 {
                0
            } else {
                bridge.new_error(strip_nul(bytes))
            }
        },
        None => 0,
    }
}

/// The message of the error carrier at `error`, for the host to read. A
/// null or stale address gives the null pointer.
pub fn luago_error_get_string<'a, H>(bridge: &'a Bridge<H>, error: usize) -> (r: LuaStringBytes<'a>)
    requires
        bridge.wf(),
    ensures
        r.wf(),
        match r.data {
            Some(bytes) => bridge@.holds_error(error) && bytes@ == readable(
                bridge@.error_bytes(error),
            ),
            None => !bridge@.holds_error(error),
        },
{
    match bridge.error_message(error) {
        Some(bytes) => {
            if is_utf8(bytes.as_slice()) {
                LuaStringBytes::of(bytes.as_slice())
            } else {
                LuaStringBytes::of("Invalid error string".as_bytes())
            }
        },
        None => LuaStringBytes::null(),
    }
}

/// Frees the error carrier at `error` and gives up its share of the text.
/// A null or stale address is left alone.
pub fn luago_error_free<H>(bridge: &mut Bridge<H>, error: usize)
    requires
        old(bridge).wf(),
    ensures
        final(bridge).wf(),
        final(bridge)@ == old(bridge)@.without_error(error),
{
    bridge.free_error(error);
}

/// Three values of three kinds, for a host that tries the boundary out.
#[derive(Debug, PartialEq, Eq)]
pub struct DebugValue {
    pub values: [GoLuaValue; 3],
}

/// Hands the host a string, an error and an integer: the string is `string`,
/// which the virtual machine made for this.
pub fn luago_dbg_value<H>(bridge: &mut Bridge<H>, string: H) -> (r: DebugValue)
    requires
        old(bridge).wf(),
        old(bridge)@.has_room(2),
    ensures
        final(bridge).wf(),
        r.values@[0] == GoLuaValue::String(old(bridge)@.next_box()),
        r.values@[1] == GoLuaValue::Error((old(bridge)@.next_box() + 1) as usize),
        r.values@[2] == GoLuaValue::Integer(2939398),
        final(bridge)@ == old(bridge)@.with_box(
            BoxView::Handle(LuaValueType::String, string),
        ).with_error(vstd::utf8::encode_utf8("This is a test error"@)),
{
    let first = GoLuaValue::from_owned(NativeValue::String(string), bridge);
    let text = slice_to_vec("This is a test error".as_bytes());
    let second = GoLuaValue::Error(bridge.new_error(text));
    DebugValue { values: [first, second, GoLuaValue::Integer(2939398)] }
}

} // verus!
