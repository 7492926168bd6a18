//! Chunks of code and how they are loaded.

use crate::bridge::{BoxView, Boxed, Bridge, BridgeState};
use crate::compiler::CompilerOpts;
use crate::result::GoFunctionResult;
use crate::sharing::{lemma_with_box_consistent, lemma_without_box_consistent};
use crate::step::Step;
use crate::value::LuaValueType;
use vstd::prelude::*;
use vstd::slice::slice_to_vec;

verus! {

/// A buffer of bytes handed over by the host: the code of a chunk or its name.
#[derive(Debug, PartialEq, Eq)]
pub struct ChunkString {
    pub data: Vec<u8>,
}

impl View for ChunkString {
    type V = Seq<u8>;

    open spec fn view(&self) -> Seq<u8> {
        self.data@
    }
}

/// How the code of a chunk is to be read.
#[derive(Clone, Copy, Debug, PartialEq, Eq, Structural)]
pub enum ChunkMode {
    /// Source text.
    Text,
    /// Precompiled code.
    Binary,
}

/// What the host says about a chunk: the addresses of its name, of its
/// environment table and of its code, the number of its mode, and the
/// settings of the compiler. A null address, or `None`, leaves the choice to
/// the virtual machine; only the code must be there.
pub struct ChunkOpts {
    pub name: usize,
    pub env: usize,
    pub mode: u8,
    pub compiler_opts: Option<CompilerOpts>,
    pub code: usize,
}

/// What the virtual machine is asked to load.
#[derive(Debug, PartialEq, Eq)]
pub struct LoadRequest<H> {
    pub code: Vec<u8>,
    pub name: Option<String>,
    pub env: Option<H>,
    pub mode: ChunkMode,
    pub compiler: Option<CompilerOpts>,
}

/// The mode that the number `mode` names: one for precompiled code, zero
/// and every other number for source text.
pub open spec fn spec_chunk_mode(mode: u8) -> ChunkMode {
    if mode == 1 {
        ChunkMode::Binary
    } else {
        ChunkMode::Text
    }
}

/// The mode that the number `mode` names.
pub fn chunk_mode(mode: u8) -> (m: ChunkMode)
    ensures
        m == spec_chunk_mode(mode),
{
    match mode {
        0 => ChunkMode::Text,
        1 => ChunkMode::Binary,
        _ => ChunkMode::Text,
    }
}

/// The text that `String::from_utf8_lossy` gives for `bytes`.
pub uninterp spec fn utf8_lossy(bytes: Seq<u8>) -> Seq<char>;

/// Reads `bytes` as text with `String::from_utf8_lossy`, which puts the
/// replacement character in place of what is not well-formed UTF-8.
#[verifier::external_body]
fn text_lossy(bytes: &[u8]) -> (text: String)
    ensures
        text@ == utf8_lossy(bytes@),
{
    String::from_utf8_lossy(bytes).into_owned()
}

impl<H> BridgeState<H> {
    /// The state after the buffer at `addr` was freed, if there is one.
    pub open spec fn without_chunk(self, addr: usize) -> Self {
        if self.holds_chunk(addr) {
            self.without_box(addr)
        } else {
            self
        }
    }

    /// The state after a chunk was taken for loading: the buffer of its
    /// code is freed, and then that of its name.
    pub open spec fn chunk_taken(self, opts: ChunkOpts) -> Self {
        self.without_chunk(opts.code).without_chunk(opts.name)
    }

    /// The name under which the chunk is loaded.
    pub open spec fn chunk_name(self, opts: ChunkOpts) -> Option<Seq<char>> {
        if self.without_chunk(opts.code).holds_chunk(opts.name) {
            Some(utf8_lossy(self.chunk_at(opts.name)))
        } else {
            None
        }
    }
}

/// Copies the bytes `data` of the host into a fresh buffer. No bytes, or
/// none at all, give the null address.
pub fn luago_chunk_string_new<H>(bridge: &mut Bridge<H>, data: Option<&[u8]>) -> (addr: usize)
    requires
        old(bridge).wf(),
        old(bridge)@.has_box_room(1),
    ensures
        final(bridge).wf(),
        match data {
            Some(bytes) if bytes@.len() > 0 => addr == old(bridge)@.next_box() && final(bridge)@
                == old(bridge)@.with_box(BoxView::Chunk(bytes@)),
            _ => addr == 0 && final(bridge)@ == old(bridge)@,
        },
{
    match data {
        Some(bytes) => {
            if bytes.len() == 0 {
                0
            } else {
                proof {
                    lemma_with_box_consistent(bridge@, BoxView::Chunk(bytes@));
                }
                bridge.put(Boxed::Chunk(ChunkString { data: slice_to_vec(bytes) }))
            }
        },
        None => 0,
    }
}

/// Frees the buffer at `addr` and returns its bytes. Any other address is
/// left alone.
fn take_chunk<H>(bridge: &mut Bridge<H>, addr: usize) -> (data: Option<Vec<u8>>)
    requires
        old(bridge).wf(),
    ensures
        final(bridge).wf(),
        final(bridge)@ == old(bridge)@.without_chunk(addr),
        match data {
            Some(data) => old(bridge)@.holds_chunk(addr) && data@ == old(bridge)@.chunk_at(addr),
            None => !old(bridge)@.holds_chunk(addr),
        },
{
    let found = match bridge.peek(addr) {
        Some(Boxed::Chunk(_)) => true,
        _ => false,
    };
    if !found {
        return None;
    }
    proof {
        lemma_without_box_consistent(bridge@, addr);
    }
    match bridge.take(addr) {
        Some(Boxed::Chunk(c)) => Some(c.data),
        _ => None,
    }
}

/// Decides how a chunk is loaded. Without a virtual machine or without code
/// nothing is done and an error is returned. Otherwise the buffers of the
/// code and of the name are consumed, whatever comes of the loading, and the
/// virtual machine is asked to load the code: under the name if there is
/// one, in a clone of the environment table if there is one, in the mode
/// that `opts.mode` names, with the settings of the compiler if there are
/// any.
pub fn luago_load_chunk<H: Clone>(bridge: &mut Bridge<H>, vm: usize, opts: ChunkOpts) -> (step:
    Step<LoadRequest<H>, GoFunctionResult>)
    requires
        old(bridge).wf(),
    ensures
        final(bridge).wf(),
        match step {
            Step::Done(r) => (vm == 0 || !old(bridge)@.holds_chunk(opts.code)) && r.failed_with(
                "LuaVmWrapper pointer or ChunkOpts code is null"@,
            ) && final(bridge)@ == old(bridge)@,
            Step::Call(request) => {
                &&& vm != 0
                &&& old(bridge)@.holds_chunk(opts.code)
                &&& final(bridge)@ == old(bridge)@.chunk_taken(opts)
                &&& request.code@ == old(bridge)@.chunk_at(opts.code)
                &&& request.name is Some == old(bridge)@.chunk_name(opts) is Some
                &&& request.name is Some ==> request.name.unwrap()@ == old(bridge)@.chunk_name(
                    opts,
                ).unwrap()
                &&& request.env is Some == old(bridge)@.holds_handle(LuaValueType::Table, opts.env)
                &&& request.env is Some ==> cloned(
                    old(bridge)@.handle_at(opts.env),
                    request.env.unwrap(),
                )
                &&& request.mode == spec_chunk_mode(opts.mode)
                &&& request.compiler == opts.compiler_opts
            },
        },
{
    if vm == 0 {
        return Step::Done(
            GoFunctionResult::err("LuaVmWrapper pointer or ChunkOpts code is null".to_string()),
        );
    }
    let code = match take_chunk(bridge, opts.code) {
        Some(code) => code,
        None => {
            return Step::Done(
                GoFunctionResult::err(
                    "LuaVmWrapper pointer or ChunkOpts code is null".to_string(),
                ),
            );
        },
    };
    let name = match take_chunk(bridge, opts.name) {
        Some(name) => Some(text_lossy(name.as_slice())),
        None => None,
    };
    let env = match bridge.borrow_handle(LuaValueType::Table, opts.env) {
        Some(table) => Some(table.clone()),
        None => None,
    };
    Step::Call(
        LoadRequest { code, name, env, mode: chunk_mode(opts.mode), compiler: opts.compiler_opts },
    )
}

} // verus!
