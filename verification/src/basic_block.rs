//! Basic blocks: the labeled runs of instructions that make up a function.

use crate::call::{Call, CallView};
use crate::handle::{handle_at, Handle};
use crate::value::{value_at, Value};
use vstd::prelude::*;

verus! {

/// A basic block. It is a handle on an object that its function owns.
#[derive(Debug, Clone, Copy, PartialEq, Eq, Structural)]
pub struct BasicBlock {
    handle: Handle,
}

impl View for BasicBlock {
    type V = usize;

    /// The address that the handle holds.
    closed spec fn view(&self) -> usize {
        self.handle@
    }
}

/// The block whose handle holds `pointer`.
pub closed spec fn block_at(pointer: usize) -> BasicBlock {
    BasicBlock { handle: handle_at(pointer) }
}

/// A block is nothing but the address its handle holds.
pub proof fn lemma_block_is_its_address(block: BasicBlock)
    ensures
        block_at(block@) == block,
        forall|pointer: usize| #[trigger] block_at(pointer)@ == pointer,
{
    crate::handle::lemma_handle_is_its_address(block.handle);
    assert forall|pointer: usize| #[trigger] block_at(pointer)@ == pointer by {
        crate::handle::lemma_handle_holds_its_address(pointer);
    }
}

/// What a reply about a block's terminator says: a null address is no
/// terminator, any other is the terminating instruction at that address.
pub open spec fn terminator_of_reply(pointer: usize) -> Option<Value> {
    if pointer == 0 {
        None
    } else {
        Some(value_at(pointer))
    }
}

impl BasicBlock {
    /// Wraps the address that the backend gave for a basic block.
    pub fn new(pointer: usize) -> (block: Self)
        requires
            pointer != 0,
        ensures
            block@ == pointer,
            block == block_at(pointer),
    {
        Self { handle: Handle::new(pointer) }
    }

    /// The address that the handle holds.
    #[inline]
    pub fn get(&self) -> (pointer: usize)
        ensures
            pointer == self@,
            pointer != 0,
    {
        self.handle.get()
    }

    /// Asks for the instruction that ends this block. The reply is an
    /// address, null where the block has no terminator yet, for
    /// [`BasicBlock::get_block_terminator_reply`].
    pub fn get_block_terminator(&self) -> (call: Call)
        ensures
            call@ == (CallView::GetBasicBlockTerminator { block: self@ }),
    {
        Call::GetBasicBlockTerminator { block: self.get() }
    }

    /// The block's terminator as the backend reported it: absent for a null
    /// address, and else the instruction at that very address.
    pub fn get_block_terminator_reply(pointer: usize) -> (terminator: Option<Value>)
        ensures
            terminator == terminator_of_reply(pointer),
    {
        Value::from_nullable(pointer)
    }
}

/// A block for which the backend reports no instruction has no terminator;
/// once the backend reports the instruction that was built to end it, the
/// terminator is present and is that instruction.
pub proof fn lemma_terminator_is_what_was_built(built: Value)
    requires
        built@ != 0,
    ensures
        terminator_of_reply(0) is None,
        terminator_of_reply(built@) == Some(built),
{
    crate::value::lemma_value_is_its_address(built);
}

} // verus!
