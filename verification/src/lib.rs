//! A safety layer over an IR construction backend.
//!
//! The backend builds, verifies and emits code through opaque handles with
//! manual lifetimes. This library stands between a compiler front end and
//! that backend. It wraps each handle in a type of its own that is never
//! null, lets the objects that own memory be disposed once only, keeps the
//! builder's cursor, and turns every operation into the exact backend call
//! that performs it and every reply into a checked value. Making the calls
//! is left to whoever links the backend.

pub mod basic_block;
pub mod builder;
pub mod call;
pub mod context;
pub mod emission;
pub mod handle;
pub mod module;
pub mod native;
pub mod target;
pub mod ty;
pub mod util;
pub mod value;

pub use llvm_sys;

use crate::call::{Call, CallView, Registry};
use vstd::prelude::*;

verus! {

/// Asks for the triple of the machine that the process runs on. The reply is
/// a C string, for [`util::cstring_to_string`].
pub fn get_default_target_triple() -> (call: Call)
    ensures
        call@ == CallView::GetDefaultTargetTriple,
{
    Call::GetDefaultTargetTriple
}

/// Asks for the registry of target descriptions to be filled. It may be
/// asked for any number of times. There is no reply.
pub fn initialize_all_target_infos() -> (call: Call)
    ensures
        call@ == (CallView::InitializeAll { registry: Registry::TargetInfos }),
{
    Call::InitializeAll { registry: Registry::TargetInfos }
}

/// Asks for the registry of targets to be filled. It may be asked for any
/// number of times. There is no reply.
pub fn initialize_all_targets() -> (call: Call)
    ensures
        call@ == (CallView::InitializeAll { registry: Registry::Targets }),
{
    Call::InitializeAll { registry: Registry::Targets }
}

/// Asks for the registry of machine-code descriptions to be filled. It may
/// be asked for any number of times. There is no reply.
pub fn initialize_all_target_mcs() -> (call: Call)
    ensures
        call@ == (CallView::InitializeAll { registry: Registry::TargetMCs }),
{
    Call::InitializeAll { registry: Registry::TargetMCs }
}

/// Asks for the registry of assembly parsers to be filled. It may be asked
/// for any number of times. There is no reply.
pub fn initialize_all_asm_parsers() -> (call: Call)
    ensures
        call@ == (CallView::InitializeAll { registry: Registry::AsmParsers }),
{
    Call::InitializeAll { registry: Registry::AsmParsers }
}

/// Asks for the registry of assembly printers to be filled. It may be asked
/// for any number of times. There is no reply.
pub fn initialize_all_asm_printers() -> (call: Call)
    ensures
        call@ == (CallView::InitializeAll { registry: Registry::AsmPrinters }),
{
    Call::InitializeAll { registry: Registry::AsmPrinters }
}

} // verus!
