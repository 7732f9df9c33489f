//! The backend's own enumerations, as the binding crate declares them.
//!
//! The first group is read variant by variant: the mapping tables between
//! this library's vocabulary and the backend's match on them, and the
//! emission pipeline builds their values. The second group is only carried:
//! this library never looks inside a linkage category or an opcode.

use vstd::prelude::*;

verus! {

/// `llvm_sys::LLVMTypeKind`, the tag of a type's shape, with its variants.
#[verifier::external_type_specification]
pub struct ExLLVMTypeKind(llvm_sys::LLVMTypeKind);

/// `llvm_sys::LLVMIntPredicate`, the relation of an integer comparison, with
/// its variants.
#[verifier::external_type_specification]
pub struct ExLLVMIntPredicate(llvm_sys::LLVMIntPredicate);

/// `llvm_sys::LLVMRealPredicate`, the relation of a floating comparison, with
/// its variants.
#[verifier::external_type_specification]
pub struct ExLLVMRealPredicate(llvm_sys::LLVMRealPredicate);

/// `llvm_sys::analysis::LLVMVerifierFailureAction`, what the backend's
/// verifier does when it finds a fault, with its variants.
#[verifier::external_type_specification]
pub struct ExLLVMVerifierFailureAction(llvm_sys::analysis::LLVMVerifierFailureAction);

/// `llvm_sys::target_machine::LLVMCodeGenOptLevel`, with its variants.
#[verifier::external_type_specification]
pub struct ExLLVMCodeGenOptLevel(llvm_sys::target_machine::LLVMCodeGenOptLevel);

/// `llvm_sys::target_machine::LLVMRelocMode`, with its variants.
#[verifier::external_type_specification]
pub struct ExLLVMRelocMode(llvm_sys::target_machine::LLVMRelocMode);

/// `llvm_sys::target_machine::LLVMCodeModel`, with its variants.
#[verifier::external_type_specification]
pub struct ExLLVMCodeModel(llvm_sys::target_machine::LLVMCodeModel);

/// `llvm_sys::target_machine::LLVMCodeGenFileType`, with its variants.
#[verifier::external_type_specification]
pub struct ExLLVMCodeGenFileType(llvm_sys::target_machine::LLVMCodeGenFileType);

/// `llvm_sys::LLVMLinkage`, a function's linkage category. Carried through
/// unread.
#[verifier::external_type_specification]
#[verifier::external_body]
pub struct ExLLVMLinkage(llvm_sys::LLVMLinkage);

/// `llvm_sys::LLVMOpcode`, an instruction's opcode. Carried through unread.
#[verifier::external_type_specification]
#[verifier::external_body]
pub struct ExLLVMOpcode(llvm_sys::LLVMOpcode);

} // verus!
