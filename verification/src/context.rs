//! The context: the root that owns every type and hands out modules,
//! builders and basic blocks.

use crate::call::{requested_kind, requested_width, Call, CallShape, CallView, Primitive};
use crate::handle::Handle;
use crate::ty::{
    addresses, addresses_of, bool_to_native, element_of_reply, kind_of_native,
    lemma_kind_survives_backend, lemma_type_is_its_address, native_bool, native_of_kind, type_at,
    types_at, AddressSpace, Type, TypeKind,
};
use crate::util::{c_string, is_c_text, string_to_cstring};
use crate::value::Value;
use llvm_sys::LLVMTypeKind;
use vstd::prelude::*;

verus! {

/// The root authority. Every module, builder, type, value and basic block
/// comes from a context and must not be used once the context is disposed.
#[derive(Debug, PartialEq, Eq)]
pub struct Context {
    handle: Handle,
}

impl View for Context {
    type V = usize;

    /// The address that the handle holds.
    closed spec fn view(&self) -> usize {
        self.handle@
    }
}

impl Context {
    /// The request for one of the types that take no argument.
    pub open spec fn primitive_call(self, primitive: Primitive) -> CallView {
        CallView::PrimitiveType { context: self@, primitive }
    }

    /// The request for a function type.
    pub open spec fn func_type_call(return_ty: Type, param_tys: Seq<Type>, is_var_arg: bool) -> CallView {
        CallView::FunctionType {
            return_ty: return_ty@,
            param_tys: addresses_of(param_tys),
            param_count: param_tys.len() as u32,
            is_var_arg: native_bool(is_var_arg),
        }
    }

    /// The request for an array type.
    pub open spec fn array_type_call(element_ty: Type, size: u64) -> CallView {
        CallView::ArrayType { element_ty: element_ty@, length: size }
    }

    /// The request for an anonymous struct type.
    pub open spec fn struct_type_call(self, element_tys: Seq<Type>, is_packed: bool) -> CallView {
        CallView::StructType {
            context: self@,
            element_tys: addresses_of(element_tys),
            element_count: element_tys.len() as u32,
            packed: native_bool(is_packed),
        }
    }

    /// Wraps the address that the backend gave for a context.
    pub fn new(pointer: usize) -> (context: Self)
        requires
            pointer != 0,
        ensures
            context@ == pointer,
    {
        Self { handle: Handle::new(pointer) }
    }

    /// The address that the handle holds.
    pub fn get(&self) -> (pointer: usize)
        ensures
            pointer == self@,
            pointer != 0,
    {
        self.handle.get()
    }

    /// Asks for a new context. The reply is its address, for
    /// [`Context::new`].
    pub fn create() -> (call: Call)
        ensures
            call@ == CallView::ContextCreate,
    {
        Call::ContextCreate
    }

    /// Asks for a new module of the given name in this context. The reply is
    /// its address, for `Module::new`.
    pub fn create_module(&self, name: &str) -> (call: Call)
        requires
            is_c_text(name@),
        ensures
            call@ == (CallView::ModuleCreateWithName { name: c_string(name@), context: self@ }),
    {
        Call::ModuleCreateWithName { name: string_to_cstring(name), context: self.get() }
    }

    /// Asks for a new builder in this context. The reply is its address, for
    /// `Builder::new`.
    pub fn create_builder(&self) -> (call: Call)
        ensures
            call@ == (CallView::CreateBuilder { context: self@ }),
    {
        Call::CreateBuilder { context: self.get() }
    }

    /// Asks for the void type. The reply is its address, for [`Type::new`].
    pub fn create_void_type(&self) -> (call: Call)
        ensures
            call@ == self.primitive_call(Primitive::Void),
            requested_kind(call@) == Some(TypeKind::Void),
            requested_width(call@) is None,
    {
        Call::PrimitiveType { context: self.get(), primitive: Primitive::Void }
    }

    /// Asks for the 1-bit integer type. The reply is its address, for [`Type::new`].
    pub fn create_i1_type(&self) -> (call: Call)
        ensures
            call@ == self.primitive_call(Primitive::Int1),
            requested_kind(call@) == Some(TypeKind::Integer),
            requested_width(call@) == Some(1u32),
    {
        Call::PrimitiveType { context: self.get(), primitive: Primitive::Int1 }
    }

    /// Asks for the 8-bit integer type. The reply is its address, for [`Type::new`].
    pub fn create_i8_type(&self) -> (call: Call)
        ensures
            call@ == self.primitive_call(Primitive::Int8),
            requested_kind(call@) == Some(TypeKind::Integer),
            requested_width(call@) == Some(8u32),
    {
        Call::PrimitiveType { context: self.get(), primitive: Primitive::Int8 }
    }

    /// Asks for the 16-bit integer type. The reply is its address, for [`Type::new`].
    pub fn create_i16_type(&self) -> (call: Call)
        ensures
            call@ == self.primitive_call(Primitive::Int16),
            requested_kind(call@) == Some(TypeKind::Integer),
            requested_width(call@) == Some(16u32),
    {
        Call::PrimitiveType { context: self.get(), primitive: Primitive::Int16 }
    }

    /// Asks for the 32-bit integer type. The reply is its address, for [`Type::new`].
    pub fn create_i32_type(&self) -> (call: Call)
        ensures
            call@ == self.primitive_call(Primitive::Int32),
            requested_kind(call@) == Some(TypeKind::Integer),
            requested_width(call@) == Some(32u32),
    {
        Call::PrimitiveType { context: self.get(), primitive: Primitive::Int32 }
    }

    /// Asks for the 64-bit integer type. The reply is its address, for [`Type::new`].
    pub fn create_i64_type(&self) -> (call: Call)
        ensures
            call@ == self.primitive_call(Primitive::Int64),
            requested_kind(call@) == Some(TypeKind::Integer),
            requested_width(call@) == Some(64u32),
    {
        Call::PrimitiveType { context: self.get(), primitive: Primitive::Int64 }
    }

    /// Asks for the 128-bit integer type. The reply is its address, for [`Type::new`].
    pub fn create_i128_type(&self) -> (call: Call)
        ensures
            call@ == self.primitive_call(Primitive::Int128),
            requested_kind(call@) == Some(TypeKind::Integer),
            requested_width(call@) == Some(128u32),
    {
        Call::PrimitiveType { context: self.get(), primitive: Primitive::Int128 }
    }

    /// Asks for the integer type of `n` bits. The reply is its address, for
    /// [`Type::new`].
    pub fn create_int_type(&self, n: u32) -> (call: Call)
        ensures
            call@ == (CallView::IntType { context: self@, bits: n }),
            requested_kind(call@) == Some(TypeKind::Integer),
            requested_width(call@) == Some(n),
    {
        Call::IntType { context: self.get(), bits: n }
    }

    /// Asks for the 16-bit brain floating-point type. The reply is its address, for [`Type::new`].
    pub fn create_bf16_type(&self) -> (call: Call)
        ensures
            call@ == self.primitive_call(Primitive::BFloat),
            requested_kind(call@) == Some(TypeKind::BFloat),
            requested_width(call@) is None,
    {
        Call::PrimitiveType { context: self.get(), primitive: Primitive::BFloat }
    }

    /// Asks for the 16-bit floating-point type. The reply is its address, for [`Type::new`].
    pub fn create_f16_type(&self) -> (call: Call)
        ensures
            call@ == self.primitive_call(Primitive::Half),
            requested_kind(call@) == Some(TypeKind::Half),
            requested_width(call@) is None,
    {
        Call::PrimitiveType { context: self.get(), primitive: Primitive::Half }
    }

    /// Asks for the 32-bit floating-point type. The reply is its address, for [`Type::new`].
    pub fn create_f32_type(&self) -> (call: Call)
        ensures
            call@ == self.primitive_call(Primitive::Float),
            requested_kind(call@) == Some(TypeKind::Float),
            requested_width(call@) is None,
    {
        Call::PrimitiveType { context: self.get(), primitive: Primitive::Float }
    }

    /// Asks for the 64-bit floating-point type. The reply is its address, for [`Type::new`].
    pub fn create_f64_type(&self) -> (call: Call)
        ensures
            call@ == self.primitive_call(Primitive::Double),
            requested_kind(call@) == Some(TypeKind::Double),
            requested_width(call@) is None,
    {
        Call::PrimitiveType { context: self.get(), primitive: Primitive::Double }
    }

    /// Asks for the 80-bit floating-point type of x86. The reply is its address, for [`Type::new`].
    pub fn create_x86_f80_type(&self) -> (call: Call)
        ensures
            call@ == self.primitive_call(Primitive::X86Fp80),
            requested_kind(call@) == Some(TypeKind::X86Fp80),
            requested_width(call@) is None,
    {
        Call::PrimitiveType { context: self.get(), primitive: Primitive::X86Fp80 }
    }

    /// Asks for the 128-bit floating-point type. The reply is its address, for [`Type::new`].
    pub fn create_f128_type(&self) -> (call: Call)
        ensures
            call@ == self.primitive_call(Primitive::Fp128),
            requested_kind(call@) == Some(TypeKind::FP128),
            requested_width(call@) is None,
    {
        Call::PrimitiveType { context: self.get(), primitive: Primitive::Fp128 }
    }

    /// Asks for the 128-bit floating-point type of PowerPC, two 64-bit halves. The reply is its address, for [`Type::new`].
    pub fn create_ppc_f128_type(&self) -> (call: Call)
        ensures
            call@ == self.primitive_call(Primitive::PpcFp128),
            requested_kind(call@) == Some(TypeKind::PpcFp128),
            requested_width(call@) is None,
    {
        Call::PrimitiveType { context: self.get(), primitive: Primitive::PpcFp128 }
    }

    /// Asks for the pointer type of an address space. The reply is its
    /// address, for [`Type::new`].
    pub fn create_ptr_type(&self, address_space: AddressSpace) -> (call: Call)
        ensures
            call@ == (CallView::PointerType { context: self@, address_space: address_space.number() }),
            requested_kind(call@) == Some(TypeKind::Pointer),
    {
        Call::PointerType { context: self.get(), address_space: address_space.to_u32() }
    }

    /// Asks for the type of functions that take `param_tys`, in this order,
    /// and return `return_ty`. The parameter types go out as an array of
    /// their addresses with its length beside it. The backend takes the
    /// length in 32 bits: a longer list goes out with the low 32 bits of its
    /// length. The reply is the type's address, for [`Type::new`].
    pub fn create_func_type(&self, return_ty: &Type, param_tys: &[Type], is_var_arg: bool) -> (call: Call)
        ensures
            call@ == Self::func_type_call(*return_ty, param_tys@, is_var_arg),
            requested_kind(call@) == Some(TypeKind::Function),
    {
        Call::FunctionType {
            return_ty: return_ty.get(),
            param_tys: addresses(param_tys),
            param_count: #[verifier::truncate] (param_tys.len() as u32),
            is_var_arg: bool_to_native(is_var_arg),
        }
    }

    /// Asks for the type of arrays of `size` elements of `element_ty`. The
    /// reply is its address, for [`Type::new`].
    pub fn create_array_type(&self, element_ty: &Type, size: u64) -> (call: Call)
        ensures
            call@ == Self::array_type_call(*element_ty, size),
            requested_kind(call@) == Some(TypeKind::Array),
    {
        Call::ArrayType { element_ty: element_ty.get(), length: size }
    }

    /// Asks for the anonymous struct type of the given element types, in
    /// this order. They go out as an array of their addresses with its length
    /// beside it. The backend takes the length in 32 bits: a longer list goes
    /// out with the low 32 bits of its length. The reply is the type's
    /// address, for [`Type::new`].
    pub fn create_struct_type(&self, element_tys: &[Type], is_packed: bool) -> (call: Call)
        ensures
            call@ == self.struct_type_call(element_tys@, is_packed),
            requested_kind(call@) == Some(TypeKind::Struct),
    {
        Call::StructType {
            context: self.get(),
            element_tys: addresses(element_tys),
            element_count: #[verifier::truncate] (element_tys.len() as u32),
            packed: bool_to_native(is_packed),
        }
    }

    /// Asks for a struct type that has a name and, as yet, no body. The
    /// reply is its address, for [`Type::new`].
    pub fn create_named_struct_type(&self, name: &str) -> (call: Call)
        requires
            is_c_text(name@),
        ensures
            call@ == (CallView::StructCreateNamed { context: self@, name: c_string(name@) }),
            requested_kind(call@) == Some(TypeKind::Struct),
    {
        Call::StructCreateNamed { context: self.get(), name: string_to_cstring(name) }
    }

    /// Asks for a new basic block at the end of a function. The reply is the
    /// block's address, for `BasicBlock::new`.
    pub fn append_basic_block(&self, func: &Value, name: &str) -> (call: Call)
        requires
            is_c_text(name@),
        ensures
            call@ == (CallView::AppendBasicBlock {
                context: self@,
                function: func@,
                name: c_string(name@),
            }),
    {
        Call::AppendBasicBlock { context: self.get(), function: func.get(), name: string_to_cstring(name) }
    }

    /// Asks for this context to be freed. The context is given up with the
    /// request: nothing can ask for it a second time. Whatever came from it
    /// must not be used after the call is made.
    pub fn dispose(self) -> (call: Call)
        ensures
            call@ == (CallView::ContextDispose { context: self@ }),
    {
        Call::ContextDispose { context: self.get() }
    }
}

/// A type read back is of the kind that was asked for. From a backend that
/// reports, for the type it made on a request, the tag of the kind that the
/// request asks for, the kind read is that kind; and a request that asks for
/// a bit width asks for an integer type.
pub proof fn lemma_requested_kind_reads_back(call: CallView, reported: LLVMTypeKind)
    requires
        requested_kind(call) is Some,
        reported == native_of_kind(requested_kind(call)->0),
    ensures
        Some(kind_of_native(reported)) == requested_kind(call),
        requested_width(call) is Some ==> kind_of_native(reported) == TypeKind::Integer,
{
    lemma_kind_survives_backend(requested_kind(call)->0);
}

/// The address that a backend reports for the element at `index`, if it
/// holds exactly the elements `sent` that a struct type was requested with:
/// the element's address where there is one, null where the index is out of
/// range.
pub open spec fn reported_element(sent: Seq<usize>, index: int) -> usize {
    if 0 <= index < sent.len() {
        sent[index]
    } else {
        0
    }
}

/// A struct type read back is the struct type that was asked for. A request
/// for an anonymous struct of the element types `element_tys`, all live and
/// no more than the backend can count, carries their number and, in order,
/// their addresses; from a backend that reports the same, the list read back
/// is `element_tys`, the element read at an index in range is the one given
/// at that index, no element is read at an index out of range, and the
/// packed flag reads as it was set.
pub proof fn lemma_struct_round_trip(
    context: Context,
    element_tys: Seq<Type>,
    is_packed: bool,
    index: int,
)
    requires
        element_tys.len() <= u32::MAX,
        forall|i: int| 0 <= i < element_tys.len() ==> element_tys[i]@ != 0,
        0 <= index,
    ensures
        (context.struct_type_call(element_tys, is_packed) matches CallShape::StructType {
            element_tys: sent,
            element_count,
            packed,
            ..
        } && {
            &&& element_count == element_tys.len()
            &&& types_at(sent) == element_tys
            &&& index < element_tys.len() ==> element_of_reply(reported_element(sent, index))
                == Some(element_tys[index])
            &&& index >= element_tys.len() ==> element_of_reply(reported_element(sent, index))
                is None
            &&& (packed == 1) == is_packed
        }),
{
    let sent = addresses_of(element_tys);
    assert forall|i: int| 0 <= i < element_tys.len() implies type_at(sent[i]) == element_tys[i] by {
        lemma_type_is_its_address(element_tys[i]);
    }
    assert(types_at(sent) =~= element_tys);
}

/// An array type read back is the array type that was asked for. A request
/// for an array of `size` elements of `element_ty` carries that length and
/// the element type's address; from a backend that reports the same, the
/// element type read back is `element_ty`, and the length read back is
/// `size` wherever `size` fits the machine's word.
pub proof fn lemma_array_round_trip(element_ty: Type, size: u64)
    requires
        size <= usize::MAX,
    ensures
        (Context::array_type_call(element_ty, size) matches CallShape::ArrayType {
            element_ty: sent,
            length,
        } && type_at(sent) == element_ty && length as usize == size),
{
    lemma_type_is_its_address(element_ty);
}

} // verus!
