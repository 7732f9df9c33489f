//! Types: the shape of a value, and the vocabulary that describes it.

use crate::call::{Call, CallView, StructFlag};
use crate::handle::{handle_at, Handle};
use llvm_sys::LLVMTypeKind;
use vstd::prelude::*;
use vstd::std_specs::convert::FromSpecImpl;

verus! {

/// A type: the shape of a value. It is a handle on an object that the
/// context owns and that lives as long as the context does.
#[derive(Debug, Clone, Copy, PartialEq, Eq, Structural)]
pub struct Type {
    handle: Handle,
}

impl View for Type {
    type V = usize;

    /// The address that the handle holds.
    closed spec fn view(&self) -> usize {
        self.handle@
    }
}

/// The type whose handle holds `pointer`.
pub closed spec fn type_at(pointer: usize) -> Type {
    Type { handle: handle_at(pointer) }
}

/// A type is nothing but the address its handle holds.
pub proof fn lemma_type_is_its_address(ty: Type)
    ensures
        type_at(ty@) == ty,
        forall|pointer: usize| #[trigger] type_at(pointer)@ == pointer,
{
    crate::handle::lemma_handle_is_its_address(ty.handle);
    assert forall|pointer: usize| #[trigger] type_at(pointer)@ == pointer by {
        crate::handle::lemma_handle_holds_its_address(pointer);
    }
}

/// The addresses that a list of types goes to the backend as, in order.
pub open spec fn addresses_of(tys: Seq<Type>) -> Seq<usize> {
    Seq::new(tys.len(), |i: int| tys[i]@)
}

/// The types that a list of addresses from the backend stands for, in order.
pub open spec fn types_at(pointers: Seq<usize>) -> Seq<Type> {
    Seq::new(pointers.len(), |i: int| type_at(pointers[i]))
}

/// What a reply about one element of a struct says: a null address is no
/// element, any other is the element type at that address.
pub open spec fn element_of_reply(pointer: usize) -> Option<Type> {
    if pointer == 0 {
        None
    } else {
        Some(type_at(pointer))
    }
}

/// The backend's integer for a yes or a no.
pub open spec fn native_bool(flag: bool) -> i32 {
    if flag {
        1
    } else {
        0
    }
}

/// The backend's integer for a yes or a no.
pub fn bool_to_native(flag: bool) -> (native: i32)
    ensures
        native == native_bool(flag),
{
    if flag {
        1
    } else {
        0
    }
}

/// Copies out the addresses of a list of types, in order, as the backend
/// takes an array of them.
pub fn addresses(tys: &[Type]) -> (pointers: Vec<usize>)
    ensures
        pointers@ == addresses_of(tys@),
{
    let mut pointers: Vec<usize> = Vec::new();
    let mut i: usize = 0;
    while i < tys.len()
        invariant
            i <= tys.len(),
            pointers@ == addresses_of(tys@.subrange(0, i as int)),
        decreases tys.len() - i,
    {
        pointers.push(tys[i].get());
        proof {
            assert(pointers@ =~= addresses_of(tys@.subrange(0, i + 1)));
        }
        i += 1;
    }
    proof {
        assert(tys@.subrange(0, i as int) =~= tys@);
    }
    pointers
}

impl Type {
    /// Wraps the address that the backend gave for a type.
    pub fn new(pointer: usize) -> (ty: Self)
        requires
            pointer != 0,
        ensures
            ty@ == pointer,
            ty == type_at(pointer),
    {
        Self { handle: Handle::new(pointer) }
    }

    /// The address that the handle holds.
    #[inline]
    pub fn get(&self) -> (pointer: usize)
        ensures
            pointer == self@,
            pointer != 0,
    {
        self.handle.get()
    }

    /// Asks which kind of type this is. The reply is the backend's tag, which
    /// `TypeKind::from` reads.
    pub fn get_type_kind(&self) -> (call: Call)
        ensures
            call@ == (CallView::GetTypeKind { ty: self@ }),
    {
        Call::GetTypeKind { ty: self.get() }
    }

    /// Asks for the name of a struct type. The reply is a C string, for
    /// [`crate::util::cstring_to_string`].
    pub fn get_struct_name(&self) -> (call: Call)
        ensures
            call@ == (CallView::GetStructName { ty: self@ }),
    {
        Call::GetStructName { ty: self.get() }
    }

    /// Asks how many elements a struct type has. The reply is the count, for
    /// [`Type::get_struct_elemen_count_reply`].
    pub fn get_struct_elemen_count(&self) -> (call: Call)
        ensures
            call@ == (CallView::CountStructElementTypes { ty: self@ }),
    {
        Call::CountStructElementTypes { ty: self.get() }
    }

    /// The element count as the backend reported it.
    pub fn get_struct_elemen_count_reply(count: u32) -> (element_count: usize)
        ensures
            element_count == count,
    {
        count as usize
    }

    /// Asks for all element types of a struct type. `element_count` is the
    /// count that the backend reported for this type: the backend writes that
    /// many addresses, and the request says how much room they need. The
    /// reply is the array it filled, for
    /// [`Type::get_struct_element_tys_reply`].
    pub fn get_struct_element_tys(&self, element_count: usize) -> (call: Call)
        ensures
            call@ == (CallView::GetStructElementTypes { ty: self@, capacity: element_count }),
    {
        Call::GetStructElementTypes { ty: self.get(), capacity: element_count }
    }

    /// The element types as the backend reported them: one type for each
    /// address, in order.
    pub fn get_struct_element_tys_reply(pointers: &[usize]) -> (element_tys: Vec<Type>)
        requires
            forall|i: int| 0 <= i < pointers@.len() ==> pointers@[i] != 0,
        ensures
            element_tys@ == types_at(pointers@),
            addresses_of(element_tys@) == pointers@,
    {
        let mut element_tys: Vec<Type> = Vec::new();
        let mut i: usize = 0;
        while i < pointers.len()
            invariant
                i <= pointers.len(),
                forall|j: int| 0 <= j < pointers@.len() ==> pointers@[j] != 0,
                element_tys@ == types_at(pointers@.subrange(0, i as int)),
            decreases pointers.len() - i,
        {
            element_tys.push(Type::new(pointers[i]));
            proof {
                assert(element_tys@ =~= types_at(pointers@.subrange(0, i + 1)));
            }
            i += 1;
        }
        proof {
            assert(pointers@.subrange(0, i as int) =~= pointers@);
            assert forall|j: int| 0 <= j < pointers@.len() implies type_at(pointers@[j])@ == pointers@[j] by {
                crate::handle::lemma_handle_holds_its_address(pointers@[j]);
            }
            assert(addresses_of(types_at(pointers@)) =~= pointers@);
        }
        element_tys
    }

    /// Asks for the element type at `index` of a struct type. The backend
    /// counts elements in 32 bits; an index beyond that is out of every
    /// struct's range, so the element is absent and there is nothing to ask.
    /// The reply is an address, for [`Type::get_struct_element_ty_reply`].
    pub fn get_struct_element_ty(&self, index: usize) -> (call: Option<Call>)
        ensures
            index > u32::MAX ==> call is None,
            index <= u32::MAX ==> call is Some && call->0@ == (CallView::StructGetTypeAtIndex {
                ty: self@,
                index: index as u32,
            }),
    {
        if index > u32::MAX as usize {
            None
        } else {
            Some(Call::StructGetTypeAtIndex { ty: self.get(), index: index as u32 })
        }
    }

    /// The element type as the backend reported it: absent for a null
    /// address, and else the type at that very address.
    pub fn get_struct_element_ty_reply(pointer: usize) -> (element_ty: Option<Type>)
        ensures
            element_ty == element_of_reply(pointer),
    {
        match Handle::from_nullable(pointer) {
            Some(handle) => Some(Type { handle }),
            None => None,
        }
    }

    /// Asks whether a struct type is packed. The reply is a flag, for
    /// [`Type::flag_reply`].
    pub fn is_struct_packed(&self) -> (call: Call)
        ensures
            call@ == (CallView::StructFlag { ty: self@, flag: StructFlag::Packed }),
    {
        Call::StructFlag { ty: self.get(), flag: StructFlag::Packed }
    }

    /// Asks whether a struct type is opaque: declared, with no body yet. The
    /// reply is a flag, for [`Type::flag_reply`].
    pub fn is_struct_opaque(&self) -> (call: Call)
        ensures
            call@ == (CallView::StructFlag { ty: self@, flag: StructFlag::Opaque }),
    {
        Call::StructFlag { ty: self.get(), flag: StructFlag::Opaque }
    }

    /// Asks whether a struct type is literal: unnamed, made from its
    /// elements. The reply is a flag, for [`Type::flag_reply`].
    pub fn is_struct_literal(&self) -> (call: Call)
        ensures
            call@ == (CallView::StructFlag { ty: self@, flag: StructFlag::Literal }),
    {
        Call::StructFlag { ty: self.get(), flag: StructFlag::Literal }
    }

    /// The answer to a yes-or-no question about a type: the backend says 1
    /// for yes.
    pub fn flag_reply(flag: i32) -> (yes: bool)
        ensures
            yes == (flag == 1),
    {
        flag == 1
    }

    /// Asks for the bit width of an integer type. The reply is the width
    /// itself.
    pub fn get_int_type_width(&self) -> (call: Call)
        ensures
            call@ == (CallView::GetIntTypeWidth { ty: self@ }),
    {
        Call::GetIntTypeWidth { ty: self.get() }
    }

    /// Asks for the element type of an array or pointer type. The reply is
    /// the element type's address, for [`Type::new`].
    pub fn get_element_type(&self) -> (call: Call)
        ensures
            call@ == (CallView::GetElementType { ty: self@ }),
    {
        Call::GetElementType { ty: self.get() }
    }

    /// Asks for the length of an array type. The reply is the length in 64
    /// bits, for [`Type::get_array_length_reply`].
    pub fn get_array_length(&self) -> (call: Call)
        ensures
            call@ == (CallView::GetArrayLength { ty: self@ }),
    {
        Call::GetArrayLength { ty: self.get() }
    }

    /// The array length as the backend reported it, in the machine's word:
    /// where that word is narrower than 64 bits, the low bits of the length.
    pub fn get_array_length_reply(length: u64) -> (array_length: usize)
        ensures
            array_length == length as usize,
            length <= usize::MAX ==> array_length == length,
    {
        #[verifier::truncate]
        (length as usize)
    }

    /// Asks whether a pointer type is opaque. The reply is a flag, for
    /// [`Type::flag_reply`].
    pub fn is_pointer_opaque(&self) -> (call: Call)
        ensures
            call@ == (CallView::PointerTypeIsOpaque { ty: self@ }),
    {
        Call::PointerTypeIsOpaque { ty: self.get() }
    }
}

/// The closed set of shapes a type can have.
#[derive(Debug, Clone, Copy, PartialEq, Eq, Structural)]
pub enum TypeKind {
    Void,
    Half,
    Float,
    Double,
    X86Fp80,
    FP128,
    PpcFp128,
    Label,
    Integer,
    Function,
    Struct,
    Array,
    Pointer,
    Vector,
    Metadata,
    X86Mmx,
    Token,
    ScalableVector,
    BFloat,
    X86Amx,
    TargetExt,
}

impl From<LLVMTypeKind> for TypeKind {
    fn from(value: LLVMTypeKind) -> (kind: Self) {
        match value {
            LLVMTypeKind::LLVMVoidTypeKind => Self::Void,
            LLVMTypeKind::LLVMHalfTypeKind => Self::Half,
            LLVMTypeKind::LLVMFloatTypeKind => Self::Float,
            LLVMTypeKind::LLVMDoubleTypeKind => Self::Double,
            LLVMTypeKind::LLVMX86_FP80TypeKind => Self::X86Fp80,
            LLVMTypeKind::LLVMFP128TypeKind => Self::FP128,
            LLVMTypeKind::LLVMPPC_FP128TypeKind => Self::PpcFp128,
            LLVMTypeKind::LLVMLabelTypeKind => Self::Label,
            LLVMTypeKind::LLVMIntegerTypeKind => Self::Integer,
            LLVMTypeKind::LLVMFunctionTypeKind => Self::Function,
            LLVMTypeKind::LLVMStructTypeKind => Self::Struct,
            LLVMTypeKind::LLVMArrayTypeKind => Self::Array,
            LLVMTypeKind::LLVMPointerTypeKind => Self::Pointer,
            LLVMTypeKind::LLVMVectorTypeKind => Self::Vector,
            LLVMTypeKind::LLVMMetadataTypeKind => Self::Metadata,
            LLVMTypeKind::LLVMX86_MMXTypeKind => Self::X86Mmx,
            LLVMTypeKind::LLVMTokenTypeKind => Self::Token,
            LLVMTypeKind::LLVMScalableVectorTypeKind => Self::ScalableVector,
            LLVMTypeKind::LLVMBFloatTypeKind => Self::BFloat,
            LLVMTypeKind::LLVMX86_AMXTypeKind => Self::X86Amx,
            LLVMTypeKind::LLVMTargetExtTypeKind => Self::TargetExt,
        }
    }
}

/// The kind that a backend tag stands for.
pub open spec fn kind_of_native(value: LLVMTypeKind) -> TypeKind {
    match value {
        LLVMTypeKind::LLVMVoidTypeKind => TypeKind::Void,
        LLVMTypeKind::LLVMHalfTypeKind => TypeKind::Half,
        LLVMTypeKind::LLVMFloatTypeKind => TypeKind::Float,
        LLVMTypeKind::LLVMDoubleTypeKind => TypeKind::Double,
        LLVMTypeKind::LLVMX86_FP80TypeKind => TypeKind::X86Fp80,
        LLVMTypeKind::LLVMFP128TypeKind => TypeKind::FP128,
        LLVMTypeKind::LLVMPPC_FP128TypeKind => TypeKind::PpcFp128,
        LLVMTypeKind::LLVMLabelTypeKind => TypeKind::Label,
        LLVMTypeKind::LLVMIntegerTypeKind => TypeKind::Integer,
        LLVMTypeKind::LLVMFunctionTypeKind => TypeKind::Function,
        LLVMTypeKind::LLVMStructTypeKind => TypeKind::Struct,
        LLVMTypeKind::LLVMArrayTypeKind => TypeKind::Array,
        LLVMTypeKind::LLVMPointerTypeKind => TypeKind::Pointer,
        LLVMTypeKind::LLVMVectorTypeKind => TypeKind::Vector,
        LLVMTypeKind::LLVMMetadataTypeKind => TypeKind::Metadata,
        LLVMTypeKind::LLVMX86_MMXTypeKind => TypeKind::X86Mmx,
        LLVMTypeKind::LLVMTokenTypeKind => TypeKind::Token,
        LLVMTypeKind::LLVMScalableVectorTypeKind => TypeKind::ScalableVector,
        LLVMTypeKind::LLVMBFloatTypeKind => TypeKind::BFloat,
        LLVMTypeKind::LLVMX86_AMXTypeKind => TypeKind::X86Amx,
        LLVMTypeKind::LLVMTargetExtTypeKind => TypeKind::TargetExt,
    }
}

impl FromSpecImpl<LLVMTypeKind> for TypeKind {
    open spec fn obeys_from_spec() -> bool {
        true
    }

    open spec fn from_spec(value: LLVMTypeKind) -> Self {
        kind_of_native(value)
    }
}

impl From<TypeKind> for LLVMTypeKind {
    fn from(value: TypeKind) -> (native: Self) {
        match value {
            TypeKind::Void => Self::LLVMVoidTypeKind,
            TypeKind::Half => Self::LLVMHalfTypeKind,
            TypeKind::Float => Self::LLVMFloatTypeKind,
            TypeKind::Double => Self::LLVMDoubleTypeKind,
            TypeKind::X86Fp80 => Self::LLVMX86_FP80TypeKind,
            TypeKind::FP128 => Self::LLVMFP128TypeKind,
            TypeKind::PpcFp128 => Self::LLVMPPC_FP128TypeKind,
            TypeKind::Label => Self::LLVMLabelTypeKind,
            TypeKind::Integer => Self::LLVMIntegerTypeKind,
            TypeKind::Function => Self::LLVMFunctionTypeKind,
            TypeKind::Struct => Self::LLVMStructTypeKind,
            TypeKind::Array => Self::LLVMArrayTypeKind,
            TypeKind::Pointer => Self::LLVMPointerTypeKind,
            TypeKind::Vector => Self::LLVMVectorTypeKind,
            TypeKind::Metadata => Self::LLVMMetadataTypeKind,
            TypeKind::X86Mmx => Self::LLVMX86_MMXTypeKind,
            TypeKind::Token => Self::LLVMTokenTypeKind,
            TypeKind::ScalableVector => Self::LLVMScalableVectorTypeKind,
            TypeKind::BFloat => Self::LLVMBFloatTypeKind,
            TypeKind::X86Amx => Self::LLVMX86_AMXTypeKind,
            TypeKind::TargetExt => Self::LLVMTargetExtTypeKind,
        }
    }
}

/// The backend tag that stands for a kind.
pub open spec fn native_of_kind(value: TypeKind) -> LLVMTypeKind {
    match value {
        TypeKind::Void => LLVMTypeKind::LLVMVoidTypeKind,
        TypeKind::Half => LLVMTypeKind::LLVMHalfTypeKind,
        TypeKind::Float => LLVMTypeKind::LLVMFloatTypeKind,
        TypeKind::Double => LLVMTypeKind::LLVMDoubleTypeKind,
        TypeKind::X86Fp80 => LLVMTypeKind::LLVMX86_FP80TypeKind,
        TypeKind::FP128 => LLVMTypeKind::LLVMFP128TypeKind,
        TypeKind::PpcFp128 => LLVMTypeKind::LLVMPPC_FP128TypeKind,
        TypeKind::Label => LLVMTypeKind::LLVMLabelTypeKind,
        TypeKind::Integer => LLVMTypeKind::LLVMIntegerTypeKind,
        TypeKind::Function => LLVMTypeKind::LLVMFunctionTypeKind,
        TypeKind::Struct => LLVMTypeKind::LLVMStructTypeKind,
        TypeKind::Array => LLVMTypeKind::LLVMArrayTypeKind,
        TypeKind::Pointer => LLVMTypeKind::LLVMPointerTypeKind,
        TypeKind::Vector => LLVMTypeKind::LLVMVectorTypeKind,
        TypeKind::Metadata => LLVMTypeKind::LLVMMetadataTypeKind,
        TypeKind::X86Mmx => LLVMTypeKind::LLVMX86_MMXTypeKind,
        TypeKind::Token => LLVMTypeKind::LLVMTokenTypeKind,
        TypeKind::ScalableVector => LLVMTypeKind::LLVMScalableVectorTypeKind,
        TypeKind::BFloat => LLVMTypeKind::LLVMBFloatTypeKind,
        TypeKind::X86Amx => LLVMTypeKind::LLVMX86_AMXTypeKind,
        TypeKind::TargetExt => LLVMTypeKind::LLVMTargetExtTypeKind,
    }
}

impl FromSpecImpl<TypeKind> for LLVMTypeKind {
    open spec fn obeys_from_spec() -> bool {
        true
    }

    open spec fn from_spec(value: TypeKind) -> Self {
        native_of_kind(value)
    }
}

/// Every kind names exactly one backend tag, and that tag names the kind
/// again.
pub proof fn lemma_kind_survives_backend(kind: TypeKind)
    ensures
        kind_of_native(native_of_kind(kind)) == kind,
{
}

/// Every backend tag names exactly one kind, and that kind names the tag
/// again: no tag falls through to a default.
pub proof fn lemma_backend_tag_survives(native: LLVMTypeKind)
    ensures
        native_of_kind(kind_of_native(native)) == native,
{
}

/// The address spaces a pointer type can be made for.
#[derive(Debug, Clone, Copy, PartialEq, Eq, Structural)]
pub enum AddressSpace {
    Generic,
    Global,
    Shared,
    Const,
    Local,
    Param,
}

impl AddressSpace {
    /// The number that the backend knows the address space by.
    pub open spec fn number(self) -> u32 {
        match self {
            AddressSpace::Generic => 0,
            AddressSpace::Global => 1,
            AddressSpace::Shared => 3,
            AddressSpace::Const => 4,
            AddressSpace::Local => 5,
            AddressSpace::Param => 101,
        }
    }

    /// The number that the backend knows the address space by.
    pub fn to_u32(self) -> (number: u32)
        ensures
            number == self.number(),
    {
        match self {
            AddressSpace::Generic => 0,
            AddressSpace::Global => 1,
            AddressSpace::Shared => 3,
            AddressSpace::Const => 4,
            AddressSpace::Local => 5,
            AddressSpace::Param => 101,
        }
    }
}

} // verus!
