use llvm_sys::LLVMTypeKind;
use llvm_wrap::call::{Call, Primitive, StructFlag};
use llvm_wrap::context::Context;
use llvm_wrap::ty::{addresses, bool_to_native, AddressSpace, Type, TypeKind};

const CONTEXT: usize = 0x10;

fn kinds() -> Vec<(TypeKind, LLVMTypeKind)> {
    vec![
        (TypeKind::Void, LLVMTypeKind::LLVMVoidTypeKind),
        (TypeKind::Half, LLVMTypeKind::LLVMHalfTypeKind),
        (TypeKind::Float, LLVMTypeKind::LLVMFloatTypeKind),
        (TypeKind::Double, LLVMTypeKind::LLVMDoubleTypeKind),
        (TypeKind::X86Fp80, LLVMTypeKind::LLVMX86_FP80TypeKind),
        (TypeKind::FP128, LLVMTypeKind::LLVMFP128TypeKind),
        (TypeKind::PpcFp128, LLVMTypeKind::LLVMPPC_FP128TypeKind),
        (TypeKind::Label, LLVMTypeKind::LLVMLabelTypeKind),
        (TypeKind::Integer, LLVMTypeKind::LLVMIntegerTypeKind),
        (TypeKind::Function, LLVMTypeKind::LLVMFunctionTypeKind),
        (TypeKind::Struct, LLVMTypeKind::LLVMStructTypeKind),
        (TypeKind::Array, LLVMTypeKind::LLVMArrayTypeKind),
        (TypeKind::Pointer, LLVMTypeKind::LLVMPointerTypeKind),
        (TypeKind::Vector, LLVMTypeKind::LLVMVectorTypeKind),
        (TypeKind::Metadata, LLVMTypeKind::LLVMMetadataTypeKind),
        (TypeKind::X86Mmx, LLVMTypeKind::LLVMX86_MMXTypeKind),
        (TypeKind::Token, LLVMTypeKind::LLVMTokenTypeKind),
        (TypeKind::ScalableVector, LLVMTypeKind::LLVMScalableVectorTypeKind),
        (TypeKind::BFloat, LLVMTypeKind::LLVMBFloatTypeKind),
        (TypeKind::X86Amx, LLVMTypeKind::LLVMX86_AMXTypeKind),
        (TypeKind::TargetExt, LLVMTypeKind::LLVMTargetExtTypeKind),
    ]
}

#[test]
fn every_backend_tag_reads_as_its_kind() {
    for (kind, native) in kinds() {
        assert_eq!(TypeKind::from(native), kind);
    }
}

#[test]
fn every_kind_is_written_as_its_backend_tag() {
    for (kind, native) in kinds() {
        assert_eq!(LLVMTypeKind::from(kind), native);
    }
}

#[test]
fn kinds_and_tags_survive_the_round_trip() {
    for (kind, native) in kinds() {
        assert_eq!(TypeKind::from(LLVMTypeKind::from(kind)), kind);
        assert_eq!(LLVMTypeKind::from(TypeKind::from(native)), native);
    }
}

#[test]
fn backend_tags_keep_their_numbers() {
    assert_eq!(LLVMTypeKind::from(TypeKind::Void) as u32, 0);
    assert_eq!(LLVMTypeKind::from(TypeKind::Integer) as u32, 8);
    assert_eq!(LLVMTypeKind::from(TypeKind::Struct) as u32, 10);
    assert_eq!(LLVMTypeKind::from(TypeKind::TargetExt) as u32, 20);
}

#[test]
fn address_spaces_have_their_backend_numbers() {
    assert_eq!(AddressSpace::Generic.to_u32(), 0);
    assert_eq!(AddressSpace::Global.to_u32(), 1);
    assert_eq!(AddressSpace::Shared.to_u32(), 3);
    assert_eq!(AddressSpace::Const.to_u32(), 4);
    assert_eq!(AddressSpace::Local.to_u32(), 5);
    assert_eq!(AddressSpace::Param.to_u32(), 101);
}

#[test]
fn each_primitive_constructor_asks_for_its_primitive() {
    let context = Context::new(CONTEXT);
    let asked = vec![
        (context.create_void_type(), Primitive::Void),
        (context.create_i1_type(), Primitive::Int1),
        (context.create_i8_type(), Primitive::Int8),
        (context.create_i16_type(), Primitive::Int16),
        (context.create_i32_type(), Primitive::Int32),
        (context.create_i64_type(), Primitive::Int64),
        (context.create_i128_type(), Primitive::Int128),
        (context.create_bf16_type(), Primitive::BFloat),
        (context.create_f16_type(), Primitive::Half),
        (context.create_f32_type(), Primitive::Float),
        (context.create_f64_type(), Primitive::Double),
        (context.create_x86_f80_type(), Primitive::X86Fp80),
        (context.create_f128_type(), Primitive::Fp128),
        (context.create_ppc_f128_type(), Primitive::PpcFp128),
    ];
    for (call, primitive) in asked {
        assert_eq!(call, Call::PrimitiveType { context: CONTEXT, primitive });
    }
}

#[test]
fn primitives_have_their_kind_and_width() {
    let table = vec![
        (Primitive::Void, TypeKind::Void, None),
        (Primitive::Int1, TypeKind::Integer, Some(1)),
        (Primitive::Int8, TypeKind::Integer, Some(8)),
        (Primitive::Int16, TypeKind::Integer, Some(16)),
        (Primitive::Int32, TypeKind::Integer, Some(32)),
        (Primitive::Int64, TypeKind::Integer, Some(64)),
        (Primitive::Int128, TypeKind::Integer, Some(128)),
        (Primitive::BFloat, TypeKind::BFloat, None),
        (Primitive::Half, TypeKind::Half, None),
        (Primitive::Float, TypeKind::Float, None),
        (Primitive::Double, TypeKind::Double, None),
        (Primitive::X86Fp80, TypeKind::X86Fp80, None),
        (Primitive::Fp128, TypeKind::FP128, None),
        (Primitive::PpcFp128, TypeKind::PpcFp128, None),
    ];
    for (primitive, kind, width) in table {
        assert_eq!(primitive.kind(), kind);
        assert_eq!(primitive.int_width(), width);
        // What a backend that made the primitive reports reads as the same kind.
        assert_eq!(TypeKind::from(LLVMTypeKind::from(primitive.kind())), kind);
    }
}

#[test]
fn an_integer_type_of_any_width_is_asked_for_by_its_width() {
    let context = Context::new(CONTEXT);
    assert_eq!(context.create_int_type(24), Call::IntType { context: CONTEXT, bits: 24 });
    assert_eq!(context.create_int_type(u32::MAX), Call::IntType { context: CONTEXT, bits: u32::MAX });
}

#[test]
fn a_pointer_type_is_asked_for_by_its_address_space() {
    let context = Context::new(CONTEXT);
    assert_eq!(
        context.create_ptr_type(AddressSpace::Global),
        Call::PointerType { context: CONTEXT, address_space: 1 }
    );
    assert_eq!(
        context.create_ptr_type(AddressSpace::Param),
        Call::PointerType { context: CONTEXT, address_space: 101 }
    );
}

#[test]
fn a_function_type_carries_its_parameters_in_order() {
    let context = Context::new(CONTEXT);
    let ret = Type::new(0x20);
    let params = [Type::new(0x30), Type::new(0x40), Type::new(0x30)];
    assert_eq!(
        context.create_func_type(&ret, &params, true),
        Call::FunctionType {
            return_ty: 0x20,
            param_tys: vec![0x30, 0x40, 0x30],
            param_count: 3,
            is_var_arg: 1
        }
    );
}

#[test]
fn a_struct_type_comes_back_as_it_went_out() {
    let context = Context::new(CONTEXT);
    let elems = [Type::new(0x30), Type::new(0x40), Type::new(0x50)];
    let call = context.create_struct_type(&elems, false);
    assert_eq!(
        call,
        Call::StructType {
            context: CONTEXT,
            element_tys: vec![0x30, 0x40, 0x50],
            element_count: 3,
            packed: 0
        }
    );
    let Call::StructType { element_tys, element_count, packed, .. } = call else {
        panic!("a struct type was asked for");
    };
    // A backend that reports what it was given.
    assert_eq!(Type::get_struct_elemen_count_reply(element_count), 3);
    assert_eq!(Type::get_struct_element_tys_reply(&element_tys), elems.to_vec());
    for (i, elem) in elems.iter().enumerate() {
        assert_eq!(Type::get_struct_element_ty_reply(element_tys[i]), Some(*elem));
    }
    assert_eq!(Type::get_struct_element_ty_reply(0), None);
    assert!(!Type::flag_reply(packed));
}

#[test]
fn a_packed_struct_type_says_so() {
    let context = Context::new(CONTEXT);
    assert_eq!(
        context.create_struct_type(&[Type::new(0x30)], true),
        Call::StructType { context: CONTEXT, element_tys: vec![0x30], element_count: 1, packed: 1 }
    );
    assert!(Type::flag_reply(bool_to_native(true)));
    assert!(!Type::flag_reply(bool_to_native(false)));
}

#[test]
fn an_empty_struct_type_has_no_elements() {
    let context = Context::new(CONTEXT);
    assert_eq!(
        context.create_struct_type(&[], false),
        Call::StructType { context: CONTEXT, element_tys: vec![], element_count: 0, packed: 0 }
    );
    assert_eq!(Type::get_struct_element_tys_reply(&[]), vec![]);
}

#[test]
fn a_named_struct_type_is_asked_for_by_name() {
    let context = Context::new(CONTEXT);
    assert_eq!(
        context.create_named_struct_type("Point"),
        Call::StructCreateNamed { context: CONTEXT, name: vec![b'P', b'o', b'i', b'n', b't', 0] }
    );
}

#[test]
fn an_array_type_comes_back_as_it_went_out() {
    let context = Context::new(CONTEXT);
    let elem = Type::new(0x30);
    let call = context.create_array_type(&elem, 7);
    assert_eq!(call, Call::ArrayType { element_ty: 0x30, length: 7 });
    let Call::ArrayType { element_ty, length } = call else {
        panic!("an array type was asked for");
    };
    assert_eq!(Type::get_array_length_reply(length), 7);
    assert_eq!(Type::new(element_ty), elem);
    assert_eq!(Type::get_array_length_reply(0), 0);
}

#[test]
fn an_element_index_goes_out_where_the_backend_can_count_it() {
    let ty = Type::new(0x60);
    assert_eq!(
        ty.get_struct_element_ty(2),
        Some(Call::StructGetTypeAtIndex { ty: 0x60, index: 2 })
    );
    assert_eq!(
        ty.get_struct_element_ty(u32::MAX as usize),
        Some(Call::StructGetTypeAtIndex { ty: 0x60, index: u32::MAX })
    );
    if let Some(beyond) = (u32::MAX as usize).checked_add(1) {
        assert_eq!(ty.get_struct_element_ty(beyond), None);
        assert_eq!(ty.get_struct_element_ty(usize::MAX), None);
    }
}

#[test]
fn questions_about_a_type_name_the_type() {
    let ty = Type::new(0x60);
    assert_eq!(ty.get(), 0x60);
    assert_eq!(ty.get_type_kind(), Call::GetTypeKind { ty: 0x60 });
    assert_eq!(ty.get_struct_name(), Call::GetStructName { ty: 0x60 });
    assert_eq!(ty.get_struct_elemen_count(), Call::CountStructElementTypes { ty: 0x60 });
    assert_eq!(ty.get_struct_element_tys(3), Call::GetStructElementTypes { ty: 0x60, capacity: 3 });
    assert_eq!(ty.is_struct_packed(), Call::StructFlag { ty: 0x60, flag: StructFlag::Packed });
    assert_eq!(ty.is_struct_opaque(), Call::StructFlag { ty: 0x60, flag: StructFlag::Opaque });
    assert_eq!(ty.is_struct_literal(), Call::StructFlag { ty: 0x60, flag: StructFlag::Literal });
    assert_eq!(ty.get_int_type_width(), Call::GetIntTypeWidth { ty: 0x60 });
    assert_eq!(ty.get_element_type(), Call::GetElementType { ty: 0x60 });
    assert_eq!(ty.get_array_length(), Call::GetArrayLength { ty: 0x60 });
    assert_eq!(ty.is_pointer_opaque(), Call::PointerTypeIsOpaque { ty: 0x60 });
}

#[test]
fn a_flag_is_set_for_one_only() {
    assert!(Type::flag_reply(1));
    assert!(!Type::flag_reply(0));
    assert!(!Type::flag_reply(2));
    assert!(!Type::flag_reply(-1));
}

#[test]
fn addresses_go_out_in_order() {
    assert_eq!(addresses(&[Type::new(3), Type::new(1), Type::new(2)]), vec![3, 1, 2]);
    assert_eq!(addresses(&[]), Vec::<usize>::new());
}
