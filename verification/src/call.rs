//! Requests to the backend.
//!
//! Nothing in this library reaches the backend itself. Each operation
//! instead says, as a [`Call`], which of the backend's functions is to be
//! called and with which arguments, already in the form the backend takes:
//! addresses for handles, C strings for names, a count beside each array,
//! the backend's own integers for flags. Whoever holds the backend performs
//! the call and hands the reply to the operation's counterpart.

use llvm_sys::analysis::LLVMVerifierFailureAction;
use llvm_sys::target_machine::{LLVMCodeGenFileType, LLVMCodeGenOptLevel, LLVMCodeModel, LLVMRelocMode};
use crate::ty::TypeKind;
use llvm_sys::{LLVMIntPredicate, LLVMLinkage, LLVMOpcode, LLVMRealPredicate, LLVMTypeKind};
use vstd::prelude::*;

verus! {

/// The types that a context hands out without any argument.
#[derive(Debug, Clone, Copy, PartialEq, Eq, Structural)]
pub enum Primitive {
    Void,
    Int1,
    Int8,
    Int16,
    Int32,
    Int64,
    Int128,
    BFloat,
    Half,
    Float,
    Double,
    X86Fp80,
    Fp128,
    PpcFp128,
}

/// The instructions that take two operands and a name.
#[derive(Debug, Clone, Copy, PartialEq, Eq, Structural)]
pub enum BinaryOp {
    Add,
    Sub,
    Mul,
    SDiv,
    UDiv,
    SRem,
    URem,
    AShr,
    And,
    Or,
    FAdd,
    FSub,
    FMul,
    FDiv,
    FRem,
}

/// The instructions that take one operand and a name.
#[derive(Debug, Clone, Copy, PartialEq, Eq, Structural)]
pub enum UnaryOp {
    Neg,
    FNeg,
    Not,
}

/// The conversions that take a value, a destination type and a name.
#[derive(Debug, Clone, Copy, PartialEq, Eq, Structural)]
pub enum CastOp {
    BitCast,
    FPCast,
    FPExt,
    FPToSI,
    FPToUI,
    FPTrunc,
    SIToFP,
    UIToFP,
    SExt,
    ZExt,
}

/// The yes-or-no questions about a struct type.
#[derive(Debug, Clone, Copy, PartialEq, Eq, Structural)]
pub enum StructFlag {
    Packed,
    Opaque,
    Literal,
}

/// The process-wide registries that object emission needs filled.
#[derive(Debug, Clone, Copy, PartialEq, Eq, Structural)]
pub enum Registry {
    TargetInfos,
    Targets,
    TargetMCs,
    AsmParsers,
    AsmPrinters,
}

/// One call of a backend function. `Text` is what holds a C string and
/// `Handles` what holds an array of addresses: vectors in a request that is
/// to be performed, sequences in its description.
#[derive(Debug, PartialEq)]
pub enum CallShape<Text, Handles> {
    /// `LLVMContextCreate`.
    ContextCreate,
    /// `LLVMContextDispose`.
    ContextDispose { context: usize },
    /// `LLVMModuleCreateWithNameInContext`.
    ModuleCreateWithName { name: Text, context: usize },
    /// `LLVMCreateBuilderInContext`.
    CreateBuilder { context: usize },
    /// The function that gives `primitive` in a context, such as
    /// `LLVMVoidTypeInContext` or `LLVMInt32TypeInContext`.
    PrimitiveType { context: usize, primitive: Primitive },
    /// `LLVMIntTypeInContext`.
    IntType { context: usize, bits: u32 },
    /// `LLVMPointerTypeInContext`.
    PointerType { context: usize, address_space: u32 },
    /// `LLVMFunctionType`.
    FunctionType { return_ty: usize, param_tys: Handles, param_count: u32, is_var_arg: i32 },
    /// `LLVMArrayType2`.
    ArrayType { element_ty: usize, length: u64 },
    /// `LLVMStructTypeInContext`.
    StructType { context: usize, element_tys: Handles, element_count: u32, packed: i32 },
    /// `LLVMStructCreateNamed`.
    StructCreateNamed { context: usize, name: Text },
    /// `LLVMAppendBasicBlockInContext`.
    AppendBasicBlock { context: usize, function: usize, name: Text },
    /// `LLVMDisposeBuilder`.
    DisposeBuilder { builder: usize },
    /// `LLVMPositionBuilder`.
    PositionBuilder { builder: usize, block: usize, instr: usize },
    /// `LLVMPositionBuilderBefore`.
    PositionBuilderBefore { builder: usize, instr: usize },
    /// `LLVMPositionBuilderAtEnd`.
    PositionBuilderAtEnd { builder: usize, block: usize },
    /// `LLVMGetInsertBlock`.
    GetInsertBlock { builder: usize },
    /// The function that builds `op`, such as `LLVMBuildAdd`.
    BuildBinary { builder: usize, op: BinaryOp, left: usize, right: usize, name: Text },
    /// The function that builds `op`, such as `LLVMBuildNeg`.
    BuildUnary { builder: usize, op: UnaryOp, value: usize, name: Text },
    /// The function that builds `op`, such as `LLVMBuildBitCast`.
    BuildCast { builder: usize, op: CastOp, value: usize, dest_ty: usize, name: Text },
    /// `LLVMBuildCast`.
    BuildOpcodeCast { builder: usize, opcode: LLVMOpcode, value: usize, dest_ty: usize, name: Text },
    /// `LLVMBuildICmp`.
    BuildICmp { builder: usize, predicate: LLVMIntPredicate, left: usize, right: usize, name: Text },
    /// `LLVMBuildFCmp`.
    BuildFCmp { builder: usize, predicate: LLVMRealPredicate, left: usize, right: usize, name: Text },
    /// `LLVMBuildAlloca`.
    BuildAlloca { builder: usize, ty: usize, name: Text },
    /// `LLVMBuildLoad2`.
    BuildLoad { builder: usize, ty: usize, pointer: usize, name: Text },
    /// `LLVMBuildStore`.
    BuildStore { builder: usize, value: usize, pointer: usize },
    /// `LLVMBuildRetVoid`.
    BuildRetVoid { builder: usize },
    /// `LLVMBuildRet`.
    BuildRet { builder: usize, value: usize },
    /// `LLVMBuildCondBr`.
    BuildCondBr { builder: usize, condition: usize, then_block: usize, else_block: usize },
    /// `LLVMBuildBr`.
    BuildBr { builder: usize, block: usize },
    /// `LLVMBuildCall2`.
    BuildCall {
        builder: usize,
        func_ty: usize,
        func: usize,
        arguments: Handles,
        argument_count: u32,
        name: Text,
    },
    /// `LLVMConstInt`.
    ConstInt { integer_ty: usize, value: u64, sign_extend: i32 },
    /// `LLVMSetTarget`.
    SetTarget { module: usize, triple: Text },
    /// `LLVMAddFunction`.
    AddFunction { module: usize, name: Text, func_ty: usize },
    /// `LLVMWriteBitcodeToFile`.
    WriteBitcodeToFile { module: usize, path: Text },
    /// `LLVMDisposeModule`.
    DisposeModule { module: usize },
    /// `LLVMGetParam`.
    GetParam { function: usize, index: u32 },
    /// `LLVMSetLinkage`.
    SetLinkage { value: usize, linkage: LLVMLinkage },
    /// `LLVMTypeOf`.
    TypeOf { value: usize },
    /// `LLVMVerifyFunction`.
    VerifyFunction { function: usize, action: LLVMVerifierFailureAction },
    /// `LLVMDeleteFunction`.
    DeleteFunction { function: usize },
    /// `LLVMGetTypeKind`.
    GetTypeKind { ty: usize },
    /// `LLVMGetStructName`.
    GetStructName { ty: usize },
    /// `LLVMCountStructElementTypes`.
    CountStructElementTypes { ty: usize },
    /// `LLVMGetStructElementTypes`, into an array with room for `capacity`
    /// addresses.
    GetStructElementTypes { ty: usize, capacity: usize },
    /// `LLVMStructGetTypeAtIndex`.
    StructGetTypeAtIndex { ty: usize, index: u32 },
    /// `LLVMIsPackedStruct`, `LLVMIsOpaqueStruct` or `LLVMIsLiteralStruct`, by
    /// `flag`.
    StructFlag { ty: usize, flag: StructFlag },
    /// `LLVMGetIntTypeWidth`.
    GetIntTypeWidth { ty: usize },
    /// `LLVMGetElementType`.
    GetElementType { ty: usize },
    /// `LLVMGetArrayLength2`.
    GetArrayLength { ty: usize },
    /// `LLVMPointerTypeIsOpaque`.
    PointerTypeIsOpaque { ty: usize },
    /// `LLVMGetBasicBlockTerminator`.
    GetBasicBlockTerminator { block: usize },
    /// The function that fills `registry`, such as
    /// `LLVM_InitializeAllTargetInfos`.
    InitializeAll { registry: Registry },
    /// `LLVMGetDefaultTargetTriple`.
    GetDefaultTargetTriple,
    /// `LLVMGetTargetFromName`.
    GetTargetFromName { name: Text },
    /// `LLVMGetTargetFromTriple`.
    GetTargetFromTriple { triple: Text },
    /// `LLVMCreateTargetMachine`.
    CreateTargetMachine {
        target: usize,
        triple: Text,
        cpu: Text,
        features: Text,
        level: LLVMCodeGenOptLevel,
        reloc: LLVMRelocMode,
        code_model: LLVMCodeModel,
    },
    /// `LLVMCreateTargetDataLayout`.
    CreateTargetDataLayout { machine: usize },
    /// `LLVMTargetMachineEmitToFile`.
    TargetMachineEmitToFile { machine: usize, module: usize, file: Text, file_type: LLVMCodeGenFileType },
}

/// A request that can be performed.
pub type Call = CallShape<Vec<u8>, Vec<usize>>;

/// What a request says, in mathematical terms.
pub type CallView = CallShape<Seq<u8>, Seq<usize>>;

impl View for CallShape<Vec<u8>, Vec<usize>> {
    type V = CallShape<Seq<u8>, Seq<usize>>;

    open spec fn view(&self) -> CallShape<Seq<u8>, Seq<usize>> {
        match *self {
            CallShape::ContextCreate => CallShape::ContextCreate,
            CallShape::ContextDispose { context } => CallShape::ContextDispose { context },
            CallShape::ModuleCreateWithName { name, context } => CallShape::ModuleCreateWithName {
                name: name@,
                context,
            },
            CallShape::CreateBuilder { context } => CallShape::CreateBuilder { context },
            CallShape::PrimitiveType { context, primitive } => CallShape::PrimitiveType {
                context,
                primitive,
            },
            CallShape::IntType { context, bits } => CallShape::IntType { context, bits },
            CallShape::PointerType { context, address_space } => CallShape::PointerType {
                context,
                address_space,
            },
            CallShape::FunctionType {
                return_ty,
                param_tys,
                param_count,
                is_var_arg,
            } => CallShape::FunctionType {
                return_ty,
                param_tys: param_tys@,
                param_count,
                is_var_arg,
            },
            CallShape::ArrayType { element_ty, length } => CallShape::ArrayType {
                element_ty,
                length,
            },
            CallShape::StructType {
                context,
                element_tys,
                element_count,
                packed,
            } => CallShape::StructType {
                context,
                element_tys: element_tys@,
                element_count,
                packed,
            },
            CallShape::StructCreateNamed { context, name } => CallShape::StructCreateNamed {
                context,
                name: name@,
            },
            CallShape::AppendBasicBlock { context, function, name } => CallShape::AppendBasicBlock {
                context,
                function,
                name: name@,
            },
            CallShape::DisposeBuilder { builder } => CallShape::DisposeBuilder { builder },
            CallShape::PositionBuilder { builder, block, instr } => CallShape::PositionBuilder {
                builder,
                block,
                instr,
            },
            CallShape::PositionBuilderBefore {
                builder,
                instr,
            } => CallShape::PositionBuilderBefore {
                builder,
                instr,
            },
            CallShape::PositionBuilderAtEnd { builder, block } => CallShape::PositionBuilderAtEnd {
                builder,
                block,
            },
            CallShape::GetInsertBlock { builder } => CallShape::GetInsertBlock { builder },
            CallShape::BuildBinary { builder, op, left, right, name } => CallShape::BuildBinary {
                builder,
                op,
                left,
                right,
                name: name@,
            },
            CallShape::BuildUnary { builder, op, value, name } => CallShape::BuildUnary {
                builder,
                op,
                value,
                name: name@,
            },
            CallShape::BuildCast { builder, op, value, dest_ty, name } => CallShape::BuildCast {
                builder,
                op,
                value,
                dest_ty,
                name: name@,
            },
            CallShape::BuildOpcodeCast {
                builder,
                opcode,
                value,
                dest_ty,
                name,
            } => CallShape::BuildOpcodeCast {
                builder,
                opcode,
                value,
                dest_ty,
                name: name@,
            },
            CallShape::BuildICmp { builder, predicate, left, right, name } => CallShape::BuildICmp {
                builder,
                predicate,
                left,
                right,
                name: name@,
            },
            CallShape::BuildFCmp { builder, predicate, left, right, name } => CallShape::BuildFCmp {
                builder,
                predicate,
                left,
                right,
                name: name@,
            },
            CallShape::BuildAlloca { builder, ty, name } => CallShape::BuildAlloca {
                builder,
                ty,
                name: name@,
            },
            CallShape::BuildLoad { builder, ty, pointer, name } => CallShape::BuildLoad {
                builder,
                ty,
                pointer,
                name: name@,
            },
            CallShape::BuildStore { builder, value, pointer } => CallShape::BuildStore {
                builder,
                value,
                pointer,
            },
            CallShape::BuildRetVoid { builder } => CallShape::BuildRetVoid { builder },
            CallShape::BuildRet { builder, value } => CallShape::BuildRet { builder, value },
            CallShape::BuildCondBr {
                builder,
                condition,
                then_block,
                else_block,
            } => CallShape::BuildCondBr {
                builder,
                condition,
                then_block,
                else_block,
            },
            CallShape::BuildBr { builder, block } => CallShape::BuildBr { builder, block },
            CallShape::BuildCall {
                builder,
                func_ty,
                func,
                arguments,
                argument_count,
                name,
            } => CallShape::BuildCall {
                builder,
                func_ty,
                func,
                arguments: arguments@,
                argument_count,
                name: name@,
            },
            CallShape::ConstInt { integer_ty, value, sign_extend } => CallShape::ConstInt {
                integer_ty,
                value,
                sign_extend,
            },
            CallShape::SetTarget { module, triple } => CallShape::SetTarget {
                module,
                triple: triple@,
            },
            CallShape::AddFunction { module, name, func_ty } => CallShape::AddFunction {
                module,
                name: name@,
                func_ty,
            },
            CallShape::WriteBitcodeToFile { module, path } => CallShape::WriteBitcodeToFile {
                module,
                path: path@,
            },
            CallShape::DisposeModule { module } => CallShape::DisposeModule { module },
            CallShape::GetParam { function, index } => CallShape::GetParam { function, index },
            CallShape::SetLinkage { value, linkage } => CallShape::SetLinkage { value, linkage },
            CallShape::TypeOf { value } => CallShape::TypeOf { value },
            CallShape::VerifyFunction { function, action } => CallShape::VerifyFunction {
                function,
                action,
            },
            CallShape::DeleteFunction { function } => CallShape::DeleteFunction { function },
            CallShape::GetTypeKind { ty } => CallShape::GetTypeKind { ty },
            CallShape::GetStructName { ty } => CallShape::GetStructName { ty },
            CallShape::CountStructElementTypes { ty } => CallShape::CountStructElementTypes { ty },
            CallShape::GetStructElementTypes { ty, capacity } => CallShape::GetStructElementTypes {
                ty,
                capacity,
            },
            CallShape::StructGetTypeAtIndex { ty, index } => CallShape::StructGetTypeAtIndex {
                ty,
                index,
            },
            CallShape::StructFlag { ty, flag } => CallShape::StructFlag { ty, flag },
            CallShape::GetIntTypeWidth { ty } => CallShape::GetIntTypeWidth { ty },
            CallShape::GetElementType { ty } => CallShape::GetElementType { ty },
            CallShape::GetArrayLength { ty } => CallShape::GetArrayLength { ty },
            CallShape::PointerTypeIsOpaque { ty } => CallShape::PointerTypeIsOpaque { ty },
            CallShape::GetBasicBlockTerminator { block } => CallShape::GetBasicBlockTerminator {
                block,
            },
            CallShape::InitializeAll { registry } => CallShape::InitializeAll { registry },
            CallShape::GetDefaultTargetTriple => CallShape::GetDefaultTargetTriple,
            CallShape::GetTargetFromName { name } => CallShape::GetTargetFromName { name: name@ },
            CallShape::GetTargetFromTriple { triple } => CallShape::GetTargetFromTriple {
                triple: triple@,
            },
            CallShape::CreateTargetMachine {
                target,
                triple,
                cpu,
                features,
                level,
                reloc,
                code_model,
            } => CallShape::CreateTargetMachine {
                target,
                triple: triple@,
                cpu: cpu@,
                features: features@,
                level,
                reloc,
                code_model,
            },
            CallShape::CreateTargetDataLayout { machine } => CallShape::CreateTargetDataLayout {
                machine,
            },
            CallShape::TargetMachineEmitToFile {
                machine,
                module,
                file,
                file_type,
            } => CallShape::TargetMachineEmitToFile {
                machine,
                module,
                file: file@,
                file_type,
            },
        }
    }
}

/// What came back from a call. `Bytes` is what holds text from the backend,
/// without its closing zero byte, and `Handles` what holds an array of
/// addresses: vectors in a reply that was received, sequences in its
/// description.
#[derive(Debug, PartialEq)]
pub enum ReplyShape<Bytes, Handles> {
    /// The call is made; it gives nothing back.
    Done,
    /// The address of what was made or asked for; null where there is none.
    Address { pointer: usize },
    /// The backend's integer for a yes or a no, or for how a call went.
    Flag { flag: i32 },
    /// A number that the backend counts in 32 bits.
    Count { count: u32 },
    /// A length that the backend counts in 64 bits.
    Length { length: u64 },
    /// The tag of a type's kind.
    Kind { kind: LLVMTypeKind },
    /// A text.
    Text { bytes: Bytes },
    /// An array of addresses that the backend filled.
    Addresses { pointers: Handles },
    /// The outcome of a target lookup: the status, the address of the target
    /// and the error message.
    Lookup { status: i32, target: usize, message: Bytes },
    /// The outcome of an emission: the status and the error message.
    Emission { status: i32, message: Bytes },
}

/// A reply that was received.
pub type Reply = ReplyShape<Vec<u8>, Vec<usize>>;

/// What a reply says, in mathematical terms.
pub type ReplyView = ReplyShape<Seq<u8>, Seq<usize>>;

impl View for ReplyShape<Vec<u8>, Vec<usize>> {
    type V = ReplyShape<Seq<u8>, Seq<usize>>;

    open spec fn view(&self) -> ReplyShape<Seq<u8>, Seq<usize>> {
        match *self {
            ReplyShape::Done => ReplyShape::Done,
            ReplyShape::Address { pointer } => ReplyShape::Address { pointer },
            ReplyShape::Flag { flag } => ReplyShape::Flag { flag },
            ReplyShape::Count { count } => ReplyShape::Count { count },
            ReplyShape::Length { length } => ReplyShape::Length { length },
            ReplyShape::Kind { kind } => ReplyShape::Kind { kind },
            ReplyShape::Text { bytes } => ReplyShape::Text { bytes: bytes@ },
            ReplyShape::Addresses { pointers } => ReplyShape::Addresses { pointers: pointers@ },
            ReplyShape::Lookup { status, target, message } => ReplyShape::Lookup {
                status,
                target,
                message: message@,
            },
            ReplyShape::Emission { status, message } => ReplyShape::Emission { status, message: message@ },
        }
    }
}

impl Primitive {
    /// The kind of type that this primitive is.
    pub open spec fn requested_kind(self) -> TypeKind {
        match self {
            Primitive::Void => TypeKind::Void,
            Primitive::Int1
            | Primitive::Int8
            | Primitive::Int16
            | Primitive::Int32
            | Primitive::Int64
            | Primitive::Int128 => TypeKind::Integer,
            Primitive::BFloat => TypeKind::BFloat,
            Primitive::Half => TypeKind::Half,
            Primitive::Float => TypeKind::Float,
            Primitive::Double => TypeKind::Double,
            Primitive::X86Fp80 => TypeKind::X86Fp80,
            Primitive::Fp128 => TypeKind::FP128,
            Primitive::PpcFp128 => TypeKind::PpcFp128,
        }
    }

    /// The bit width of this primitive, where it is an integer type.
    pub open spec fn requested_width(self) -> Option<u32> {
        match self {
            Primitive::Int1 => Some(1),
            Primitive::Int8 => Some(8),
            Primitive::Int16 => Some(16),
            Primitive::Int32 => Some(32),
            Primitive::Int64 => Some(64),
            Primitive::Int128 => Some(128),
            _ => None,
        }
    }

    /// The kind of type that this primitive is.
    pub fn kind(self) -> (kind: TypeKind)
        ensures
            kind == self.requested_kind(),
    {
        match self {
            Primitive::Void => TypeKind::Void,
            Primitive::Int1
            | Primitive::Int8
            | Primitive::Int16
            | Primitive::Int32
            | Primitive::Int64
            | Primitive::Int128 => TypeKind::Integer,
            Primitive::BFloat => TypeKind::BFloat,
            Primitive::Half => TypeKind::Half,
            Primitive::Float => TypeKind::Float,
            Primitive::Double => TypeKind::Double,
            Primitive::X86Fp80 => TypeKind::X86Fp80,
            Primitive::Fp128 => TypeKind::FP128,
            Primitive::PpcFp128 => TypeKind::PpcFp128,
        }
    }

    /// The bit width of this primitive, where it is an integer type.
    pub fn int_width(self) -> (width: Option<u32>)
        ensures
            width == self.requested_width(),
            width is Some <==> self.requested_kind() == TypeKind::Integer,
    {
        match self {
            Primitive::Int1 => Some(1),
            Primitive::Int8 => Some(8),
            Primitive::Int16 => Some(16),
            Primitive::Int32 => Some(32),
            Primitive::Int64 => Some(64),
            Primitive::Int128 => Some(128),
            _ => None,
        }
    }
}

/// The kind of the type that a request asks for, where it asks for a type.
pub open spec fn requested_kind(call: CallView) -> Option<TypeKind> {
    match call {
        CallShape::PrimitiveType { primitive, .. } => Some(primitive.requested_kind()),
        CallShape::IntType { .. } => Some(TypeKind::Integer),
        CallShape::PointerType { .. } => Some(TypeKind::Pointer),
        CallShape::FunctionType { .. } => Some(TypeKind::Function),
        CallShape::ArrayType { .. } => Some(TypeKind::Array),
        CallShape::StructType { .. } => Some(TypeKind::Struct),
        CallShape::StructCreateNamed { .. } => Some(TypeKind::Struct),
        _ => None,
    }
}

/// The bit width of the type that a request asks for, where it asks for an
/// integer type.
pub open spec fn requested_width(call: CallView) -> Option<u32> {
    match call {
        CallShape::PrimitiveType { primitive, .. } => primitive.requested_width(),
        CallShape::IntType { bits, .. } => Some(bits),
        _ => None,
    }
}

} // verus!
