use llvm_sys::{LLVMIntPredicate, LLVMOpcode, LLVMRealPredicate};
use llvm_wrap::basic_block::BasicBlock;
use llvm_wrap::builder::{Builder, Cursor};
use llvm_wrap::call::{BinaryOp, Call, CastOp, UnaryOp};
use llvm_wrap::ty::Type;
use llvm_wrap::value::{value_addresses, IntPredicate, RealPredicate, Value};

const B: usize = 0x100;

fn builder() -> Builder {
    Builder::new(B)
}

#[test]
fn a_new_builder_is_not_placed() {
    let builder = builder();
    assert_eq!(builder.get(), B);
    assert_eq!(builder.get_cursor(), Cursor::Unplaced);
}

#[test]
fn placing_replaces_the_whole_cursor() {
    let mut builder = builder();
    let first = BasicBlock::new(0x10);
    let second = BasicBlock::new(0x20);
    let instr = Value::new(0x30);

    assert_eq!(builder.position_at_end(&first), Call::PositionBuilderAtEnd { builder: B, block: 0x10 });
    assert_eq!(builder.get_cursor(), Cursor::AtEnd { block: 0x10 });

    assert_eq!(
        builder.position(&second, &instr),
        Call::PositionBuilder { builder: B, block: 0x20, instr: 0x30 }
    );
    assert_eq!(builder.get_cursor(), Cursor::InBlock { block: 0x20, instr: 0x30 });

    assert_eq!(builder.position_before(&instr), Call::PositionBuilderBefore { builder: B, instr: 0x30 });
    assert_eq!(builder.get_cursor(), Cursor::Before { instr: 0x30 });

    assert_eq!(builder.position_at_end(&second), Call::PositionBuilderAtEnd { builder: B, block: 0x20 });
    assert_eq!(builder.get_cursor(), Cursor::AtEnd { block: 0x20 });
    assert_eq!(builder.get(), B);
}

#[test]
fn building_leaves_the_cursor_where_it_was() {
    let mut builder = builder();
    let block = BasicBlock::new(0x10);
    builder.position_at_end(&block);
    let a = Value::new(1);
    let b = Value::new(2);
    builder.build_add(&a, &b);
    builder.build_return(&a);
    assert_eq!(builder.get_cursor(), Cursor::AtEnd { block: 0x10 });
}

#[test]
fn the_insert_block_is_asked_of_the_backend() {
    assert_eq!(builder().get_insert_block(), Call::GetInsertBlock { builder: B });
}

#[test]
fn each_binary_instruction_goes_out_as_itself() {
    let builder = builder();
    let l = Value::new(1);
    let r = Value::new(2);
    let built = vec![
        (builder.build_add(&l, &r), BinaryOp::Add),
        (builder.build_sub(&l, &r), BinaryOp::Sub),
        (builder.build_mul(&l, &r), BinaryOp::Mul),
        (builder.build_sdiv(&l, &r), BinaryOp::SDiv),
        (builder.build_udiv(&l, &r), BinaryOp::UDiv),
        (builder.build_srem(&l, &r), BinaryOp::SRem),
        (builder.build_urem(&l, &r), BinaryOp::URem),
        (builder.build_ashr(&l, &r), BinaryOp::AShr),
        (builder.build_and(&l, &r), BinaryOp::And),
        (builder.build_or(&l, &r), BinaryOp::Or),
        (builder.build_fadd(&l, &r), BinaryOp::FAdd),
        (builder.build_fsub(&l, &r), BinaryOp::FSub),
        (builder.build_fmul(&l, &r), BinaryOp::FMul),
        (builder.build_fdiv(&l, &r), BinaryOp::FDiv),
        (builder.build_frem(&l, &r), BinaryOp::FRem),
    ];
    for (call, op) in built {
        assert_eq!(call, Call::BuildBinary { builder: B, op, left: 1, right: 2, name: vec![0] });
    }
}

#[test]
fn operands_keep_their_sides() {
    let builder = builder();
    let l = Value::new(7);
    let r = Value::new(9);
    assert_eq!(
        builder.build_sub(&r, &l),
        Call::BuildBinary { builder: B, op: BinaryOp::Sub, left: 9, right: 7, name: vec![0] }
    );
}

#[test]
fn each_unary_instruction_goes_out_as_itself() {
    let builder = builder();
    let v = Value::new(5);
    let built = vec![
        (builder.build_neg(&v), UnaryOp::Neg),
        (builder.build_fneg(&v), UnaryOp::FNeg),
        (builder.build_not(&v), UnaryOp::Not),
    ];
    for (call, op) in built {
        assert_eq!(call, Call::BuildUnary { builder: B, op, value: 5, name: vec![0] });
    }
}

#[test]
fn each_conversion_goes_out_as_itself() {
    let builder = builder();
    let v = Value::new(5);
    let ty = Type::new(6);
    let built = vec![
        (builder.build_bit_cast(&ty, &v), CastOp::BitCast),
        (builder.build_fpcast(&v, &ty), CastOp::FPCast),
        (builder.build_fpext(&v, &ty), CastOp::FPExt),
        (builder.build_fptosi(&v, &ty), CastOp::FPToSI),
        (builder.build_fptoui(&v, &ty), CastOp::FPToUI),
        (builder.build_fptrunc(&v, &ty), CastOp::FPTrunc),
        (builder.build_sitofp(&v, &ty), CastOp::SIToFP),
        (builder.build_uitofp(&v, &ty), CastOp::UIToFP),
        (builder.build_sext(&ty, &v), CastOp::SExt),
        (builder.build_zext(&ty, &v), CastOp::ZExt),
    ];
    for (call, op) in built {
        assert_eq!(call, Call::BuildCast { builder: B, op, value: 5, dest_ty: 6, name: vec![0] });
    }
}

#[test]
fn a_conversion_by_opcode_carries_the_opcode() {
    let builder = builder();
    assert_eq!(
        builder.build_cast(LLVMOpcode::LLVMPtrToInt, &Value::new(5), &Type::new(6)),
        Call::BuildOpcodeCast {
            builder: B,
            opcode: LLVMOpcode::LLVMPtrToInt,
            value: 5,
            dest_ty: 6,
            name: vec![0]
        }
    );
}

#[test]
fn comparisons_carry_their_predicate() {
    let builder = builder();
    let l = Value::new(1);
    let r = Value::new(2);
    assert_eq!(
        builder.build_icmp(IntPredicate::SLt.into(), &l, &r),
        Call::BuildICmp {
            builder: B,
            predicate: LLVMIntPredicate::LLVMIntSLT,
            left: 1,
            right: 2,
            name: vec![0]
        }
    );
    assert_eq!(
        builder.build_fcmp(RealPredicate::UNe.into(), &l, &r),
        Call::BuildFCmp {
            builder: B,
            predicate: LLVMRealPredicate::LLVMRealUNE,
            left: 1,
            right: 2,
            name: vec![0]
        }
    );
}

#[test]
fn memory_instructions_carry_type_and_pointer() {
    let builder = builder();
    let ty = Type::new(6);
    let p = Value::new(8);
    let v = Value::new(9);
    assert_eq!(
        builder.build_alloca(&ty, "slot"),
        Call::BuildAlloca { builder: B, ty: 6, name: vec![b's', b'l', b'o', b't', 0] }
    );
    assert_eq!(
        builder.build_load(&ty, &p),
        Call::BuildLoad { builder: B, ty: 6, pointer: 8, name: vec![0] }
    );
    assert_eq!(builder.build_store(&v, &p), Call::BuildStore { builder: B, value: 9, pointer: 8 });
}

#[test]
fn control_flow_names_its_blocks() {
    let builder = builder();
    let cond = Value::new(1);
    let then_block = BasicBlock::new(0x10);
    let else_block = BasicBlock::new(0x20);
    assert_eq!(builder.build_br(&then_block), Call::BuildBr { builder: B, block: 0x10 });
    assert_eq!(
        builder.build_cond_br(&cond, &then_block, &else_block),
        Call::BuildCondBr { builder: B, condition: 1, then_block: 0x10, else_block: 0x20 }
    );
    assert_eq!(builder.build_return_void(), Call::BuildRetVoid { builder: B });
    assert_eq!(builder.build_return(&cond), Call::BuildRet { builder: B, value: 1 });
}

#[test]
fn a_call_carries_its_arguments_in_order() {
    let builder = builder();
    let func_ty = Type::new(6);
    let func = Value::new(7);
    let args = [Value::new(3), Value::new(1), Value::new(2)];
    assert_eq!(
        builder.build_call(&func_ty, &func, &args, "r"),
        Call::BuildCall {
            builder: B,
            func_ty: 6,
            func: 7,
            arguments: vec![3, 1, 2],
            argument_count: 3,
            name: vec![b'r', 0]
        }
    );
    assert_eq!(
        builder.build_call(&func_ty, &func, &[], ""),
        Call::BuildCall {
            builder: B,
            func_ty: 6,
            func: 7,
            arguments: vec![],
            argument_count: 0,
            name: vec![0]
        }
    );
    assert_eq!(value_addresses(&args), vec![3, 1, 2]);
}

#[test]
fn a_constant_says_whether_it_is_sign_extended() {
    let builder = builder();
    let ty = Type::new(6);
    assert_eq!(
        builder.const_int(&ty, u64::MAX, true),
        Call::ConstInt { integer_ty: 6, value: u64::MAX, sign_extend: 1 }
    );
    assert_eq!(
        builder.const_int(&ty, 0, false),
        Call::ConstInt { integer_ty: 6, value: 0, sign_extend: 0 }
    );
}
