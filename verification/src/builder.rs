//! The builder: the one cursor at which instructions are inserted.

use crate::basic_block::BasicBlock;
use crate::call::{BinaryOp, Call, CallView, CastOp, UnaryOp};
use crate::handle::Handle;
use crate::ty::{bool_to_native, native_bool, Type};
use crate::util::{c_string, empty_twine, is_c_text, no_name, string_to_cstring};
use crate::value::{value_addresses, value_addresses_of, Value};
use llvm_sys::{LLVMIntPredicate, LLVMOpcode, LLVMRealPredicate};
use vstd::prelude::*;

verus! {

/// Where a builder inserts. A builder has one cursor; placing it anew
/// replaces the whole of it. An instruction goes in at the cursor and the
/// cursor then stands behind it: before the same instruction, or at the end
/// of the same block, as it did.
#[derive(Debug, Clone, Copy, PartialEq, Eq, Structural)]
pub enum Cursor {
    /// The builder was not placed yet.
    Unplaced,
    /// Before the instruction `instr` of the block `block`.
    InBlock { block: usize, instr: usize },
    /// Before the instruction `instr`, in whichever block holds it.
    Before { instr: usize },
    /// At the end of the block `block`.
    AtEnd { block: usize },
}

/// The instruction builder.
#[derive(Debug, PartialEq, Eq)]
pub struct Builder {
    handle: Handle,
    cursor: Cursor,
}

impl View for Builder {
    type V = usize;

    /// The address that the handle holds.
    closed spec fn view(&self) -> usize {
        self.handle@
    }
}

impl Builder {
    /// Where the builder was last placed.
    pub closed spec fn cursor(self) -> Cursor {
        self.cursor
    }

    /// The request for an instruction of two operands.
    pub open spec fn binary_call(self, op: BinaryOp, left: Value, right: Value) -> CallView {
        CallView::BuildBinary { builder: self@, op, left: left@, right: right@, name: no_name() }
    }

    /// The request for an instruction of one operand.
    pub open spec fn unary_call(self, op: UnaryOp, value: Value) -> CallView {
        CallView::BuildUnary { builder: self@, op, value: value@, name: no_name() }
    }

    /// The request for a conversion.
    pub open spec fn cast_call(self, op: CastOp, value: Value, dest_ty: Type) -> CallView {
        CallView::BuildCast { builder: self@, op, value: value@, dest_ty: dest_ty@, name: no_name() }
    }

    /// Wraps the address that the backend gave for a builder. A new builder
    /// is not placed anywhere.
    pub fn new(pointer: usize) -> (builder: Self)
        requires
            pointer != 0,
        ensures
            builder@ == pointer,
            builder.cursor() == Cursor::Unplaced,
    {
        Self { handle: Handle::new(pointer), cursor: Cursor::Unplaced }
    }

    /// The address that the handle holds.
    #[inline]
    pub fn get(&self) -> (pointer: usize)
        ensures
            pointer == self@,
            pointer != 0,
    {
        self.handle.get()
    }

    /// Where the builder was last placed.
    pub fn get_cursor(&self) -> (cursor: Cursor)
        ensures
            cursor == self.cursor(),
    {
        self.cursor
    }

    /// Places the builder before the instruction `instr` of `block`,
    /// wherever it stood, and asks the backend to do the same. There is no
    /// reply.
    pub fn position(&mut self, block: &BasicBlock, instr: &Value) -> (call: Call)
        ensures
            call@ == (CallView::PositionBuilder {
                builder: old(self)@,
                block: block@,
                instr: instr@,
            }),
            final(self)@ == old(self)@,
            final(self).cursor() == (Cursor::InBlock { block: block@, instr: instr@ }),
    {
        self.cursor = Cursor::InBlock { block: block.get(), instr: instr.get() };
        Call::PositionBuilder { builder: self.handle.get(), block: block.get(), instr: instr.get() }
    }

    /// Places the builder before the instruction `instr`, wherever it stood,
    /// and asks the backend to do the same. There is no reply.
    pub fn position_before(&mut self, instr: &Value) -> (call: Call)
        ensures
            call@ == (CallView::PositionBuilderBefore { builder: old(self)@, instr: instr@ }),
            final(self)@ == old(self)@,
            final(self).cursor() == (Cursor::Before { instr: instr@ }),
    {
        self.cursor = Cursor::Before { instr: instr.get() };
        Call::PositionBuilderBefore { builder: self.handle.get(), instr: instr.get() }
    }

    /// Places the builder at the end of `block`, wherever it stood, and asks
    /// the backend to do the same. There is no reply.
    pub fn position_at_end(&mut self, block: &BasicBlock) -> (call: Call)
        ensures
            call@ == (CallView::PositionBuilderAtEnd { builder: old(self)@, block: block@ }),
            final(self)@ == old(self)@,
            final(self).cursor() == (Cursor::AtEnd { block: block@ }),
    {
        self.cursor = Cursor::AtEnd { block: block.get() };
        Call::PositionBuilderAtEnd { builder: self.handle.get(), block: block.get() }
    }

    /// Asks for the block that the builder inserts into. The reply is the
    /// block's address, for [`BasicBlock::new`].
    pub fn get_insert_block(&self) -> (call: Call)
        ensures
            call@ == (CallView::GetInsertBlock { builder: self@ }),
    {
        Call::GetInsertBlock { builder: self.get() }
    }

    fn build_binary(&self, op: BinaryOp, left: &Value, right: &Value) -> (call: Call)
        ensures
            call@ == self.binary_call(op, *left, *right),
    {
        Call::BuildBinary { builder: self.get(), op, left: left.get(), right: right.get(), name: empty_twine() }
    }

    fn build_named_cast(&self, op: CastOp, value: &Value, dest_ty: &Type) -> (call: Call)
        ensures
            call@ == self.cast_call(op, *value, *dest_ty),
    {
        Call::BuildCast {
            builder: self.get(),
            op,
            value: value.get(),
            dest_ty: dest_ty.get(),
            name: empty_twine(),
        }
    }

    /// Asks for an `Add` instruction at the cursor. The reply is the
    /// instruction's address, for [`Value::new`].
    pub fn build_add(&self, left: &Value, right: &Value) -> (call: Call)
        ensures
            call@ == self.binary_call(BinaryOp::Add, *left, *right),
    {
        self.build_binary(BinaryOp::Add, left, right)
    }

    /// Asks for a `Sub` instruction at the cursor. The reply is the
    /// instruction's address, for [`Value::new`].
    pub fn build_sub(&self, left: &Value, right: &Value) -> (call: Call)
        ensures
            call@ == self.binary_call(BinaryOp::Sub, *left, *right),
    {
        self.build_binary(BinaryOp::Sub, left, right)
    }

    /// Asks for a `Mul` instruction at the cursor. The reply is the
    /// instruction's address, for [`Value::new`].
    pub fn build_mul(&self, left: &Value, right: &Value) -> (call: Call)
        ensures
            call@ == self.binary_call(BinaryOp::Mul, *left, *right),
    {
        self.build_binary(BinaryOp::Mul, left, right)
    }

    /// Asks for an `SDiv` instruction at the cursor. The reply is the
    /// instruction's address, for [`Value::new`].
    pub fn build_sdiv(&self, left: &Value, right: &Value) -> (call: Call)
        ensures
            call@ == self.binary_call(BinaryOp::SDiv, *left, *right),
    {
        self.build_binary(BinaryOp::SDiv, left, right)
    }

    /// Asks for a `UDiv` instruction at the cursor. The reply is the
    /// instruction's address, for [`Value::new`].
    pub fn build_udiv(&self, left: &Value, right: &Value) -> (call: Call)
        ensures
            call@ == self.binary_call(BinaryOp::UDiv, *left, *right),
    {
        self.build_binary(BinaryOp::UDiv, left, right)
    }

    /// Asks for an `SRem` instruction at the cursor. The reply is the
    /// instruction's address, for [`Value::new`].
    pub fn build_srem(&self, left: &Value, right: &Value) -> (call: Call)
        ensures
            call@ == self.binary_call(BinaryOp::SRem, *left, *right),
    {
        self.build_binary(BinaryOp::SRem, left, right)
    }

    /// Asks for a `URem` instruction at the cursor. The reply is the
    /// instruction's address, for [`Value::new`].
    pub fn build_urem(&self, left: &Value, right: &Value) -> (call: Call)
        ensures
            call@ == self.binary_call(BinaryOp::URem, *left, *right),
    {
        self.build_binary(BinaryOp::URem, left, right)
    }

    /// Asks for an `ICmp` instruction at the cursor, which compares two
    /// integers by the relation `op`. The reply is the instruction's address,
    /// for [`Value::new`].
    pub fn build_icmp(&self, op: LLVMIntPredicate, left: &Value, right: &Value) -> (call: Call)
        ensures
            call@ == (CallView::BuildICmp {
                builder: self@,
                predicate: op,
                left: left@,
                right: right@,
                name: no_name(),
            }),
    {
        Call::BuildICmp {
            builder: self.get(),
            predicate: op,
            left: left.get(),
            right: right.get(),
            name: empty_twine(),
        }
    }

    /// Asks for an arithmetic shift right instruction at the cursor. The reply is the
    /// instruction's address, for [`Value::new`].
    pub fn build_ashr(&self, left: &Value, right: &Value) -> (call: Call)
        ensures
            call@ == self.binary_call(BinaryOp::AShr, *left, *right),
    {
        self.build_binary(BinaryOp::AShr, left, right)
    }

    /// Asks for an `And` instruction at the cursor. The reply is the
    /// instruction's address, for [`Value::new`].
    pub fn build_and(&self, left: &Value, right: &Value) -> (call: Call)
        ensures
            call@ == self.binary_call(BinaryOp::And, *left, *right),
    {
        self.build_binary(BinaryOp::And, left, right)
    }

    /// Asks for a `BitCast` instruction at the cursor, which converts `value`
    /// to the type `ty`. The reply is the instruction's address, for
    /// [`Value::new`].
    pub fn build_bit_cast(&self, ty: &Type, value: &Value) -> (call: Call)
        ensures
            call@ == self.cast_call(CastOp::BitCast, *value, *ty),
    {
        self.build_named_cast(CastOp::BitCast, value, ty)
    }

    /// Asks for an `FAdd` instruction at the cursor. The reply is the
    /// instruction's address, for [`Value::new`].
    pub fn build_fadd(&self, left: &Value, right: &Value) -> (call: Call)
        ensures
            call@ == self.binary_call(BinaryOp::FAdd, *left, *right),
    {
        self.build_binary(BinaryOp::FAdd, left, right)
    }

    /// Asks for an `FCmp` instruction at the cursor, which compares two
    /// floating-point numbers by the relation `predicate`. The reply is the
    /// instruction's address, for [`Value::new`].
    pub fn build_fcmp(&self, predicate: LLVMRealPredicate, left: &Value, right: &Value) -> (call: Call)
        ensures
            call@ == (CallView::BuildFCmp {
                builder: self@,
                predicate,
                left: left@,
                right: right@,
                name: no_name(),
            }),
    {
        Call::BuildFCmp {
            builder: self.get(),
            predicate,
            left: left.get(),
            right: right.get(),
            name: empty_twine(),
        }
    }

    /// Asks for an `FDiv` instruction at the cursor. The reply is the
    /// instruction's address, for [`Value::new`].
    pub fn build_fdiv(&self, left: &Value, right: &Value) -> (call: Call)
        ensures
            call@ == self.binary_call(BinaryOp::FDiv, *left, *right),
    {
        self.build_binary(BinaryOp::FDiv, left, right)
    }

    /// Asks for an `FMul` instruction at the cursor. The reply is the
    /// instruction's address, for [`Value::new`].
    pub fn build_fmul(&self, left: &Value, right: &Value) -> (call: Call)
        ensures
            call@ == self.binary_call(BinaryOp::FMul, *left, *right),
    {
        self.build_binary(BinaryOp::FMul, left, right)
    }

    /// Asks for an `FNeg` instruction at the cursor. The reply is the
    /// instruction's address, for [`Value::new`].
    pub fn build_fneg(&self, value: &Value) -> (call: Call)
        ensures
            call@ == self.unary_call(UnaryOp::FNeg, *value),
    {
        Call::BuildUnary { builder: self.get(), op: UnaryOp::FNeg, value: value.get(), name: empty_twine() }
    }

    /// Asks for an `FPCast` instruction at the cursor, which converts `value`
    /// to the type `ty`. The reply is the instruction's address, for
    /// [`Value::new`].
    pub fn build_fpcast(&self, value: &Value, ty: &Type) -> (call: Call)
        ensures
            call@ == self.cast_call(CastOp::FPCast, *value, *ty),
    {
        self.build_named_cast(CastOp::FPCast, value, ty)
    }

    /// Asks for an `FPExt` instruction at the cursor, which converts `value`
    /// to the type `ty`. The reply is the instruction's address, for
    /// [`Value::new`].
    pub fn build_fpext(&self, value: &Value, ty: &Type) -> (call: Call)
        ensures
            call@ == self.cast_call(CastOp::FPExt, *value, *ty),
    {
        self.build_named_cast(CastOp::FPExt, value, ty)
    }

    /// Asks for an `FPToSI` instruction at the cursor, which converts `value`
    /// to the type `ty`. The reply is the instruction's address, for
    /// [`Value::new`].
    pub fn build_fptosi(&self, value: &Value, ty: &Type) -> (call: Call)
        ensures
            call@ == self.cast_call(CastOp::FPToSI, *value, *ty),
    {
        self.build_named_cast(CastOp::FPToSI, value, ty)
    }

    /// Asks for an `FPToUI` instruction at the cursor, which converts `value`
    /// to the type `ty`. The reply is the instruction's address, for
    /// [`Value::new`].
    pub fn build_fptoui(&self, value: &Value, ty: &Type) -> (call: Call)
        ensures
            call@ == self.cast_call(CastOp::FPToUI, *value, *ty),
    {
        self.build_named_cast(CastOp::FPToUI, value, ty)
    }

    /// Asks for an `FPTrunc` instruction at the cursor, which converts `value`
    /// to the type `ty`. The reply is the instruction's address, for
    /// [`Value::new`].
    pub fn build_fptrunc(&self, value: &Value, ty: &Type) -> (call: Call)
        ensures
            call@ == self.cast_call(CastOp::FPTrunc, *value, *ty),
    {
        self.build_named_cast(CastOp::FPTrunc, value, ty)
    }

    /// Asks for an `FRem` instruction at the cursor. The reply is the
    /// instruction's address, for [`Value::new`].
    pub fn build_frem(&self, left: &Value, right: &Value) -> (call: Call)
        ensures
            call@ == self.binary_call(BinaryOp::FRem, *left, *right),
    {
        self.build_binary(BinaryOp::FRem, left, right)
    }

    /// Asks for an `FSub` instruction at the cursor. The reply is the
    /// instruction's address, for [`Value::new`].
    pub fn build_fsub(&self, left: &Value, right: &Value) -> (call: Call)
        ensures
            call@ == self.binary_call(BinaryOp::FSub, *left, *right),
    {
        self.build_binary(BinaryOp::FSub, left, right)
    }

    /// Asks for an `Or` instruction at the cursor. The reply is the
    /// instruction's address, for [`Value::new`].
    pub fn build_or(&self, left: &Value, right: &Value) -> (call: Call)
        ensures
            call@ == self.binary_call(BinaryOp::Or, *left, *right),
    {
        self.build_binary(BinaryOp::Or, left, right)
    }

    /// Asks for an `SIToFP` instruction at the cursor, which converts `value`
    /// to the type `ty`. The reply is the instruction's address, for
    /// [`Value::new`].
    pub fn build_sitofp(&self, value: &Value, ty: &Type) -> (call: Call)
        ensures
            call@ == self.cast_call(CastOp::SIToFP, *value, *ty),
    {
        self.build_named_cast(CastOp::SIToFP, value, ty)
    }

    /// Asks for a `UIToFP` instruction at the cursor, which converts `value`
    /// to the type `ty`. The reply is the instruction's address, for
    /// [`Value::new`].
    pub fn build_uitofp(&self, value: &Value, ty: &Type) -> (call: Call)
        ensures
            call@ == self.cast_call(CastOp::UIToFP, *value, *ty),
    {
        self.build_named_cast(CastOp::UIToFP, value, ty)
    }

    /// Asks for the conversion instruction of the opcode `op` at the cursor,
    /// for the conversions that have no operation of their own. The reply is
    /// the instruction's address, for [`Value::new`].
    pub fn build_cast(&self, op: LLVMOpcode, value: &Value, ty: &Type) -> (call: Call)
        ensures
            call@ == (CallView::BuildOpcodeCast {
                builder: self@,
                opcode: op,
                value: value@,
                dest_ty: ty@,
                name: no_name(),
            }),
    {
        Call::BuildOpcodeCast {
            builder: self.get(),
            opcode: op,
            value: value.get(),
            dest_ty: ty.get(),
            name: empty_twine(),
        }
    }

    /// Asks for a `Neg` instruction at the cursor. The reply is the
    /// instruction's address, for [`Value::new`].
    pub fn build_neg(&self, value: &Value) -> (call: Call)
        ensures
            call@ == self.unary_call(UnaryOp::Neg, *value),
    {
        Call::BuildUnary { builder: self.get(), op: UnaryOp::Neg, value: value.get(), name: empty_twine() }
    }

    /// Asks for a `Not` instruction at the cursor. The reply is the
    /// instruction's address, for [`Value::new`].
    pub fn build_not(&self, value: &Value) -> (call: Call)
        ensures
            call@ == self.unary_call(UnaryOp::Not, *value),
    {
        Call::BuildUnary { builder: self.get(), op: UnaryOp::Not, value: value.get(), name: empty_twine() }
    }

    /// Asks for an `Alloca` instruction at the cursor, which reserves room
    /// on the stack for one value of the type `ty` and is named `twine`. The
    /// reply is the instruction's address, a pointer value, for
    /// [`Value::new`].
    pub fn build_alloca(&self, ty: &Type, twine: &str) -> (call: Call)
        requires
            is_c_text(twine@),
        ensures
            call@ == (CallView::BuildAlloca { builder: self@, ty: ty@, name: c_string(twine@) }),
    {
        Call::BuildAlloca { builder: self.get(), ty: ty.get(), name: string_to_cstring(twine) }
    }

    /// Asks for a `Load` instruction at the cursor, which reads a value of
    /// the type `ty` through `pointer`. The reply is the instruction's
    /// address, for [`Value::new`].
    pub fn build_load(&self, ty: &Type, pointer: &Value) -> (call: Call)
        ensures
            call@ == (CallView::BuildLoad {
                builder: self@,
                ty: ty@,
                pointer: pointer@,
                name: no_name(),
            }),
    {
        Call::BuildLoad { builder: self.get(), ty: ty.get(), pointer: pointer.get(), name: empty_twine() }
    }

    /// Asks for a `Store` instruction at the cursor, which writes `value`
    /// through `pointer`. The reply is the instruction's address, for
    /// [`Value::new`].
    pub fn build_store(&self, value: &Value, pointer: &Value) -> (call: Call)
        ensures
            call@ == (CallView::BuildStore { builder: self@, value: value@, pointer: pointer@ }),
    {
        Call::BuildStore { builder: self.get(), value: value.get(), pointer: pointer.get() }
    }

    /// Asks for the instruction at the cursor that returns from a function
    /// without a value; it ends its block. The reply is the instruction's
    /// address, for [`Value::new`].
    pub fn build_return_void(&self) -> (call: Call)
        ensures
            call@ == (CallView::BuildRetVoid { builder: self@ }),
    {
        Call::BuildRetVoid { builder: self.get() }
    }

    /// Asks for the instruction at the cursor that returns `value` from a
    /// function; it ends its block. The reply is the instruction's address,
    /// for [`Value::new`].
    pub fn build_return(&self, value: &Value) -> (call: Call)
        ensures
            call@ == (CallView::BuildRet { builder: self@, value: value@ }),
    {
        Call::BuildRet { builder: self.get(), value: value.get() }
    }

    /// Asks for a sign extension instruction at the cursor, which converts `value`
    /// to the type `dest_ty`. The reply is the instruction's address, for
    /// [`Value::new`].
    pub fn build_sext(&self, dest_ty: &Type, value: &Value) -> (call: Call)
        ensures
            call@ == self.cast_call(CastOp::SExt, *value, *dest_ty),
    {
        self.build_named_cast(CastOp::SExt, value, dest_ty)
    }

    /// Asks for a zero extension instruction at the cursor, which converts `value`
    /// to the type `dest_ty`. The reply is the instruction's address, for
    /// [`Value::new`].
    pub fn build_zext(&self, dest_ty: &Type, value: &Value) -> (call: Call)
        ensures
            call@ == self.cast_call(CastOp::ZExt, *value, *dest_ty),
    {
        self.build_named_cast(CastOp::ZExt, value, dest_ty)
    }

    /// Asks for the instruction at the cursor that branches to `then_block`
    /// where `condition` holds and to `else_block` where it does not; it ends
    /// its block. The reply is the instruction's address, which may be left
    /// unread.
    pub fn build_cond_br(&self, condition: &Value, then_block: &BasicBlock, else_block: &BasicBlock) -> (call:
        Call)
        ensures
            call@ == (CallView::BuildCondBr {
                builder: self@,
                condition: condition@,
                then_block: then_block@,
                else_block: else_block@,
            }),
    {
        Call::BuildCondBr {
            builder: self.get(),
            condition: condition.get(),
            then_block: then_block.get(),
            else_block: else_block.get(),
        }
    }

    /// Asks for the instruction at the cursor that branches to `block`; it
    /// ends its block. The reply is the instruction's address, which may be
    /// left unread.
    pub fn build_br(&self, block: &BasicBlock) -> (call: Call)
        ensures
            call@ == (CallView::BuildBr { builder: self@, block: block@ }),
    {
        Call::BuildBr { builder: self.get(), block: block.get() }
    }

    /// Asks for a `Call` instruction at the cursor, which calls `func`, a
    /// function of the type `func_ty`, with `arguments` in this order, and is
    /// named `twine`. The arguments go out as an array of their addresses
    /// with its length beside it. The backend takes the length in 32 bits: a
    /// longer list goes out with the low 32 bits of its length. Whether the
    /// arguments fit the callee is not looked at here. The reply is the
    /// instruction's address, for [`Value::new`].
    pub fn build_call(&self, func_ty: &Type, func: &Value, arguments: &[Value], twine: &str) -> (call: Call)
        requires
            is_c_text(twine@),
        ensures
            call@ == (CallView::BuildCall {
                builder: self@,
                func_ty: func_ty@,
                func: func@,
                arguments: value_addresses_of(arguments@),
                argument_count: arguments@.len() as u32,
                name: c_string(twine@),
            }),
    {
        let name = string_to_cstring(twine);
        Call::BuildCall {
            builder: self.get(),
            func_ty: func_ty.get(),
            func: func.get(),
            arguments: value_addresses(arguments),
            argument_count: #[verifier::truncate] (arguments.len() as u32),
            name,
        }
    }

    /// Asks for the constant of the integer type `integer_ty` that holds
    /// `value`, sign-extended to the type's width where `sign_extend` is set.
    /// The reply is the constant's address, for [`Value::new`].
    pub fn const_int(&self, integer_ty: &Type, value: u64, sign_extend: bool) -> (call: Call)
        ensures
            call@ == (CallView::ConstInt {
                integer_ty: integer_ty@,
                value,
                sign_extend: native_bool(sign_extend),
            }),
    {
        Call::ConstInt { integer_ty: integer_ty.get(), value, sign_extend: bool_to_native(sign_extend) }
    }

    /// Asks for this builder to be freed. The builder is given up with the
    /// request: nothing can ask for it a second time.
    pub fn dispose(self) -> (call: Call)
        ensures
            call@ == (CallView::DisposeBuilder { builder: self@ }),
    {
        Call::DisposeBuilder { builder: self.get() }
    }
}

} // verus!
