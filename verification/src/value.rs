//! Values: functions, instructions, constants and parameters, and the
//! vocabulary of the operations on them.

use crate::call::{Call, CallView};
use crate::handle::{handle_at, Handle};
use crate::ty::Type;
use llvm_sys::analysis::LLVMVerifierFailureAction;
use llvm_sys::{LLVMIntPredicate, LLVMLinkage, LLVMRealPredicate};
use vstd::prelude::*;
use vstd::std_specs::convert::FromSpecImpl;

verus! {

/// A function, an instruction, a constant or a parameter. It is a handle on
/// an object that its module or context owns.
#[derive(Debug, Clone, Copy, PartialEq, Eq, Structural)]
pub struct Value {
    handle: Handle,
}

impl View for Value {
    type V = usize;

    /// The address that the handle holds.
    closed spec fn view(&self) -> usize {
        self.handle@
    }
}

/// The value whose handle holds `pointer`.
pub closed spec fn value_at(pointer: usize) -> Value {
    Value { handle: handle_at(pointer) }
}

/// A value is nothing but the address its handle holds.
pub proof fn lemma_value_is_its_address(value: Value)
    ensures
        value_at(value@) == value,
        forall|pointer: usize| #[trigger] value_at(pointer)@ == pointer,
{
    crate::handle::lemma_handle_is_its_address(value.handle);
    assert forall|pointer: usize| #[trigger] value_at(pointer)@ == pointer by {
        crate::handle::lemma_handle_holds_its_address(pointer);
    }
}

/// The addresses that a list of values goes to the backend as, in order.
pub open spec fn value_addresses_of(values: Seq<Value>) -> Seq<usize> {
    Seq::new(values.len(), |i: int| values[i]@)
}

/// Copies out the addresses of a list of values, in order, as the backend
/// takes an array of them.
pub fn value_addresses(values: &[Value]) -> (pointers: Vec<usize>)
    ensures
        pointers@ == value_addresses_of(values@),
{
    let mut pointers: Vec<usize> = Vec::new();
    let mut i: usize = 0;
    while i < values.len()
        invariant
            i <= values.len(),
            pointers@ == value_addresses_of(values@.subrange(0, i as int)),
        decreases values.len() - i,
    {
        pointers.push(values[i].get());
        proof {
            assert(pointers@ =~= value_addresses_of(values@.subrange(0, i + 1)));
        }
        i += 1;
    }
    proof {
        assert(values@.subrange(0, i as int) =~= values@);
    }
    pointers
}

impl Value {
    /// Wraps the address that the backend gave for a value.
    pub fn new(pointer: usize) -> (value: Self)
        requires
            pointer != 0,
        ensures
            value@ == pointer,
            value == value_at(pointer),
    {
        Self { handle: Handle::new(pointer) }
    }

    /// The address that the handle holds.
    #[inline]
    pub fn get(&self) -> (pointer: usize)
        ensures
            pointer == self@,
            pointer != 0,
    {
        self.handle.get()
    }

    /// The value at an address that may be null: none for null.
    pub fn from_nullable(pointer: usize) -> (value: Option<Self>)
        ensures
            value is None <==> pointer == 0,
            value matches Some(v) ==> v == value_at(pointer),
    {
        match Handle::from_nullable(pointer) {
            Some(handle) => Some(Value { handle }),
            None => None,
        }
    }

    /// Asks for a function's parameter. The backend counts parameters in 32
    /// bits, so the index goes out cut to its low 32 bits; whether it is in
    /// range is the backend's to say. The reply is the parameter's address,
    /// for [`Value::new`].
    pub fn get_param(&self, index: usize) -> (call: Call)
        ensures
            call@ == (CallView::GetParam { function: self@, index: index as u32 }),
    {
        Call::GetParam { function: self.get(), index: #[verifier::truncate] (index as u32) }
    }

    /// Asks for a function's linkage category to be set. There is no reply.
    pub fn set_linkage(&self, linkage: LLVMLinkage) -> (call: Call)
        ensures
            call@ == (CallView::SetLinkage { value: self@, linkage }),
    {
        Call::SetLinkage { value: self.get(), linkage }
    }

    /// Asks for this value's type. The reply is the type's address, for
    /// [`Type::new`].
    pub fn get_type(&self) -> (call: Call)
        ensures
            call@ == (CallView::TypeOf { value: self@ }),
    {
        Call::TypeOf { value: self.get() }
    }

    /// Asks for a function to be verified, with the action that the caller
    /// chose for the case that it is found faulty. The reply is a status, for
    /// [`Value::verify_function_reply`].
    pub fn verify_function(&self, action: VerifierFailureAction) -> (call: Call)
        ensures
            call@ == (CallView::VerifyFunction {
                function: self@,
                action: native_failure_action(action),
            }),
    {
        Call::VerifyFunction { function: self.get(), action: action.into() }
    }

    /// Whether the function was found valid: the verifier's status is 1 for
    /// a faulty function.
    pub fn verify_function_reply(status: i32) -> (valid: bool)
        ensures
            valid == (status != 1),
    {
        status != 1
    }

    /// Asks for a function to be removed from its module, body and
    /// declaration. The handle is given up with it. There is no reply.
    pub fn delete_function(self) -> (call: Call)
        ensures
            call@ == (CallView::DeleteFunction { function: self@ }),
    {
        Call::DeleteFunction { function: self.get() }
    }
}

/// What the verifier does when it finds a function faulty.
#[derive(Debug, Clone, Copy, PartialEq, Eq, Structural)]
pub enum VerifierFailureAction {
    /// Print a diagnostic and stop the process.
    AbortProcess,
    /// Print a diagnostic and go on.
    PrintMessage,
    /// Go on, with no output.
    ReturnStatus,
}

/// The backend's word for a failure action.
pub open spec fn native_failure_action(value: VerifierFailureAction) -> LLVMVerifierFailureAction {
    match value {
        VerifierFailureAction::AbortProcess => LLVMVerifierFailureAction::LLVMAbortProcessAction,
        VerifierFailureAction::PrintMessage => LLVMVerifierFailureAction::LLVMPrintMessageAction,
        VerifierFailureAction::ReturnStatus => LLVMVerifierFailureAction::LLVMReturnStatusAction,
    }
}

impl From<VerifierFailureAction> for LLVMVerifierFailureAction {
    fn from(value: VerifierFailureAction) -> (native: Self) {
        match value {
            VerifierFailureAction::AbortProcess => Self::LLVMAbortProcessAction,
            VerifierFailureAction::PrintMessage => Self::LLVMPrintMessageAction,
            VerifierFailureAction::ReturnStatus => Self::LLVMReturnStatusAction,
        }
    }
}

impl FromSpecImpl<VerifierFailureAction> for LLVMVerifierFailureAction {
    open spec fn obeys_from_spec() -> bool {
        true
    }

    open spec fn from_spec(value: VerifierFailureAction) -> Self {
        native_failure_action(value)
    }
}

/// Predicate for integer comparisons.
#[derive(Debug, Clone, Copy, PartialEq, Eq, Structural)]
pub enum IntPredicate {
    Eq,
    Ne,
    UGt,
    UGe,
    ULt,
    ULe,
    SGt,
    SGe,
    SLt,
    SLe,
}

/// The backend's word for an integer predicate.
pub open spec fn native_int_predicate(value: IntPredicate) -> LLVMIntPredicate {
    match value {
        IntPredicate::Eq => LLVMIntPredicate::LLVMIntEQ,
        IntPredicate::Ne => LLVMIntPredicate::LLVMIntNE,
        IntPredicate::UGt => LLVMIntPredicate::LLVMIntUGT,
        IntPredicate::UGe => LLVMIntPredicate::LLVMIntUGE,
        IntPredicate::ULt => LLVMIntPredicate::LLVMIntULT,
        IntPredicate::ULe => LLVMIntPredicate::LLVMIntULE,
        IntPredicate::SGt => LLVMIntPredicate::LLVMIntSGT,
        IntPredicate::SGe => LLVMIntPredicate::LLVMIntSGE,
        IntPredicate::SLt => LLVMIntPredicate::LLVMIntSLT,
        IntPredicate::SLe => LLVMIntPredicate::LLVMIntSLE,
    }
}

impl From<IntPredicate> for LLVMIntPredicate {
    fn from(value: IntPredicate) -> (native: Self) {
        match value {
            IntPredicate::Eq => Self::LLVMIntEQ,
            IntPredicate::Ne => Self::LLVMIntNE,
            IntPredicate::UGt => Self::LLVMIntUGT,
            IntPredicate::UGe => Self::LLVMIntUGE,
            IntPredicate::ULt => Self::LLVMIntULT,
            IntPredicate::ULe => Self::LLVMIntULE,
            IntPredicate::SGt => Self::LLVMIntSGT,
            IntPredicate::SGe => Self::LLVMIntSGE,
            IntPredicate::SLt => Self::LLVMIntSLT,
            IntPredicate::SLe => Self::LLVMIntSLE,
        }
    }
}

impl FromSpecImpl<IntPredicate> for LLVMIntPredicate {
    open spec fn obeys_from_spec() -> bool {
        true
    }

    open spec fn from_spec(value: IntPredicate) -> Self {
        native_int_predicate(value)
    }
}

/// Predicate for floating-point comparisons.
#[derive(Debug, Clone, Copy, PartialEq, Eq, Structural)]
pub enum RealPredicate {
    PredicateFalse,
    OEq,
    OGt,
    OGe,
    OLt,
    OLe,
    ONe,
    ORd,
    UNo,
    UEq,
    UGt,
    UGe,
    ULt,
    ULe,
    UNe,
    PredicateTrue,
}

/// The backend's word for a floating-point predicate.
pub open spec fn native_real_predicate(value: RealPredicate) -> LLVMRealPredicate {
    match value {
        RealPredicate::PredicateFalse => LLVMRealPredicate::LLVMRealPredicateFalse,
        RealPredicate::OEq => LLVMRealPredicate::LLVMRealOEQ,
        RealPredicate::OGt => LLVMRealPredicate::LLVMRealOGT,
        RealPredicate::OGe => LLVMRealPredicate::LLVMRealOGE,
        RealPredicate::OLt => LLVMRealPredicate::LLVMRealOLT,
        RealPredicate::OLe => LLVMRealPredicate::LLVMRealOLE,
        RealPredicate::ONe => LLVMRealPredicate::LLVMRealONE,
        RealPredicate::ORd => LLVMRealPredicate::LLVMRealORD,
        RealPredicate::UNo => LLVMRealPredicate::LLVMRealUNO,
        RealPredicate::UEq => LLVMRealPredicate::LLVMRealUEQ,
        RealPredicate::UGt => LLVMRealPredicate::LLVMRealUGT,
        RealPredicate::UGe => LLVMRealPredicate::LLVMRealUGE,
        RealPredicate::ULt => LLVMRealPredicate::LLVMRealULT,
        RealPredicate::ULe => LLVMRealPredicate::LLVMRealULE,
        RealPredicate::UNe => LLVMRealPredicate::LLVMRealUNE,
        RealPredicate::PredicateTrue => LLVMRealPredicate::LLVMRealPredicateTrue,
    }
}

impl From<RealPredicate> for LLVMRealPredicate {
    fn from(value: RealPredicate) -> (native: Self) {
        match value {
            RealPredicate::PredicateFalse => Self::LLVMRealPredicateFalse,
            RealPredicate::OEq => Self::LLVMRealOEQ,
            RealPredicate::OGt => Self::LLVMRealOGT,
            RealPredicate::OGe => Self::LLVMRealOGE,
            RealPredicate::OLt => Self::LLVMRealOLT,
            RealPredicate::OLe => Self::LLVMRealOLE,
            RealPredicate::ONe => Self::LLVMRealONE,
            RealPredicate::ORd => Self::LLVMRealORD,
            RealPredicate::UNo => Self::LLVMRealUNO,
            RealPredicate::UEq => Self::LLVMRealUEQ,
            RealPredicate::UGt => Self::LLVMRealUGT,
            RealPredicate::UGe => Self::LLVMRealUGE,
            RealPredicate::ULt => Self::LLVMRealULT,
            RealPredicate::ULe => Self::LLVMRealULE,
            RealPredicate::UNe => Self::LLVMRealUNE,
            RealPredicate::PredicateTrue => Self::LLVMRealPredicateTrue,
        }
    }
}

impl FromSpecImpl<RealPredicate> for LLVMRealPredicate {
    open spec fn obeys_from_spec() -> bool {
        true
    }

    open spec fn from_spec(value: RealPredicate) -> Self {
        native_real_predicate(value)
    }
}

/// No two failure actions share a backend word, and every backend word is
/// some action's: the returned action is the one that names `native`.
pub proof fn lemma_failure_actions_match(
    a: VerifierFailureAction,
    b: VerifierFailureAction,
    native: LLVMVerifierFailureAction,
) -> (named: VerifierFailureAction)
    ensures
        native_failure_action(a) == native_failure_action(b) ==> a == b,
        native_failure_action(named) == native,
{
    match native {
        LLVMVerifierFailureAction::LLVMAbortProcessAction => VerifierFailureAction::AbortProcess,
        LLVMVerifierFailureAction::LLVMPrintMessageAction => VerifierFailureAction::PrintMessage,
        LLVMVerifierFailureAction::LLVMReturnStatusAction => VerifierFailureAction::ReturnStatus,
    }
}

/// No two integer predicates share a backend word, and every backend word is
/// some predicate's: the returned predicate is the one that names `native`.
pub proof fn lemma_int_predicates_match(a: IntPredicate, b: IntPredicate, native: LLVMIntPredicate) -> (named:
    IntPredicate)
    ensures
        native_int_predicate(a) == native_int_predicate(b) ==> a == b,
        native_int_predicate(named) == native,
{
    match native {
        LLVMIntPredicate::LLVMIntEQ => IntPredicate::Eq,
        LLVMIntPredicate::LLVMIntNE => IntPredicate::Ne,
        LLVMIntPredicate::LLVMIntUGT => IntPredicate::UGt,
        LLVMIntPredicate::LLVMIntUGE => IntPredicate::UGe,
        LLVMIntPredicate::LLVMIntULT => IntPredicate::ULt,
        LLVMIntPredicate::LLVMIntULE => IntPredicate::ULe,
        LLVMIntPredicate::LLVMIntSGT => IntPredicate::SGt,
        LLVMIntPredicate::LLVMIntSGE => IntPredicate::SGe,
        LLVMIntPredicate::LLVMIntSLT => IntPredicate::SLt,
        LLVMIntPredicate::LLVMIntSLE => IntPredicate::SLe,
    }
}

/// No two floating-point predicates share a backend word, and every backend
/// word is some predicate's: the returned predicate is the one that names
/// `native`.
pub proof fn lemma_real_predicates_match(a: RealPredicate, b: RealPredicate, native: LLVMRealPredicate) -> (named:
    RealPredicate)
    ensures
        native_real_predicate(a) == native_real_predicate(b) ==> a == b,
        native_real_predicate(named) == native,
{
    match native {
        LLVMRealPredicate::LLVMRealPredicateFalse => RealPredicate::PredicateFalse,
        LLVMRealPredicate::LLVMRealOEQ => RealPredicate::OEq,
        LLVMRealPredicate::LLVMRealOGT => RealPredicate::OGt,
        LLVMRealPredicate::LLVMRealOGE => RealPredicate::OGe,
        LLVMRealPredicate::LLVMRealOLT => RealPredicate::OLt,
        LLVMRealPredicate::LLVMRealOLE => RealPredicate::OLe,
        LLVMRealPredicate::LLVMRealONE => RealPredicate::ONe,
        LLVMRealPredicate::LLVMRealORD => RealPredicate::ORd,
        LLVMRealPredicate::LLVMRealUNO => RealPredicate::UNo,
        LLVMRealPredicate::LLVMRealUEQ => RealPredicate::UEq,
        LLVMRealPredicate::LLVMRealUGT => RealPredicate::UGt,
        LLVMRealPredicate::LLVMRealUGE => RealPredicate::UGe,
        LLVMRealPredicate::LLVMRealULT => RealPredicate::ULt,
        LLVMRealPredicate::LLVMRealULE => RealPredicate::ULe,
        LLVMRealPredicate::LLVMRealUNE => RealPredicate::UNe,
        LLVMRealPredicate::LLVMRealPredicateTrue => RealPredicate::PredicateTrue,
    }
}

} // verus!
