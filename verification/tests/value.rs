use llvm_sys::analysis::LLVMVerifierFailureAction;
use llvm_sys::{LLVMIntPredicate, LLVMLinkage, LLVMRealPredicate};
use llvm_wrap::call::Call;
use llvm_wrap::value::{IntPredicate, RealPredicate, Value, VerifierFailureAction};

#[test]
fn a_value_holds_its_address() {
    assert_eq!(Value::new(0x50).get(), 0x50);
    assert_eq!(Value::new(0x50), Value::new(0x50));
    assert_ne!(Value::new(0x50), Value::new(0x51));
}

#[test]
fn a_parameter_is_asked_for_by_index() {
    let func = Value::new(0x50);
    assert_eq!(func.get_param(0), Call::GetParam { function: 0x50, index: 0 });
    assert_eq!(func.get_param(3), Call::GetParam { function: 0x50, index: 3 });
    assert_eq!(
        func.get_param(u32::MAX as usize),
        Call::GetParam { function: 0x50, index: u32::MAX }
    );
}

#[test]
fn a_parameter_index_goes_out_in_32_bits() {
    let func = Value::new(0x50);
    if let Some(beyond) = (u32::MAX as usize).checked_add(2) {
        assert_eq!(func.get_param(beyond), Call::GetParam { function: 0x50, index: 1 });
    }
}

#[test]
fn linkage_goes_through_untouched() {
    let func = Value::new(0x50);
    assert_eq!(
        func.set_linkage(LLVMLinkage::LLVMInternalLinkage),
        Call::SetLinkage { value: 0x50, linkage: LLVMLinkage::LLVMInternalLinkage }
    );
}

#[test]
fn type_and_removal_name_the_value() {
    let func = Value::new(0x50);
    assert_eq!(func.get_type(), Call::TypeOf { value: 0x50 });
    assert_eq!(func.delete_function(), Call::DeleteFunction { function: 0x50 });
}

#[test]
fn verification_carries_the_chosen_action() {
    let func = Value::new(0x50);
    let actions = vec![
        (VerifierFailureAction::AbortProcess, LLVMVerifierFailureAction::LLVMAbortProcessAction),
        (VerifierFailureAction::PrintMessage, LLVMVerifierFailureAction::LLVMPrintMessageAction),
        (VerifierFailureAction::ReturnStatus, LLVMVerifierFailureAction::LLVMReturnStatusAction),
    ];
    for (action, native) in actions {
        assert_eq!(LLVMVerifierFailureAction::from(action), native);
        assert_eq!(
            func.verify_function(action),
            Call::VerifyFunction { function: 0x50, action: native }
        );
    }
}

#[test]
fn a_function_is_valid_unless_the_status_is_one() {
    assert!(Value::verify_function_reply(0));
    assert!(!Value::verify_function_reply(1));
    assert!(Value::verify_function_reply(2));
    assert!(Value::verify_function_reply(-1));
}

#[test]
fn every_integer_predicate_has_its_backend_word() {
    let table = vec![
        (IntPredicate::Eq, LLVMIntPredicate::LLVMIntEQ, 32),
        (IntPredicate::Ne, LLVMIntPredicate::LLVMIntNE, 33),
        (IntPredicate::UGt, LLVMIntPredicate::LLVMIntUGT, 34),
        (IntPredicate::UGe, LLVMIntPredicate::LLVMIntUGE, 35),
        (IntPredicate::ULt, LLVMIntPredicate::LLVMIntULT, 36),
        (IntPredicate::ULe, LLVMIntPredicate::LLVMIntULE, 37),
        (IntPredicate::SGt, LLVMIntPredicate::LLVMIntSGT, 38),
        (IntPredicate::SGe, LLVMIntPredicate::LLVMIntSGE, 39),
        (IntPredicate::SLt, LLVMIntPredicate::LLVMIntSLT, 40),
        (IntPredicate::SLe, LLVMIntPredicate::LLVMIntSLE, 41),
    ];
    for (predicate, native, number) in table {
        assert_eq!(LLVMIntPredicate::from(predicate), native);
        assert_eq!(LLVMIntPredicate::from(predicate) as u32, number);
    }
}

#[test]
fn every_real_predicate_has_its_backend_word() {
    let table = vec![
        (RealPredicate::PredicateFalse, LLVMRealPredicate::LLVMRealPredicateFalse),
        (RealPredicate::OEq, LLVMRealPredicate::LLVMRealOEQ),
        (RealPredicate::OGt, LLVMRealPredicate::LLVMRealOGT),
        (RealPredicate::OGe, LLVMRealPredicate::LLVMRealOGE),
        (RealPredicate::OLt, LLVMRealPredicate::LLVMRealOLT),
        (RealPredicate::OLe, LLVMRealPredicate::LLVMRealOLE),
        (RealPredicate::ONe, LLVMRealPredicate::LLVMRealONE),
        (RealPredicate::ORd, LLVMRealPredicate::LLVMRealORD),
        (RealPredicate::UNo, LLVMRealPredicate::LLVMRealUNO),
        (RealPredicate::UEq, LLVMRealPredicate::LLVMRealUEQ),
        (RealPredicate::UGt, LLVMRealPredicate::LLVMRealUGT),
        (RealPredicate::UGe, LLVMRealPredicate::LLVMRealUGE),
        (RealPredicate::ULt, LLVMRealPredicate::LLVMRealULT),
        (RealPredicate::ULe, LLVMRealPredicate::LLVMRealULE),
        (RealPredicate::UNe, LLVMRealPredicate::LLVMRealUNE),
        (RealPredicate::PredicateTrue, LLVMRealPredicate::LLVMRealPredicateTrue),
    ];
    let mut number = 0;
    for (predicate, native) in table {
        assert_eq!(LLVMRealPredicate::from(predicate), native);
        assert_eq!(LLVMRealPredicate::from(predicate) as u32, number);
        number += 1;
    }
}
