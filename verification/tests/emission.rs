use llvm_sys::target_machine::{
    LLVMCodeGenFileType, LLVMCodeGenOptLevel, LLVMCodeModel, LLVMRelocMode,
};
use llvm_wrap::call::{Call, Registry, Reply};
use llvm_wrap::emission::{next_registry, ObjectEmission, Step};
use llvm_wrap::module::Module;
use llvm_wrap::target::{Target, TargetData, TargetMachine};
use llvm_wrap::{
    get_default_target_triple, initialize_all_asm_parsers, initialize_all_asm_printers,
    initialize_all_target_infos, initialize_all_target_mcs, initialize_all_targets,
};

const MODULE: usize = 0x3000;
const TARGET: usize = 0x8000;
const MACHINE: usize = 0x9000;
const NO_TARGET: &str = "No available targets are compatible with triple \"not-a-triple\"";

fn c(text: &str) -> Vec<u8> {
    let mut bytes = text.as_bytes().to_vec();
    bytes.push(0);
    bytes
}

fn perform(step: Step) -> Call {
    match step {
        Step::Perform { call } => call,
        Step::Finish { outcome } => panic!("the run ended early: {:?}", outcome),
    }
}

fn machine_call(target: usize, triple: &str) -> Call {
    Call::CreateTargetMachine {
        target,
        triple: c(triple),
        cpu: vec![0],
        features: vec![0],
        level: LLVMCodeGenOptLevel::LLVMCodeGenLevelDefault,
        reloc: LLVMRelocMode::LLVMRelocPIC,
        code_model: LLVMCodeModel::LLVMCodeModelDefault,
    }
}

fn object_call(file: &str) -> Call {
    Call::TargetMachineEmitToFile {
        machine: MACHINE,
        module: MODULE,
        file: c(file),
        file_type: LLVMCodeGenFileType::LLVMObjectFile,
    }
}

/// Runs through the filling of the registries and gives the state after it
/// and the call that follows.
fn initialize(triple: Option<&str>, file: &str) -> (ObjectEmission, Call) {
    let (mut state, first) =
        Module::new(MODULE).write_object_file(triple.map(String::from), String::from(file));
    assert_eq!(first, Call::InitializeAll { registry: Registry::TargetInfos });
    for registry in [
        Registry::Targets,
        Registry::TargetMCs,
        Registry::AsmParsers,
        Registry::AsmPrinters,
    ] {
        assert!(state.accepts(&Reply::Done));
        let (next, step) = state.advance(Reply::Done);
        assert_eq!(perform(step), Call::InitializeAll { registry });
        state = next;
    }
    assert!(state.accepts(&Reply::Done));
    let (state, step) = state.advance(Reply::Done);
    (state, perform(step))
}

#[test]
fn the_registries_are_filled_in_their_order() {
    assert_eq!(initialize_all_target_infos(), Call::InitializeAll { registry: Registry::TargetInfos });
    assert_eq!(initialize_all_targets(), Call::InitializeAll { registry: Registry::Targets });
    assert_eq!(initialize_all_target_mcs(), Call::InitializeAll { registry: Registry::TargetMCs });
    assert_eq!(initialize_all_asm_parsers(), Call::InitializeAll { registry: Registry::AsmParsers });
    assert_eq!(initialize_all_asm_printers(), Call::InitializeAll { registry: Registry::AsmPrinters });
    assert_eq!(next_registry(Registry::TargetInfos), Some(Registry::Targets));
    assert_eq!(next_registry(Registry::Targets), Some(Registry::TargetMCs));
    assert_eq!(next_registry(Registry::TargetMCs), Some(Registry::AsmParsers));
    assert_eq!(next_registry(Registry::AsmParsers), Some(Registry::AsmPrinters));
    assert_eq!(next_registry(Registry::AsmPrinters), None);
}

#[test]
fn the_host_triple_is_asked_for() {
    assert_eq!(get_default_target_triple(), Call::GetDefaultTargetTriple);
}

#[test]
fn a_target_is_asked_for_by_name_or_triple() {
    assert_eq!(Target::get_target_from_name("x86-64"), Call::GetTargetFromName { name: c("x86-64") });
    assert_eq!(
        Target::get_target_from_triple("x86_64-unknown-linux-gnu"),
        Call::GetTargetFromTriple { triple: c("x86_64-unknown-linux-gnu") }
    );
}

#[test]
fn a_target_by_name_is_there_or_not() {
    assert_eq!(Target::get_target_from_name_reply(0), None);
    assert_eq!(Target::get_target_from_name_reply(TARGET), Some(Target::new(TARGET)));
}

#[test]
fn an_unsupported_triple_gives_the_backend_message() {
    let found = Target::get_target_from_triple_reply(1, 0, NO_TARGET.as_bytes());
    assert_eq!(found, Err(String::from(NO_TARGET)));
    assert!(!found.unwrap_err().is_empty());
}

#[test]
fn a_supported_triple_gives_the_target() {
    let found = Target::get_target_from_triple_reply(0, TARGET, &[]);
    assert_eq!(found, Ok(Target::new(TARGET)));
    assert_eq!(found.unwrap().get(), TARGET);
    // The message is not read where the lookup went well.
    assert_eq!(Target::get_target_from_triple_reply(0, TARGET, &[0xFF]), Ok(Target::new(TARGET)));
}

#[test]
fn a_machine_is_asked_for_as_configured() {
    assert_eq!(
        TargetMachine::create(
            Target::new(TARGET),
            "aarch64-apple-darwin",
            "apple-m1",
            "+neon",
            LLVMCodeGenOptLevel::LLVMCodeGenLevelAggressive,
            LLVMRelocMode::LLVMRelocStatic,
            LLVMCodeModel::LLVMCodeModelSmall,
        ),
        Call::CreateTargetMachine {
            target: TARGET,
            triple: c("aarch64-apple-darwin"),
            cpu: c("apple-m1"),
            features: c("+neon"),
            level: LLVMCodeGenOptLevel::LLVMCodeGenLevelAggressive,
            reloc: LLVMRelocMode::LLVMRelocStatic,
            code_model: LLVMCodeModel::LLVMCodeModelSmall,
        }
    );
}

#[test]
fn a_machine_gives_its_data_layout_and_emits() {
    let machine = TargetMachine::new(MACHINE);
    assert_eq!(machine.get(), MACHINE);
    assert_eq!(machine.create_data_layout(), Call::CreateTargetDataLayout { machine: MACHINE });
    assert_eq!(TargetData::new(0xA000).get(), 0xA000);
    assert_eq!(
        machine.emit_to_file(Module::new(MODULE), "out.s", LLVMCodeGenFileType::LLVMAssemblyFile),
        Call::TargetMachineEmitToFile {
            machine: MACHINE,
            module: MODULE,
            file: c("out.s"),
            file_type: LLVMCodeGenFileType::LLVMAssemblyFile,
        }
    );
}

#[test]
fn an_emission_fails_for_status_one_only() {
    assert_eq!(TargetMachine::emit_to_file_reply(0, &[]), Ok(()));
    assert_eq!(TargetMachine::emit_to_file_reply(2, &[0xFF]), Ok(()));
    assert_eq!(
        TargetMachine::emit_to_file_reply(1, b"could not open file"),
        Err(String::from("could not open file"))
    );
}

#[test]
fn a_module_asks_for_its_own_operations() {
    let module = Module::new(MODULE);
    assert_eq!(module.get(), MODULE);
    assert_eq!(
        module.set_target("x86_64-pc-windows-msvc"),
        Call::SetTarget { module: MODULE, triple: c("x86_64-pc-windows-msvc") }
    );
    assert_eq!(
        module.write_bitcode_to_file("out.bc"),
        Call::WriteBitcodeToFile { module: MODULE, path: c("out.bc") }
    );
    assert!(Module::write_bitcode_to_file_reply(0));
    assert!(!Module::write_bitcode_to_file_reply(-1));
    assert!(!Module::write_bitcode_to_file_reply(1));
}

#[test]
fn an_object_file_is_written_for_a_given_triple() {
    let (state, call) = initialize(Some("x86_64-unknown-linux-gnu"), "out.o");
    assert_eq!(call, Call::GetTargetFromTriple { triple: c("x86_64-unknown-linux-gnu") });

    let found = Reply::Lookup { status: 0, target: TARGET, message: vec![] };
    assert!(state.accepts(&found));
    let (state, step) = state.advance(found);
    assert_eq!(perform(step), machine_call(TARGET, "x86_64-unknown-linux-gnu"));

    let made = Reply::Address { pointer: MACHINE };
    assert!(state.accepts(&made));
    let (state, step) = state.advance(made);
    assert_eq!(perform(step), object_call("out.o"));
    assert_eq!(state, ObjectEmission::Emitting);

    let written = Reply::Emission { status: 0, message: vec![] };
    assert!(state.accepts(&written));
    let (state, step) = state.advance(written);
    assert_eq!(step, Step::Finish { outcome: Ok(()) });
    assert_eq!(state, ObjectEmission::Finished);
    assert!(!state.accepts(&Reply::Done));
}

#[test]
fn an_object_file_is_written_for_the_host() {
    let (state, call) = initialize(None, "out.o");
    assert_eq!(call, Call::GetDefaultTargetTriple);

    let host = Reply::Text { bytes: b"riscv64-unknown-linux-gnu".to_vec() };
    assert!(state.accepts(&host));
    let (state, step) = state.advance(host);
    assert_eq!(perform(step), Call::GetTargetFromTriple { triple: c("riscv64-unknown-linux-gnu") });

    let (state, step) = state.advance(Reply::Lookup { status: 0, target: TARGET, message: vec![] });
    assert_eq!(perform(step), machine_call(TARGET, "riscv64-unknown-linux-gnu"));
    let (state, step) = state.advance(Reply::Address { pointer: MACHINE });
    assert_eq!(perform(step), object_call("out.o"));
    let (_, step) = state.advance(Reply::Emission { status: 0, message: vec![] });
    assert_eq!(step, Step::Finish { outcome: Ok(()) });
}

#[test]
fn a_failed_lookup_ends_the_run_with_its_message() {
    let (state, _) = initialize(Some("not-a-triple"), "out.o");
    let missing = Reply::Lookup { status: 1, target: 0, message: NO_TARGET.as_bytes().to_vec() };
    assert!(state.accepts(&missing));
    let (state, step) = state.advance(missing);
    assert_eq!(step, Step::Finish { outcome: Err(String::from(NO_TARGET)) });
    assert_eq!(state, ObjectEmission::Finished);
}

#[test]
fn a_failed_emission_ends_the_run_with_its_message() {
    let (state, _) = initialize(Some("x86_64-unknown-linux-gnu"), "/nowhere/out.o");
    let (state, _) = state.advance(Reply::Lookup { status: 0, target: TARGET, message: vec![] });
    let (state, _) = state.advance(Reply::Address { pointer: MACHINE });
    let failed = Reply::Emission { status: 1, message: b"No such file or directory".to_vec() };
    assert!(state.accepts(&failed));
    let (state, step) = state.advance(failed);
    assert_eq!(step, Step::Finish { outcome: Err(String::from("No such file or directory")) });
    assert_eq!(state, ObjectEmission::Finished);
}

#[test]
fn a_reply_to_another_call_is_not_accepted() {
    let (state, _) = Module::new(MODULE).write_object_file(None, String::from("out.o"));
    assert!(state.accepts(&Reply::Done));
    assert!(!state.accepts(&Reply::Address { pointer: MACHINE }));
    assert!(!state.accepts(&Reply::Text { bytes: vec![] }));

    let (state, _) = initialize(None, "out.o");
    assert!(!state.accepts(&Reply::Done));
    assert!(!state.accepts(&Reply::Text { bytes: vec![0xFF] }));
    assert!(!state.accepts(&Reply::Text { bytes: vec![b'a', 0, b'b'] }));

    let (state, _) = initialize(Some("x86_64-unknown-linux-gnu"), "out.o");
    assert!(!state.accepts(&Reply::Done));
    assert!(!state.accepts(&Reply::Lookup { status: 0, target: 0, message: vec![] }));
    assert!(!state.accepts(&Reply::Lookup { status: 1, target: 0, message: vec![0xFF] }));

    let (state, _) = state.advance(Reply::Lookup { status: 0, target: TARGET, message: vec![] });
    assert!(!state.accepts(&Reply::Address { pointer: 0 }));
    let (state, _) = state.advance(Reply::Address { pointer: MACHINE });
    assert!(!state.accepts(&Reply::Emission { status: 1, message: vec![0xFF] }));
    assert!(state.accepts(&Reply::Emission { status: 0, message: vec![0xFF] }));
}

#[test]
fn a_string_that_cannot_go_out_stops_the_run_before_its_call() {
    let (mut state, _) =
        Module::new(MODULE).write_object_file(Some(String::from("x86\0_64")), String::from("out.o"));
    for _ in 0..4 {
        assert!(state.accepts(&Reply::Done));
        state = state.advance(Reply::Done).0;
    }
    // The next call would carry the triple.
    assert!(!state.accepts(&Reply::Done));

    let (state, _) = initialize(Some("x86_64-unknown-linux-gnu"), "out\0.o");
    let (state, _) = state.advance(Reply::Lookup { status: 0, target: TARGET, message: vec![] });
    // The next call would carry the file.
    assert!(!state.accepts(&Reply::Address { pointer: MACHINE }));
}
