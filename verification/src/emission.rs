//! Writing an object file, step by step.
//!
//! Emitting a module as an object file takes a run of backend calls, each of
//! which depends on how the one before went: the five registries are filled;
//! the triple is the caller's or, where the caller gave none, the host's,
//! which is asked for; the target that serves the triple is looked up; a
//! target machine is made for it; the machine emits the module. An
//! [`ObjectEmission`] is the state of such a run. [`ObjectEmission::advance`]
//! takes the reply to the call that is outstanding and gives the next call,
//! or the outcome of the run.

use crate::call::{Call, CallView, Registry, Reply, ReplyShape, ReplyView};
use crate::module::Module;
use crate::target::{emission_of_reply, lookup_of_reply, Target, TargetMachine};
use crate::util::{c_string, contains_nul, cstring_to_string, has_interior_nul, is_c_text, is_text, no_name, nul_free};
use llvm_sys::target_machine::{LLVMCodeGenFileType, LLVMCodeGenOptLevel, LLVMCodeModel, LLVMRelocMode};
use vstd::prelude::*;
use vstd::utf8::{decode_utf8, valid_utf8};

verus! {

/// What is to happen next in a run. `Request` is what holds a call and
/// `Text` what holds an error message.
#[derive(Debug, PartialEq)]
pub enum StepShape<Request, Text> {
    /// This call is to be made, and its reply handed back.
    Perform { call: Request },
    /// The run is over, with this outcome.
    Finish { outcome: Result<(), Text> },
}

/// A step that can be taken.
pub type Step = StepShape<Call, String>;

/// What a step says, in mathematical terms.
pub type StepView = StepShape<CallView, Seq<char>>;

impl View for StepShape<Call, String> {
    type V = StepShape<CallView, Seq<char>>;

    open spec fn view(&self) -> StepShape<CallView, Seq<char>> {
        match *self {
            StepShape::Perform { call } => StepShape::Perform { call: call@ },
            StepShape::Finish { outcome: Ok(()) } => StepShape::Finish { outcome: Ok(()) },
            StepShape::Finish { outcome: Err(message) } => StepShape::Finish { outcome: Err(message@) },
        }
    }
}

/// The state of a run: which call is outstanding, and what the calls to
/// come still need. `Unit` is what holds the module and `Text` what holds a
/// string.
#[derive(Debug, PartialEq)]
pub enum EmissionShape<Unit, Text> {
    /// The call that fills `registry` is outstanding.
    Initializing { registry: Registry, module: Unit, target_triple: Option<Text>, file: Text },
    /// The question for the host's triple is outstanding.
    ResolvingTriple { module: Unit, file: Text },
    /// The lookup of the target for `triple` is outstanding.
    LookingUp { module: Unit, triple: Text, file: Text },
    /// The making of the target machine is outstanding.
    CreatingMachine { module: Unit, file: Text },
    /// The emission itself is outstanding.
    Emitting,
    /// The run is over.
    Finished,
}

/// The state of a run.
pub type ObjectEmission = EmissionShape<Module, String>;

/// What the state of a run says, in mathematical terms.
pub type ObjectEmissionView = EmissionShape<usize, Seq<char>>;

impl View for EmissionShape<Module, String> {
    type V = EmissionShape<usize, Seq<char>>;

    open spec fn view(&self) -> EmissionShape<usize, Seq<char>> {
        match *self {
            EmissionShape::Initializing { registry, module, target_triple: Some(triple), file } => {
                EmissionShape::Initializing {
                    registry,
                    module: module@,
                    target_triple: Some(triple@),
                    file: file@,
                }
            },
            EmissionShape::Initializing { registry, module, target_triple: None, file } => {
                EmissionShape::Initializing { registry, module: module@, target_triple: None, file: file@ }
            },
            EmissionShape::ResolvingTriple { module, file } => EmissionShape::ResolvingTriple {
                module: module@,
                file: file@,
            },
            EmissionShape::LookingUp { module, triple, file } => EmissionShape::LookingUp {
                module: module@,
                triple: triple@,
                file: file@,
            },
            EmissionShape::CreatingMachine { module, file } => EmissionShape::CreatingMachine {
                module: module@,
                file: file@,
            },
            EmissionShape::Emitting => EmissionShape::Emitting,
            EmissionShape::Finished => EmissionShape::Finished,
        }
    }
}

/// The registry that is filled after `registry`, if any: target
/// descriptions, targets, machine-code descriptions, assembly parsers,
/// assembly printers, in this order.
pub open spec fn registry_after(registry: Registry) -> Option<Registry> {
    match registry {
        Registry::TargetInfos => Some(Registry::Targets),
        Registry::Targets => Some(Registry::TargetMCs),
        Registry::TargetMCs => Some(Registry::AsmParsers),
        Registry::AsmParsers => Some(Registry::AsmPrinters),
        Registry::AsmPrinters => None,
    }
}

/// The lookup of the target that serves `triple`, and the state that waits
/// for its outcome.
pub open spec fn look_up(module: usize, triple: Seq<char>, file: Seq<char>) -> (ObjectEmissionView, StepView) {
    (
        EmissionShape::LookingUp { module, triple, file },
        StepShape::Perform { call: CallView::GetTargetFromTriple { triple: c_string(triple) } },
    )
}

/// The making of the machine that emits for `target` and `triple`: for no
/// CPU and no features in particular, at the default optimization level,
/// with position-independent relocation and the default code model.
pub open spec fn machine_call(target: usize, triple: Seq<char>) -> CallView {
    CallView::CreateTargetMachine {
        target,
        triple: c_string(triple),
        cpu: no_name(),
        features: no_name(),
        level: LLVMCodeGenOptLevel::LLVMCodeGenLevelDefault,
        reloc: LLVMRelocMode::LLVMRelocPIC,
        code_model: LLVMCodeModel::LLVMCodeModelDefault,
    }
}

/// The emission of `module` to `file` as an object file, by `machine`.
pub open spec fn object_call(machine: usize, module: usize, file: Seq<char>) -> CallView {
    CallView::TargetMachineEmitToFile {
        machine,
        module,
        file: c_string(file),
        file_type: LLVMCodeGenFileType::LLVMObjectFile,
    }
}

/// Whether `reply` is one that the run can go on from: it answers the call
/// that is outstanding, its texts are text, what it says was made is not
/// null, and the strings that the next call carries can be C strings. A run
/// that is over goes on from nothing.
pub open spec fn accepts(state: ObjectEmissionView, reply: ReplyView) -> bool {
    match state {
        EmissionShape::Initializing { registry, target_triple, .. } => {
            &&& reply is Done
            &&& registry_after(registry) is None ==> (target_triple matches Some(triple) ==> is_c_text(triple))
        },
        EmissionShape::ResolvingTriple { .. } => {
            reply matches ReplyShape::Text { bytes } && valid_utf8(bytes) && nul_free(bytes)
        },
        EmissionShape::LookingUp { triple, .. } => {
            reply matches ReplyShape::Lookup { status, target, message } && {
                &&& is_c_text(triple)
                &&& status == 0 ==> target != 0
                &&& status != 0 ==> valid_utf8(message)
            }
        },
        EmissionShape::CreatingMachine { file, .. } => {
            reply matches ReplyShape::Address { pointer } && pointer != 0 && is_c_text(file)
        },
        EmissionShape::Emitting => {
            reply matches ReplyShape::Emission { status, message } && (status == 1 ==> valid_utf8(message))
        },
        EmissionShape::Finished => false,
    }
}

/// The state that follows `state` on `reply`, and what is to happen next.
pub open spec fn advanced(state: ObjectEmissionView, reply: ReplyView) -> (ObjectEmissionView, StepView)
    recommends
        accepts(state, reply),
{
    match state {
        EmissionShape::Initializing { registry, module, target_triple, file } => {
            match registry_after(registry) {
                Some(next) => (
                    EmissionShape::Initializing { registry: next, module, target_triple, file },
                    StepShape::Perform { call: CallView::InitializeAll { registry: next } },
                ),
                None => match target_triple {
                    Some(triple) => look_up(module, triple, file),
                    None => (
                        EmissionShape::ResolvingTriple { module, file },
                        StepShape::Perform { call: CallView::GetDefaultTargetTriple },
                    ),
                },
            }
        },
        EmissionShape::ResolvingTriple { module, file } => {
            look_up(module, decode_utf8(reply->bytes), file)
        },
        EmissionShape::LookingUp { module, triple, file } => {
            match lookup_of_reply(reply->Lookup_status, reply->target, reply->Lookup_message) {
                Ok(target) => (
                    EmissionShape::CreatingMachine { module, file },
                    StepShape::Perform { call: machine_call(target, triple) },
                ),
                Err(message) => (EmissionShape::Finished, StepShape::Finish { outcome: Err(message) }),
            }
        },
        EmissionShape::CreatingMachine { module, file } => {
            (EmissionShape::Emitting, StepShape::Perform { call: object_call(reply->pointer, module, file) })
        },
        EmissionShape::Emitting => {
            (
                EmissionShape::Finished,
                StepShape::Finish {
                    outcome: emission_of_reply(reply->Emission_status, reply->Emission_message),
                },
            )
        },
        EmissionShape::Finished => (EmissionShape::Finished, StepShape::Finish { outcome: Ok(()) }),
    }
}

/// The registry that is filled after `registry`, if any.
pub fn next_registry(registry: Registry) -> (next: Option<Registry>)
    ensures
        next == registry_after(registry),
{
    match registry {
        Registry::TargetInfos => Some(Registry::Targets),
        Registry::Targets => Some(Registry::TargetMCs),
        Registry::TargetMCs => Some(Registry::AsmParsers),
        Registry::AsmParsers => Some(Registry::AsmPrinters),
        Registry::AsmPrinters => None,
    }
}

impl EmissionShape<Module, String> {
    /// Whether the run can go on from `reply`.
    pub fn accepts(&self, reply: &Reply) -> (ok: bool)
        ensures
            ok == accepts(self@, reply@),
    {
        match self {
            EmissionShape::Initializing { registry, module: _, target_triple, file: _ } => {
                match reply {
                    ReplyShape::Done => {
                        if next_registry(*registry).is_none() {
                            match target_triple {
                                Some(triple) => !has_interior_nul(triple.as_str()),
                                None => true,
                            }
                        } else {
                            true
                        }
                    },
                    _ => false,
                }
            },
            EmissionShape::ResolvingTriple { module: _, file: _ } => {
                match reply {
                    ReplyShape::Text { bytes } => is_text(bytes.as_slice()) && !contains_nul(bytes.as_slice()),
                    _ => false,
                }
            },
            EmissionShape::LookingUp { module: _, triple, file: _ } => {
                match reply {
                    ReplyShape::Lookup { status, target, message } => {
                        !has_interior_nul(triple.as_str()) && if *status == 0 {
                            *target != 0
                        } else {
                            is_text(message.as_slice())
                        }
                    },
                    _ => false,
                }
            },
            EmissionShape::CreatingMachine { module: _, file } => {
                match reply {
                    ReplyShape::Address { pointer } => *pointer != 0 && !has_interior_nul(file.as_str()),
                    _ => false,
                }
            },
            EmissionShape::Emitting => {
                match reply {
                    ReplyShape::Emission { status, message } => *status != 1 || is_text(message.as_slice()),
                    _ => false,
                }
            },
            EmissionShape::Finished => false,
        }
    }

    /// Goes on from the reply to the call that was outstanding: gives the
    /// state that follows and what is to happen next, the next call or the
    /// outcome of the run.
    pub fn advance(self, reply: Reply) -> (next: (ObjectEmission, Step))
        requires
            accepts(self@, reply@),
        ensures
            (next.0@, next.1@) == advanced(self@, reply@),
    {
        match self {
            EmissionShape::Initializing { registry, module, target_triple, file } => {
                match next_registry(registry) {
                    Some(next) => (
                        EmissionShape::Initializing { registry: next, module, target_triple, file },
                        StepShape::Perform { call: Call::InitializeAll { registry: next } },
                    ),
                    None => match target_triple {
                        Some(triple) => {
                            let call = Target::get_target_from_triple(triple.as_str());
                            (EmissionShape::LookingUp { module, triple, file }, StepShape::Perform { call })
                        },
                        None => (
                            EmissionShape::ResolvingTriple { module, file },
                            StepShape::Perform { call: Call::GetDefaultTargetTriple },
                        ),
                    },
                }
            },
            EmissionShape::ResolvingTriple { module, file } => {
                match reply {
                    ReplyShape::Text { bytes } => {
                        let triple = cstring_to_string(bytes.as_slice());
                        let call = Target::get_target_from_triple(triple.as_str());
                        (EmissionShape::LookingUp { module, triple, file }, StepShape::Perform { call })
                    },
                    _ => (EmissionShape::Finished, StepShape::Finish { outcome: Ok(()) }),
                }
            },
            EmissionShape::LookingUp { module, triple, file } => {
                match reply {
                    ReplyShape::Lookup { status, target, message } => {
                        match Target::get_target_from_triple_reply(status, target, message.as_slice()) {
                            Ok(target) => {
                                proof {
                                    reveal_strlit("");
                                    assert(""@ =~= Seq::<char>::empty());
                                    assert(vstd::utf8::encode_utf8(Seq::<char>::empty()) =~= Seq::<u8>::empty());
                                }
                                let call = TargetMachine::create(
                                    target,
                                    triple.as_str(),
                                    "",
                                    "",
                                    LLVMCodeGenOptLevel::LLVMCodeGenLevelDefault,
                                    LLVMRelocMode::LLVMRelocPIC,
                                    LLVMCodeModel::LLVMCodeModelDefault,
                                );
                                (EmissionShape::CreatingMachine { module, file }, StepShape::Perform { call })
                            },
                            Err(message) => (
                                EmissionShape::Finished,
                                StepShape::Finish { outcome: Err(message) },
                            ),
                        }
                    },
                    _ => (EmissionShape::Finished, StepShape::Finish { outcome: Ok(()) }),
                }
            },
            EmissionShape::CreatingMachine { module, file } => {
                match reply {
                    ReplyShape::Address { pointer } => {
                        let machine = TargetMachine::new(pointer);
                        let call = machine.emit_to_file(
                            module,
                            file.as_str(),
                            LLVMCodeGenFileType::LLVMObjectFile,
                        );
                        (EmissionShape::Emitting, StepShape::Perform { call })
                    },
                    _ => (EmissionShape::Finished, StepShape::Finish { outcome: Ok(()) }),
                }
            },
            EmissionShape::Emitting => {
                match reply {
                    ReplyShape::Emission { status, message } => {
                        let outcome = TargetMachine::emit_to_file_reply(status, message.as_slice());
                        (EmissionShape::Finished, StepShape::Finish { outcome })
                    },
                    _ => (EmissionShape::Finished, StepShape::Finish { outcome: Ok(()) }),
                }
            },
            EmissionShape::Finished => (EmissionShape::Finished, StepShape::Finish { outcome: Ok(()) }),
        }
    }
}

/// What a triple that may be absent says.
pub open spec fn given(target_triple: Option<String>) -> Option<Seq<char>> {
    match target_triple {
        Some(triple) => Some(triple@),
        None => None,
    }
}

/// The state in which a run begins: the call that fills the registry of
/// target descriptions is outstanding.
pub open spec fn begun(module: usize, target_triple: Option<Seq<char>>, file: Seq<char>) -> ObjectEmissionView {
    EmissionShape::Initializing { registry: Registry::TargetInfos, module, target_triple, file }
}

/// The state of a run once all five registries are filled, and the call
/// that it then makes: the four calls that fill the registries after the
/// first were made on the way, in their order.
pub open spec fn initialized(module: usize, target_triple: Option<Seq<char>>, file: Seq<char>) -> (
    ObjectEmissionView,
    StepView,
) {
    let first = advanced(begun(module, target_triple, file), ReplyShape::Done);
    let second = advanced(first.0, ReplyShape::Done);
    let third = advanced(second.0, ReplyShape::Done);
    let fourth = advanced(third.0, ReplyShape::Done);
    advanced(fourth.0, ReplyShape::Done)
}

/// A run fills the registries of targets, machine-code descriptions,
/// assembly parsers and assembly printers, in this order, after the first.
/// Then, for a triple that the caller gave, it looks up the target of that
/// triple; for none, it asks for the host's triple and looks up the target
/// of the reply, read as text.
pub proof fn lemma_run_resolves_the_triple(
    module: usize,
    target_triple: Option<Seq<char>>,
    file: Seq<char>,
    host: Seq<u8>,
)
    ensures
        ({
            let first = advanced(begun(module, target_triple, file), ReplyShape::Done);
            let second = advanced(first.0, ReplyShape::Done);
            let third = advanced(second.0, ReplyShape::Done);
            let fourth = advanced(third.0, ReplyShape::Done);
            &&& first.1 == (StepView::Perform { call: CallView::InitializeAll { registry: Registry::Targets } })
            &&& second.1 == (StepView::Perform {
                call: CallView::InitializeAll { registry: Registry::TargetMCs },
            })
            &&& third.1 == (StepView::Perform {
                call: CallView::InitializeAll { registry: Registry::AsmParsers },
            })
            &&& fourth.1 == (StepView::Perform {
                call: CallView::InitializeAll { registry: Registry::AsmPrinters },
            })
        }),
        target_triple matches Some(triple) ==> initialized(module, target_triple, file) == look_up(
            module,
            triple,
            file,
        ),
        target_triple is None ==> ({
            let asked = initialized(module, target_triple, file);
            &&& asked.1 == (StepView::Perform { call: CallView::GetDefaultTargetTriple })
            &&& advanced(asked.0, ReplyShape::Text { bytes: host }) == look_up(module, decode_utf8(host), file)
        }),
{
}

/// A lookup that fails ends the run with the backend's message as the
/// error: no machine is made and nothing is emitted.
pub proof fn lemma_failed_lookup_ends_the_run(
    module: usize,
    triple: Seq<char>,
    file: Seq<char>,
    status: i32,
    target: usize,
    message: Seq<u8>,
)
    requires
        status != 0,
    ensures
        advanced(look_up(module, triple, file).0, (ReplyShape::Lookup { status, target, message })) == (
            ObjectEmissionView::Finished,
            (StepView::Finish { outcome: Err(decode_utf8(message)) }),
        ),
{
}

/// A lookup that finds a target leads to the machine for that target and
/// the triple that was looked up, in the one configuration that a run
/// uses; the machine that is made then emits the run's module to the run's
/// file as an object file; and the run ends with what the emission
/// reported: the message as the error for the status 1, and else success.
pub proof fn lemma_found_target_leads_to_emission(
    module: usize,
    triple: Seq<char>,
    file: Seq<char>,
    target: usize,
    lookup_message: Seq<u8>,
    machine: usize,
    status: i32,
    message: Seq<u8>,
)
    ensures
        ({
            let made = advanced(
                look_up(module, triple, file).0,
                ReplyShape::Lookup { status: 0, target, message: lookup_message },
            );
            let emitted = advanced(made.0, ReplyShape::Address { pointer: machine });
            let ended = advanced(emitted.0, ReplyShape::Emission { status, message });
            &&& made.1 == (StepView::Perform { call: machine_call(target, triple) })
            &&& emitted.1 == (StepView::Perform { call: object_call(machine, module, file) })
            &&& ended.0 == ObjectEmissionView::Finished
            &&& ended.1 == (StepView::Finish { outcome: emission_of_reply(status, message) })
            &&& status != 1 ==> ended.1 == (StepView::Finish { outcome: Ok(()) })
        }),
{
}

/// How many replies a run can still take, at most, before it is over.
pub open spec fn replies_left(state: ObjectEmissionView) -> nat {
    match state {
        EmissionShape::Initializing { registry, target_triple, .. } => {
            let registries: nat = match registry {
                Registry::TargetInfos => 5,
                Registry::Targets => 4,
                Registry::TargetMCs => 3,
                Registry::AsmParsers => 2,
                Registry::AsmPrinters => 1,
            };
            let question: nat = if target_triple is None {
                1
            } else {
                0
            };
            registries + question + 3
        },
        EmissionShape::ResolvingTriple { .. } => 4,
        EmissionShape::LookingUp { .. } => 3,
        EmissionShape::CreatingMachine { .. } => 2,
        EmissionShape::Emitting => 1,
        EmissionShape::Finished => 0,
    }
}

/// Every run ends. Each reply that a run goes on from brings it nearer to
/// its end, which is at most nine replies away when it begins; a run gives
/// its outcome exactly when it is over, and asks for a call until then.
pub proof fn lemma_run_ends(state: ObjectEmissionView, reply: ReplyView)
    requires
        accepts(state, reply),
    ensures
        replies_left(advanced(state, reply).0) < replies_left(state),
        replies_left(state) <= 9,
        advanced(state, reply).1 is Finish <==> advanced(state, reply).0 is Finished,
        advanced(state, reply).0 is Finished <==> replies_left(advanced(state, reply).0) == 0,
{
}

} // verus!
