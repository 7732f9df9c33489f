//! Targets: what code is generated for, and the machine that generates it.

use crate::call::{Call, CallView};
use crate::handle::Handle;
use crate::module::Module;
use crate::util::{c_string, cstring_to_string, is_c_text, string_to_cstring};
use llvm_sys::target_machine::{LLVMCodeGenFileType, LLVMCodeGenOptLevel, LLVMCodeModel, LLVMRelocMode};
use vstd::prelude::*;
use vstd::utf8::{decode_utf8, valid_utf8};

verus! {

/// The size and alignment rules of a target. It is a handle on an object
/// that a target machine made.
#[derive(Debug, Clone, Copy, PartialEq, Eq, Structural)]
pub struct TargetData {
    handle: Handle,
}

impl View for TargetData {
    type V = usize;

    /// The address that the handle holds.
    closed spec fn view(&self) -> usize {
        self.handle@
    }
}

impl TargetData {
    /// Wraps the address that the backend gave for a data layout.
    pub fn new(pointer: usize) -> (data: Self)
        requires
            pointer != 0,
        ensures
            data@ == pointer,
    {
        Self { handle: Handle::new(pointer) }
    }

    /// The address that the handle holds.
    pub fn get(&self) -> (pointer: usize)
        ensures
            pointer == self@,
            pointer != 0,
    {
        self.handle.get()
    }
}

/// A registered backend target. It is a handle on an entry of the
/// process-wide registry.
#[derive(Debug, Clone, Copy, PartialEq, Eq, Structural)]
pub struct Target {
    handle: Handle,
}

impl View for Target {
    type V = usize;

    /// The address that the handle holds.
    closed spec fn view(&self) -> usize {
        self.handle@
    }
}

/// What a reply to a lookup by triple says. The backend's status is 0 where
/// it found a target, whose address it then gives; any other status comes
/// with a message that says why none was found.
pub open spec fn lookup_of_reply(status: i32, target: usize, message: Seq<u8>) -> Result<usize, Seq<char>> {
    if status == 0 {
        Ok(target)
    } else {
        Err(decode_utf8(message))
    }
}

/// What a reply to an emission says. The backend's status is 1 where the
/// emission failed, and then comes with a message that says why; any other
/// status is success.
pub open spec fn emission_of_reply(status: i32, message: Seq<u8>) -> Result<(), Seq<char>> {
    if status == 1 {
        Err(decode_utf8(message))
    } else {
        Ok(())
    }
}

impl Target {
    /// Wraps the address that the backend gave for a target.
    pub fn new(pointer: usize) -> (target: Self)
        requires
            pointer != 0,
        ensures
            target@ == pointer,
    {
        Self { handle: Handle::new(pointer) }
    }

    /// The address that the handle holds.
    pub fn get(&self) -> (pointer: usize)
        ensures
            pointer == self@,
            pointer != 0,
    {
        self.handle.get()
    }

    /// Asks for the registered target of the given name. The reply is an
    /// address, null where no target has that name, for
    /// [`Target::get_target_from_name_reply`].
    pub fn get_target_from_name(name: &str) -> (call: Call)
        requires
            is_c_text(name@),
        ensures
            call@ == (CallView::GetTargetFromName { name: c_string(name@) }),
    {
        Call::GetTargetFromName { name: string_to_cstring(name) }
    }

    /// The target as the backend reported it: absent for a null address, and
    /// else the target at that very address.
    pub fn get_target_from_name_reply(pointer: usize) -> (target: Option<Target>)
        ensures
            target is None <==> pointer == 0,
            target matches Some(t) ==> t@ == pointer,
    {
        match Handle::from_nullable(pointer) {
            Some(handle) => Some(Target { handle }),
            None => None,
        }
    }

    /// Asks for the registered target that serves the given triple. The
    /// reply is a status, the target's address and an error message, for
    /// [`Target::get_target_from_triple_reply`].
    pub fn get_target_from_triple(triple: &str) -> (call: Call)
        requires
            is_c_text(triple@),
        ensures
            call@ == (CallView::GetTargetFromTriple { triple: c_string(triple@) }),
    {
        Call::GetTargetFromTriple { triple: string_to_cstring(triple) }
    }

    /// The outcome of a lookup by triple as the backend reported it: the
    /// target at the address given where the status is 0, and else the
    /// message, as text, as the error. `message` is the text of the message
    /// without its closing zero byte; it is read only where the lookup
    /// failed.
    pub fn get_target_from_triple_reply(status: i32, target: usize, message: &[u8]) -> (found: Result<
        Target,
        String,
    >)
        requires
            status == 0 ==> target != 0,
            status != 0 ==> valid_utf8(message@),
        ensures
            found is Ok <==> status == 0,
            found matches Ok(t) ==> lookup_of_reply(status, target, message@) == Ok::<usize, Seq<char>>(t@),
            found matches Err(m) ==> lookup_of_reply(status, target, message@) == Err::<usize, Seq<char>>(
                m@,
            ),
    {
        if status == 0 {
            Ok(Target::new(target))
        } else {
            Err(cstring_to_string(message))
        }
    }
}

/// A configured code generator for one target. It is a handle on an object
/// that the backend made.
#[derive(Debug, Clone, Copy, PartialEq, Eq, Structural)]
pub struct TargetMachine {
    handle: Handle,
}

impl View for TargetMachine {
    type V = usize;

    /// The address that the handle holds.
    closed spec fn view(&self) -> usize {
        self.handle@
    }
}

impl TargetMachine {
    /// The request for a target machine.
    pub open spec fn create_call(
        target: Target,
        triple: Seq<char>,
        cpu: Seq<char>,
        features: Seq<char>,
        level: LLVMCodeGenOptLevel,
        reloc: LLVMRelocMode,
        code_model: LLVMCodeModel,
    ) -> CallView {
        CallView::CreateTargetMachine {
            target: target@,
            triple: c_string(triple),
            cpu: c_string(cpu),
            features: c_string(features),
            level,
            reloc,
            code_model,
        }
    }

    /// The request for an emission.
    pub open spec fn emit_call(self, module: Module, file: Seq<char>, file_type: LLVMCodeGenFileType) -> CallView {
        CallView::TargetMachineEmitToFile { machine: self@, module: module@, file: c_string(file), file_type }
    }

    /// Wraps the address that the backend gave for a target machine.
    pub fn new(pointer: usize) -> (machine: Self)
        requires
            pointer != 0,
        ensures
            machine@ == pointer,
    {
        Self { handle: Handle::new(pointer) }
    }

    /// The address that the handle holds.
    pub fn get(&self) -> (pointer: usize)
        ensures
            pointer == self@,
            pointer != 0,
    {
        self.handle.get()
    }

    /// Asks for a code generator for `target` and the given triple, CPU and
    /// feature string, with the given optimization level, relocation mode
    /// and code model. The reply is its address, for [`TargetMachine::new`].
    pub fn create(
        target: Target,
        triple: &str,
        cpu: &str,
        features: &str,
        level: LLVMCodeGenOptLevel,
        reloc: LLVMRelocMode,
        code_model: LLVMCodeModel,
    ) -> (call: Call)
        requires
            is_c_text(triple@),
            is_c_text(cpu@),
            is_c_text(features@),
        ensures
            call@ == Self::create_call(target, triple@, cpu@, features@, level, reloc, code_model),
    {
        Call::CreateTargetMachine {
            target: target.get(),
            triple: string_to_cstring(triple),
            cpu: string_to_cstring(cpu),
            features: string_to_cstring(features),
            level,
            reloc,
            code_model,
        }
    }

    /// Asks for the data layout of this machine's target. The reply is its
    /// address, for [`TargetData::new`].
    pub fn create_data_layout(&self) -> (call: Call)
        ensures
            call@ == (CallView::CreateTargetDataLayout { machine: self@ }),
    {
        Call::CreateTargetDataLayout { machine: self.get() }
    }

    /// Asks for `module` to be lowered and written to `file` as an object or
    /// assembly file. The module is given up with the request. The reply is
    /// a status and an error message, for
    /// [`TargetMachine::emit_to_file_reply`].
    pub fn emit_to_file(&self, module: Module, file: &str, file_type: LLVMCodeGenFileType) -> (call: Call)
        requires
            is_c_text(file@),
        ensures
            call@ == self.emit_call(module, file@, file_type),
    {
        Call::TargetMachineEmitToFile {
            machine: self.get(),
            module: module.get(),
            file: string_to_cstring(file),
            file_type,
        }
    }

    /// The outcome of an emission as the backend reported it: the message,
    /// as text, as the error where the status is 1, and else success.
    /// `message` is the text of the message without its closing zero byte;
    /// it is read only where the emission failed.
    pub fn emit_to_file_reply(status: i32, message: &[u8]) -> (written: Result<(), String>)
        requires
            status == 1 ==> valid_utf8(message@),
        ensures
            written is Err <==> status == 1,
            written matches Err(m) ==> emission_of_reply(status, message@) == Err::<(), Seq<char>>(m@),
    {
        if status == 1 {
            Err(cstring_to_string(message))
        } else {
            Ok(())
        }
    }
}

} // verus!
