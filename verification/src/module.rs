//! Modules: the compilation units that hold functions and are emitted.

use crate::call::{Call, CallView, Registry};
use crate::emission::{begun, given, EmissionShape, ObjectEmission};
use crate::handle::Handle;
use crate::ty::Type;
use crate::util::{c_string, is_c_text, string_to_cstring};
use vstd::prelude::*;

verus! {

/// A module. It lives in a context and owns its functions.
#[derive(Debug, PartialEq, Eq)]
pub struct Module {
    handle: Handle,
}

impl View for Module {
    type V = usize;

    /// The address that the handle holds.
    closed spec fn view(&self) -> usize {
        self.handle@
    }
}

impl Module {
    /// Wraps the address that the backend gave for a module.
    pub fn new(pointer: usize) -> (module: Self)
        requires
            pointer != 0,
        ensures
            module@ == pointer,
    {
        Self { handle: Handle::new(pointer) }
    }

    /// The address that the handle holds.
    pub fn get(&self) -> (pointer: usize)
        ensures
            pointer == self@,
            pointer != 0,
    {
        self.handle.get()
    }

    /// Asks for the module's target triple to be set. It goes into what is
    /// emitted; it does not choose what emission generates code for. There
    /// is no reply.
    pub fn set_target(&self, target_triple: &str) -> (call: Call)
        requires
            is_c_text(target_triple@),
        ensures
            call@ == (CallView::SetTarget { module: self@, triple: c_string(target_triple@) }),
    {
        Call::SetTarget { module: self.get(), triple: string_to_cstring(target_triple) }
    }

    /// Asks for a function of the given name and type to be added to this
    /// module. The reply is the function's address, for `Value::new`.
    pub fn add_function(&self, name: &str, func_ty: &Type) -> (call: Call)
        requires
            is_c_text(name@),
        ensures
            call@ == (CallView::AddFunction { module: self@, name: c_string(name@), func_ty: func_ty@ }),
    {
        Call::AddFunction { module: self.get(), name: string_to_cstring(name), func_ty: func_ty.get() }
    }

    /// Asks for the module to be written to `path` as bitcode. The reply is
    /// a status, for [`Module::write_bitcode_to_file_reply`].
    pub fn write_bitcode_to_file(&self, path: &str) -> (call: Call)
        requires
            is_c_text(path@),
        ensures
            call@ == (CallView::WriteBitcodeToFile { module: self@, path: c_string(path@) }),
    {
        Call::WriteBitcodeToFile { module: self.get(), path: string_to_cstring(path) }
    }

    /// Whether the bitcode was written: the backend's status is 0 for
    /// success and anything else for failure. Why a write failed is not
    /// told.
    pub fn write_bitcode_to_file_reply(status: i32) -> (written: bool)
        ensures
            written == (status == 0),
    {
        status == 0
    }

    /// Begins the writing of this module as an object file at `file`, for
    /// the target of `target_triple` or, where none is given, for the host.
    /// The module is given up to the run. What comes back is the state of the
    /// run and its first call, the one that fills the registry of target
    /// descriptions; hand each reply to [`EmissionShape::advance`] until it
    /// gives the outcome.
    pub fn write_object_file(self, target_triple: Option<String>, file: String) -> (run: (ObjectEmission, Call))
        ensures
            run.0@ == begun(self@, given(target_triple), file@),
            run.1@ == (CallView::InitializeAll { registry: Registry::TargetInfos }),
    {
        (
            EmissionShape::Initializing { registry: Registry::TargetInfos, module: self, target_triple, file },
            crate::initialize_all_target_infos(),
        )
    }

    /// Asks for this module to be freed. The module is given up with the
    /// request: nothing can ask for it a second time.
    pub fn dispose(self) -> (call: Call)
        ensures
            call@ == (CallView::DisposeModule { module: self@ }),
    {
        Call::DisposeModule { module: self.get() }
    }
}

} // verus!
