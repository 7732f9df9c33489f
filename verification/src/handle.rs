//! Handles: the addresses of the backend's objects.
//!
//! The backend knows each of its objects by an address and gives a null
//! address where it has no object to give. A [`Handle`] is an address that is
//! not null. Every wrapper of a backend object holds one, so that no wrapper
//! of nothing exists.

use vstd::prelude::*;

verus! {

/// The address of a backend object. It is never null.
#[derive(Debug, Clone, Copy, PartialEq, Eq, Structural)]
pub struct Handle {
    address: usize,
}

impl View for Handle {
    type V = usize;

    /// The address.
    closed spec fn view(&self) -> usize {
        self.address
    }
}

/// The handle that holds `pointer`.
pub closed spec fn handle_at(pointer: usize) -> Handle {
    Handle { address: pointer }
}

/// What an address from the backend says where it may be null: null is no
/// object, any other address is the object there.
pub open spec fn handle_of_reply(pointer: usize) -> Option<Handle> {
    if pointer == 0 {
        None
    } else {
        Some(handle_at(pointer))
    }
}

/// A handle is nothing but the address it holds.
pub proof fn lemma_handle_is_its_address(handle: Handle)
    ensures
        handle_at(handle@) == handle,
{
}

/// The handle that holds an address holds that address.
pub proof fn lemma_handle_holds_its_address(pointer: usize)
    ensures
        handle_at(pointer)@ == pointer,
{
}

impl Handle {
    /// A handle is never null.
    #[verifier::type_invariant]
    closed spec fn is_live(self) -> bool {
        self.address != 0
    }

    /// The handle for an address that is not null.
    pub fn new(pointer: usize) -> (handle: Self)
        requires
            pointer != 0,
        ensures
            handle@ == pointer,
            handle == handle_at(pointer),
    {
        Self { address: pointer }
    }

    /// The handle for an address that may be null: none for null.
    pub fn from_nullable(pointer: usize) -> (handle: Option<Self>)
        ensures
            handle == handle_of_reply(pointer),
            handle is None <==> pointer == 0,
            handle matches Some(h) ==> h@ == pointer,
    {
        if pointer == 0 {
            None
        } else {
            Some(Self { address: pointer })
        }
    }

    /// The address.
    #[inline]
    pub fn get(&self) -> (pointer: usize)
        ensures
            pointer == self@,
            pointer != 0,
    {
        proof {
            use_type_invariant(self);
        }
        self.address
    }
}

} // verus!
