//! Operations of the HSM as a whole.
//!
//! Each gets the slot, opens a session on it for reading and writing, and goes on from there. The
//! first call that fails ends the operation with its error, unless the operation says otherwise.

pub mod create;
pub mod delete;
pub mod find;
pub mod laws;
pub mod objects;
pub mod operation;
pub mod protocol;

use pkcs11_sys::CK_OBJECT_HANDLE;
use vstd::prelude::*;

use crate::error::InterfaceResult;
use crate::session::Session;

verus! {

/// The HSM.
#[derive(Debug, Clone, Copy)]
pub struct BaseHsm;

/// A call that an operation makes. `Q` is what is asked of the session.
#[derive(Debug)]
pub enum HsmCall<'a, Q> {
    /// Get the slot.
    GetSlot { slot_id: usize },
    /// Open a session on the slot that was got.
    OpenSession { read_write: bool },
    /// Look up the handle of an object.
    GetObjectHandle { id: &'a [u8] },
    /// Ask something of the session.
    Perform(Q),
}

impl<'a, Q: View> View for HsmCall<'a, Q> {
    type V = HsmCall<'a, Q::V>;

    open spec fn view(&self) -> Self::V {
        match *self {
            HsmCall::GetSlot { slot_id } => HsmCall::GetSlot { slot_id },
            HsmCall::OpenSession { read_write } => HsmCall::OpenSession { read_write },
            HsmCall::GetObjectHandle { id } => HsmCall::GetObjectHandle { id },
            HsmCall::Perform(request) => HsmCall::Perform(request@),
        }
    }
}

/// The reply to an [`HsmCall`]. `T` is the reply of the session.
pub enum HsmReply<T> {
    /// The reply to `GetSlot`.
    Slot(InterfaceResult<()>),
    /// The reply to `OpenSession`.
    Session(InterfaceResult<Session>),
    /// The reply to `GetObjectHandle`.
    Handle(InterfaceResult<CK_OBJECT_HANDLE>),
    /// The reply to `Perform`.
    Performed(T),
}

impl<T: View> View for HsmReply<T> {
    type V = HsmReply<T::V>;

    open spec fn view(&self) -> Self::V {
        match *self {
            HsmReply::Slot(result) => HsmReply::Slot(result),
            HsmReply::Session(result) => HsmReply::Session(result),
            HsmReply::Handle(result) => HsmReply::Handle(result),
            HsmReply::Performed(reply) => HsmReply::Performed(reply@),
        }
    }
}

} // verus!
