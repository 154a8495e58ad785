//! Deletion of an object.

use pkcs11_sys::CK_OBJECT_HANDLE;
use vstd::prelude::*;

use super::BaseHsm;
use super::HsmCall;
use super::HsmReply;
use crate::error::InterfaceResult;
use crate::step::Step;

verus! {

/// What is asked of a session to delete an object.
#[derive(Debug, Clone, Copy)]
pub enum DeletionCall<'a> {
    /// Destroy the object.
    DestroyObject { handle: CK_OBJECT_HANDLE },
    /// Forget the handle of the object.
    DeleteObjectHandle { id: &'a [u8] },
}

/// An object that is being deleted.
#[derive(Debug, Clone, Copy)]
pub enum Deletion<'a> {
    /// The slot is being got.
    GettingSlot { object_id: &'a [u8] },
    /// The session is being opened.
    OpeningSession { object_id: &'a [u8] },
    /// The object is being looked up.
    FindingObject { object_id: &'a [u8] },
    /// The object is being destroyed.
    Destroying { object_id: &'a [u8] },
    /// The handle is being forgotten.
    Forgetting,
}

/// The next step of the deletion of an object.
pub type DeletionStep<'a> = Step<
    Deletion<'a>,
    HsmCall<'a, DeletionCall<'a>>,
    InterfaceResult<()>,
>;

/// The reply to a call of the deletion of an object.
pub type DeletionReply = HsmReply<InterfaceResult<()>>;

/// How the deletion of an object begins.
pub open spec fn deletion_start<'a>(slot_id: usize, object_id: &'a [u8]) -> DeletionStep<'a> {
    Step::Call(Deletion::GettingSlot { object_id }, HsmCall::GetSlot { slot_id })
}

impl<'a> Deletion<'a> {
    /// Whether a reply is one to the call that was made last.
    pub open spec fn expects(self, reply: DeletionReply) -> bool {
        match self {
            Deletion::GettingSlot { .. } => reply is Slot,
            Deletion::OpeningSession { .. } => reply is Session,
            Deletion::FindingObject { .. } => reply is Handle,
            Deletion::Destroying { .. } => reply is Performed,
            Deletion::Forgetting => reply is Performed,
        }
    }

    /// What follows a reply.
    pub open spec fn next(self, reply: DeletionReply) -> DeletionStep<'a> {
        match self {
            Deletion::GettingSlot { object_id } => match reply->Slot_0 {
                Ok(_) => Step::Call(
                    Deletion::OpeningSession { object_id },
                    HsmCall::OpenSession { read_write: true },
                ),
                Err(e) => Step::Finish(Err(e)),
            },
            Deletion::OpeningSession { object_id } => match reply->Session_0 {
                Ok(_) => Step::Call(
                    Deletion::FindingObject { object_id },
                    HsmCall::GetObjectHandle { id: object_id },
                ),
                Err(e) => Step::Finish(Err(e)),
            },
            Deletion::FindingObject { object_id } => match reply->Handle_0 {
                Ok(handle) => Step::Call(
                    Deletion::Destroying { object_id },
                    HsmCall::Perform(DeletionCall::DestroyObject { handle }),
                ),
                Err(e) => Step::Finish(Err(e)),
            },
            Deletion::Destroying { object_id } => match reply->Performed_0 {
                Ok(_) => Step::Call(
                    Deletion::Forgetting,
                    HsmCall::Perform(DeletionCall::DeleteObjectHandle { id: object_id }),
                ),
                Err(e) => Step::Finish(Err(e)),
            },
            Deletion::Forgetting => Step::Finish(reply->Performed_0),
        }
    }

    /// Tells whether a reply is one to the call that was made last.
    pub fn accepts(&self, reply: &DeletionReply) -> (accepted: bool)
        ensures
            accepted == self.expects(*reply),
    {
        match (self, reply) {
            (Deletion::GettingSlot { .. }, HsmReply::Slot(_)) => true,
            (Deletion::OpeningSession { .. }, HsmReply::Session(_)) => true,
            (Deletion::FindingObject { .. }, HsmReply::Handle(_)) => true,
            (Deletion::Destroying { .. }, HsmReply::Performed(_)) => true,
            (Deletion::Forgetting, HsmReply::Performed(_)) => true,
            _ => false,
        }
    }

    /// Goes on with the reply to the call that was made last.
    pub fn resume(self, reply: DeletionReply) -> (step: DeletionStep<'a>)
        requires
            self.expects(reply),
        ensures
            step == self.next(reply),
    {
        match (self, reply) {
            (Deletion::GettingSlot { object_id }, HsmReply::Slot(result)) => match result {
                Ok(()) => Step::Call(
                    Deletion::OpeningSession { object_id },
                    HsmCall::OpenSession { read_write: true },
                ),
                Err(e) => Step::Finish(Err(e)),
            },
            (Deletion::OpeningSession { object_id }, HsmReply::Session(result)) => match result {
                Ok(_) => Step::Call(
                    Deletion::FindingObject { object_id },
                    HsmCall::GetObjectHandle { id: object_id },
                ),
                Err(e) => Step::Finish(Err(e)),
            },
            (Deletion::FindingObject { object_id }, HsmReply::Handle(result)) => match result {
                Ok(handle) => Step::Call(
                    Deletion::Destroying { object_id },
                    HsmCall::Perform(DeletionCall::DestroyObject { handle }),
                ),
                Err(e) => Step::Finish(Err(e)),
            },
            (Deletion::Destroying { object_id }, HsmReply::Performed(result)) => match result {
                Ok(()) => Step::Call(
                    Deletion::Forgetting,
                    HsmCall::Perform(DeletionCall::DeleteObjectHandle { id: object_id }),
                ),
                Err(e) => Step::Finish(Err(e)),
            },
            (Deletion::Forgetting, HsmReply::Performed(result)) => Step::Finish(result),
            _ => vstd::pervasive::unreached(),
        }
    }
}

impl BaseHsm {
    /// Deletes an object, and forgets its handle.
    pub fn delete<'a>(&self, slot_id: usize, object_id: &'a [u8]) -> (step: DeletionStep<'a>)
        ensures
            step == deletion_start(slot_id, object_id),
    {
        Step::Call(Deletion::GettingSlot { object_id }, HsmCall::GetSlot { slot_id })
    }
}

} // verus!
