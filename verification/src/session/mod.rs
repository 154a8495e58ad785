//! Operations of a session on a slot of the HSM.

pub mod keypair;
pub mod laws;
pub mod mldsa;
pub mod mlkem;
pub mod pqc;
pub mod protocol;

use pkcs11_sys::CK_SESSION_HANDLE;
use vstd::prelude::*;

use crate::cryptoki::Called;
use crate::cryptoki::CKR_OK;
use crate::error::call_failed_text;
use crate::error::not_available_text;
use crate::error::viewed;
use crate::error::Function;
use crate::error::HError;
use crate::error::HResult;
use crate::error::HResultView;

verus! {

/// An open session.
#[derive(Debug, Clone, Copy)]
pub struct Session {
    handle: CK_SESSION_HANDLE,
}

impl Session {
    /// The handle that the PKCS#11 library knows the session by.
    pub closed spec fn handle(self) -> CK_SESSION_HANDLE {
        self.handle
    }

    /// A session that the PKCS#11 library has opened under this handle.
    pub fn new(handle: CK_SESSION_HANDLE) -> (session: Session)
        ensures
            session.handle() == handle,
    {
        Session { handle }
    }

    /// The handle that the PKCS#11 library knows the session by.
    pub fn session_handle(&self) -> (handle: CK_SESSION_HANDLE)
        ensures
            handle == self.handle(),
    {
        self.handle
    }
}

/// What a call of a function amounts to: its output where it returned `CKR_OK`, else an error.
pub open spec fn outcome<T>(function: Function, called: Called<T>) -> HResultView<T> {
    match called {
        Called::NotAvailable => Err(HError::Default(not_available_text(function))),
        Called::Returned(rv, output) => if rv == CKR_OK {
            Ok(output)
        } else {
            Err(HError::Default(call_failed_text(function, rv)))
        },
    }
}

/// The output of a call of a function, or the error that the call amounts to.
pub fn hsm_call<T>(function: Function, called: Called<T>) -> (result: HResult<T>)
    ensures
        viewed(result) == outcome(function, called),
{
    match called {
        Called::NotAvailable => Err(HError::not_available(function)),
        Called::Returned(rv, output) => if rv == CKR_OK {
            Ok(output)
        } else {
            Err(HError::call_failed(function, rv))
        },
    }
}

} // verus!
