//! ML-DSA verification of a signature.

use pkcs11_sys::CK_OBJECT_HANDLE;
use vstd::prelude::*;

use super::hsm_call;
use super::outcome;
use super::Session;
use crate::cryptoki::Called;
use crate::cryptoki::SessionCall;
use crate::cryptoki::SessionCallExec;
use crate::cryptoki::SessionCallView;
use crate::cryptoki::SessionReply;
use crate::cryptoki::SessionReplyExec;
use crate::cryptoki::SessionReplyView;
use crate::cryptoki::CKM_ML_DSA;
use crate::cryptoki::CKR_OK;
use crate::cryptoki::CKR_SIGNATURE_INVALID;
use crate::cryptoki::CKR_SIGNATURE_LEN_RANGE;
use crate::error::call_failed_text;
use crate::error::not_available_text;
use crate::error::viewed;
use crate::error::Function;
use crate::error::HError;
use crate::error::HResult;
use crate::error::HResultView;
use crate::step::Step;

verus! {

/// A signature that is being verified.
#[derive(Debug, Clone, Copy)]
pub enum Verification<'a> {
    /// The verification is being set up.
    Initializing { session: Session, data: &'a [u8], signature: &'a [u8] },
    /// The signature is being verified.
    Verifying,
}

impl<'a> View for Verification<'a> {
    type V = Verification<'a>;

    open spec fn view(&self) -> Self::V {
        *self
    }
}

/// What `C_Verify` says of a signature: it holds, it does not, or nothing.
pub open spec fn verdict(called: Called<()>) -> HResultView<bool> {
    match called {
        Called::NotAvailable => Err(HError::Default(not_available_text(Function::Verify))),
        Called::Returned(rv, _) => if rv == CKR_OK {
            Ok(true)
        } else if rv == CKR_SIGNATURE_INVALID || rv == CKR_SIGNATURE_LEN_RANGE {
            Ok(false)
        } else {
            Err(HError::Default(call_failed_text(Function::Verify, rv)))
        },
    }
}

/// What `C_Verify` says of a signature.
///
/// A signature that is wrong, or of the wrong length, is not an error.
pub fn signature_verdict(called: Called<()>) -> (verified: HResult<bool>)
    ensures
        viewed(verified) == verdict(called),
{
    match called {
        Called::NotAvailable => Err(HError::not_available(Function::Verify)),
        Called::Returned(rv, _) => match rv {
            CKR_OK => Ok(true),
            CKR_SIGNATURE_INVALID | CKR_SIGNATURE_LEN_RANGE => Ok(false),
            rv => Err(HError::call_failed(Function::Verify, rv)),
        },
    }
}

/// How the verification of a signature begins.
pub open spec fn verification_start<'a>(
    session: Session,
    public_key: CK_OBJECT_HANDLE,
    data: &'a [u8],
    signature: &'a [u8],
) -> Step<Verification<'a>, SessionCallView<'a>, HResultView<bool>> {
    Step::Call(
        Verification::Initializing { session, data, signature },
        SessionCall::VerifyInit { session: session.handle(), mechanism: CKM_ML_DSA, public_key },
    )
}

impl<'a> Verification<'a> {
    /// Whether a reply is one to the call that was made last.
    pub open spec fn expects(self, reply: SessionReplyView) -> bool {
        reply is Status
    }

    /// What follows a reply.
    pub open spec fn next(self, reply: SessionReplyView) -> Step<
        Verification<'a>,
        SessionCallView<'a>,
        HResultView<bool>,
    > {
        match self {
            Verification::Initializing { session, data, signature } => match outcome(
                Function::VerifyInit,
                reply->Status_0,
            ) {
                Ok(_) => Step::Call(
                    Verification::Verifying,
                    SessionCall::Verify { session: session.handle(), data, signature },
                ),
                Err(e) => Step::Finish(Err(e)),
            },
            Verification::Verifying => Step::Finish(verdict(reply->Status_0)),
        }
    }

    /// Tells whether a reply is one to the call that was made last.
    pub fn accepts(&self, reply: &SessionReplyExec) -> (accepted: bool)
        ensures
            accepted == self.expects(reply@),
    {
        matches!(reply, SessionReply::Status(_))
    }

    /// Goes on with the reply to the call that was made last.
    pub fn resume(self, reply: SessionReplyExec) -> (step: Step<
        Verification<'a>,
        SessionCallExec<'a>,
        HResult<bool>,
    >)
        requires
            self.expects(reply@),
        ensures
            step@ == self.next(reply@),
    {
        match (self, reply) {
            (
                Verification::Initializing { session, data, signature },
                SessionReply::Status(called),
            ) => match hsm_call(Function::VerifyInit, called) {
                Ok(()) => Step::Call(
                    Verification::Verifying,
                    SessionCall::Verify { session: session.session_handle(), data, signature },
                ),
                Err(e) => Step::Finish(Err(e)),
            },
            (Verification::Verifying, SessionReply::Status(called)) => Step::Finish(
                signature_verdict(called),
            ),
            _ => vstd::pervasive::unreached(),
        }
    }
}

impl Session {
    /// Verifies a signature of `data` with an ML-DSA public key.
    pub fn mldsa_verify<'a>(
        &self,
        public_key_handle: CK_OBJECT_HANDLE,
        data: &'a [u8],
        signature: &'a [u8],
    ) -> (step: Step<Verification<'a>, SessionCallExec<'a>, HResult<bool>>)
        ensures
            step@ == verification_start(*self, public_key_handle, data, signature),
    {
        Step::Call(
            Verification::Initializing { session: *self, data, signature },
            SessionCall::VerifyInit {
                session: self.session_handle(),
                mechanism: CKM_ML_DSA,
                public_key: public_key_handle,
            },
        )
    }
}

} // verus!
