//! One request of a batch that a thread of its own handles.

use pkcs11_sys::CK_OBJECT_HANDLE;
use vstd::prelude::*;

use super::request::CryptoAlgorithm;
use super::request::HsmBatchRequest;
use crate::error::Direction;
use crate::error::InterfaceResult;
use crate::step::Step;

verus! {

/// A request, what is to be done with it, and how long the output is where that is known.
#[derive(Debug, Clone, Copy)]
pub struct BatchJob<'a> {
    pub direction: Direction,
    pub request: &'a HsmBatchRequest,
    pub output_len: Option<usize>,
}

/// A call that a job makes.
#[derive(Debug, Clone, Copy)]
pub enum JobCall<'a> {
    /// Open a session on the slot.
    OpenSession { slot_id: usize, read_write: bool },
    /// Look up the handle of a key.
    GetObjectHandle { key_id: &'a Vec<u8> },
    /// Encrypt or decrypt.
    Crypt {
        direction: Direction,
        handle: CK_OBJECT_HANDLE,
        algorithm: CryptoAlgorithm,
        data: &'a Vec<u8>,
        additional_data: &'a Vec<u8>,
        output_len: Option<usize>,
    },
}

/// The reply to a [`JobCall`].
pub enum JobReply<R> {
    /// The reply to `OpenSession`.
    Opened(InterfaceResult<()>),
    /// The reply to `GetObjectHandle`.
    Handle(InterfaceResult<CK_OBJECT_HANDLE>),
    /// The reply to `Crypt`.
    Output(InterfaceResult<R>),
}

/// A job that a thread has begun.
#[derive(Debug, Clone, Copy)]
pub enum JobRun<'a> {
    /// The session is being opened.
    Opening(BatchJob<'a>),
    /// The key is being looked up.
    Finding(BatchJob<'a>),
    /// The data is being encrypted or decrypted.
    Crypting,
}

/// The encryption or decryption of the data of a request.
pub open spec fn crypt_call<'a>(
    direction: Direction,
    request: &'a HsmBatchRequest,
    handle: CK_OBJECT_HANDLE,
    output_len: Option<usize>,
) -> JobCall<'a> {
    JobCall::Crypt {
        direction,
        handle,
        algorithm: request.algorithm,
        data: &request.data,
        additional_data: &request.authenticated_encryption_additional_data,
        output_len,
    }
}

/// The call that encrypts or decrypts the data of a request.
pub fn crypt<'a>(
    direction: Direction,
    request: &'a HsmBatchRequest,
    handle: CK_OBJECT_HANDLE,
    output_len: Option<usize>,
) -> (call: JobCall<'a>)
    ensures
        call == crypt_call(direction, request, handle, output_len),
{
    JobCall::Crypt {
        direction,
        handle,
        algorithm: request.algorithm,
        data: &request.data,
        additional_data: &request.authenticated_encryption_additional_data,
        output_len,
    }
}

impl<'a> BatchJob<'a> {
    /// How the job begins.
    pub open spec fn first<R>(self) -> Step<JobRun<'a>, JobCall<'a>, InterfaceResult<R>> {
        Step::Call(
            JobRun::Opening(self),
            JobCall::OpenSession { slot_id: self.request.slot_id, read_write: true },
        )
    }

    /// Begins the job.
    pub fn start<R>(self) -> (step: Step<JobRun<'a>, JobCall<'a>, InterfaceResult<R>>)
        ensures
            step == self.first::<R>(),
    {
        Step::Call(
            JobRun::Opening(self),
            JobCall::OpenSession { slot_id: self.request.slot_id, read_write: true },
        )
    }
}

impl<'a> JobRun<'a> {
    /// Whether a reply is one to the call that was made last.
    pub open spec fn expects<R>(self, reply: JobReply<R>) -> bool {
        match self {
            JobRun::Opening(_) => reply is Opened,
            JobRun::Finding(_) => reply is Handle,
            JobRun::Crypting => reply is Output,
        }
    }

    /// What follows a reply.
    pub open spec fn next<R>(self, reply: JobReply<R>) -> Step<
        JobRun<'a>,
        JobCall<'a>,
        InterfaceResult<R>,
    > {
        match self {
            JobRun::Opening(job) => match reply->Opened_0 {
                Ok(_) => Step::Call(
                    JobRun::Finding(job),
                    JobCall::GetObjectHandle { key_id: &job.request.key_id },
                ),
                Err(e) => Step::Finish(Err(e)),
            },
            JobRun::Finding(job) => match reply->Handle_0 {
                Ok(handle) => Step::Call(
                    JobRun::Crypting,
                    crypt_call(job.direction, job.request, handle, job.output_len),
                ),
                Err(e) => Step::Finish(Err(e)),
            },
            JobRun::Crypting => Step::Finish(reply->Output_0),
        }
    }

    /// Tells whether a reply is one to the call that was made last.
    pub fn accepts<R>(&self, reply: &JobReply<R>) -> (accepted: bool)
        ensures
            accepted == self.expects(*reply),
    {
        match (self, reply) {
            (JobRun::Opening(_), JobReply::Opened(_)) => true,
            (JobRun::Finding(_), JobReply::Handle(_)) => true,
            (JobRun::Crypting, JobReply::Output(_)) => true,
            _ => false,
        }
    }

    /// Goes on with the reply to the call that was made last.
    pub fn resume<R>(self, reply: JobReply<R>) -> (step: Step<
        JobRun<'a>,
        JobCall<'a>,
        InterfaceResult<R>,
    >)
        requires
            self.expects(reply),
        ensures
            step == self.next(reply),
    {
        match (self, reply) {
            (JobRun::Opening(job), JobReply::Opened(result)) => match result {
                Ok(()) => Step::Call(
                    JobRun::Finding(job),
                    JobCall::GetObjectHandle { key_id: &job.request.key_id },
                ),
                Err(e) => Step::Finish(Err(e)),
            },
            (JobRun::Finding(job), JobReply::Handle(result)) => match result {
                Ok(handle) => Step::Call(
                    JobRun::Crypting,
                    crypt(job.direction, job.request, handle, job.output_len),
                ),
                Err(e) => Step::Finish(Err(e)),
            },
            (JobRun::Crypting, JobReply::Output(result)) => Step::Finish(result),
            _ => vstd::pervasive::unreached(),
        }
    }
}

} // verus!
