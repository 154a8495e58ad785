//! Operations that ask one thing of a session, and give what the session gives.

use pkcs11_sys::CK_OBJECT_HANDLE;
use vstd::prelude::*;

use super::BaseHsm;
use super::HsmCall;
use super::HsmReply;
use crate::batch::request::CryptoAlgorithm;
use crate::batch::request::EncryptedContent;
use crate::batch::request::HsmDecryptBatchRequest;
use crate::batch::request::HsmEncryptBatchRequest;
use crate::batch::run::segment_start;
use crate::batch::run::BatchRun;
use crate::batch::run::BatchStep;
use crate::error::Direction;
use crate::error::InterfaceResult;
use crate::secret::SecretBytes;
use crate::step::Step;

verus! {

/// What is asked of a session, with the handle of the key where the operation is on a key.
#[derive(Debug)]
pub struct Request<Q> {
    pub handle: Option<CK_OBJECT_HANDLE>,
    pub request: Q,
}

/// Export the key.
#[derive(Debug, Clone, Copy)]
pub struct ExportKey;

/// Encrypt with the key.
#[derive(Debug, Clone, Copy)]
pub struct EncryptWithAad<'a> {
    pub algorithm: CryptoAlgorithm,
    pub data: &'a [u8],
    pub additional_data: &'a [u8],
}

/// Decrypt with the key.
#[derive(Debug, Clone, Copy)]
pub struct DecryptWithAad<'a> {
    pub algorithm: CryptoAlgorithm,
    pub data: &'a [u8],
    pub additional_data: &'a [u8],
}

/// Sign with the key. `S` is the type of the algorithm.
#[derive(Debug)]
pub struct Sign<'a, S> {
    pub algorithm: S,
    pub data: &'a [u8],
}

/// Verify a signature with the key. `S` is the type of the algorithm.
#[derive(Debug)]
pub struct SignatureVerify<'a, S> {
    pub algorithm: S,
    pub data: &'a [u8],
    pub signature: &'a [u8],
}

/// Tell the type of the key.
#[derive(Debug, Clone, Copy)]
pub struct GetKeyType;

/// Tell what is known of the key.
#[derive(Debug, Clone, Copy)]
pub struct GetKeyMetadata;

/// Generate random bytes.
#[derive(Debug, Clone, Copy)]
pub struct GenerateRandom {
    pub len: usize,
}

/// Seed the generator of random bytes.
#[derive(Debug, Clone, Copy)]
pub struct SeedRandom<'a> {
    pub seed: &'a [u8],
}

/// An operation that has begun. `key_id` names the key that it is on, if it is on one.
#[derive(Debug)]
pub enum Operation<'a, Q> {
    /// The slot is being got.
    GettingSlot { key_id: Option<&'a [u8]>, request: Q },
    /// The session is being opened.
    OpeningSession { key_id: Option<&'a [u8]>, request: Q },
    /// The key is being looked up.
    FindingKey { request: Q },
    /// The session has been asked.
    Performing,
}

/// The next step of an operation with the result `T`.
pub type OperationStep<'a, Q, T> = Step<
    Operation<'a, Q>,
    HsmCall<'a, Request<Q>>,
    InterfaceResult<T>,
>;

/// How an operation begins.
pub open spec fn operation_start<'a, Q, T>(
    slot_id: usize,
    key_id: Option<&'a [u8]>,
    request: Q,
) -> OperationStep<'a, Q, T> {
    Step::Call(Operation::GettingSlot { key_id, request }, HsmCall::GetSlot { slot_id })
}

fn start_operation<'a, Q, T>(slot_id: usize, key_id: Option<&'a [u8]>, request: Q) -> (step:
    OperationStep<'a, Q, T>)
    ensures
        step == operation_start::<Q, T>(slot_id, key_id, request),
{
    Step::Call(Operation::GettingSlot { key_id, request }, HsmCall::GetSlot { slot_id })
}

impl<'a, Q> Operation<'a, Q> {
    /// Whether a reply is one to the call that was made last.
    pub open spec fn expects<T>(self, reply: HsmReply<InterfaceResult<T>>) -> bool {
        match self {
            Operation::GettingSlot { .. } => reply is Slot,
            Operation::OpeningSession { .. } => reply is Session,
            Operation::FindingKey { .. } => reply is Handle,
            Operation::Performing => reply is Performed,
        }
    }

    /// What follows a reply.
    pub open spec fn next<T>(self, reply: HsmReply<InterfaceResult<T>>) -> OperationStep<'a, Q, T> {
        match self {
            Operation::GettingSlot { key_id, request } => match reply->Slot_0 {
                Ok(_) => Step::Call(
                    Operation::OpeningSession { key_id, request },
                    HsmCall::OpenSession { read_write: true },
                ),
                Err(e) => Step::Finish(Err(e)),
            },
            Operation::OpeningSession { key_id, request } => match reply->Session_0 {
                Ok(_) => match key_id {
                    Some(id) => Step::Call(
                        Operation::FindingKey { request },
                        HsmCall::GetObjectHandle { id },
                    ),
                    None => Step::Call(
                        Operation::Performing,
                        HsmCall::Perform(Request { handle: None, request }),
                    ),
                },
                Err(e) => Step::Finish(Err(e)),
            },
            Operation::FindingKey { request } => match reply->Handle_0 {
                Ok(handle) => Step::Call(
                    Operation::Performing,
                    HsmCall::Perform(Request { handle: Some(handle), request }),
                ),
                Err(e) => Step::Finish(Err(e)),
            },
            Operation::Performing => Step::Finish(reply->Performed_0),
        }
    }

    /// Tells whether a reply is one to the call that was made last.
    pub fn accepts<T>(&self, reply: &HsmReply<InterfaceResult<T>>) -> (accepted: bool)
        ensures
            accepted == self.expects(*reply),
    {
        match (self, reply) {
            (Operation::GettingSlot { .. }, HsmReply::Slot(_)) => true,
            (Operation::OpeningSession { .. }, HsmReply::Session(_)) => true,
            (Operation::FindingKey { .. }, HsmReply::Handle(_)) => true,
            (Operation::Performing, HsmReply::Performed(_)) => true,
            _ => false,
        }
    }

    /// Goes on with the reply to the call that was made last.
    pub fn resume<T>(self, reply: HsmReply<InterfaceResult<T>>) -> (step: OperationStep<'a, Q, T>)
        requires
            self.expects(reply),
        ensures
            step == self.next(reply),
    {
        match (self, reply) {
            (Operation::GettingSlot { key_id, request }, HsmReply::Slot(result)) => match result {
                Ok(()) => Step::Call(
                    Operation::OpeningSession { key_id, request },
                    HsmCall::OpenSession { read_write: true },
                ),
                Err(e) => Step::Finish(Err(e)),
            },
            (Operation::OpeningSession { key_id, request }, HsmReply::Session(result)) => {
                match result {
                    Ok(_) => match key_id {
                        Some(id) => Step::Call(
                            Operation::FindingKey { request },
                            HsmCall::GetObjectHandle { id },
                        ),
                        None => Step::Call(
                            Operation::Performing,
                            HsmCall::Perform(Request { handle: None, request }),
                        ),
                    },
                    Err(e) => Step::Finish(Err(e)),
                }
            },
            (Operation::FindingKey { request }, HsmReply::Handle(result)) => match result {
                Ok(handle) => Step::Call(
                    Operation::Performing,
                    HsmCall::Perform(Request { handle: Some(handle), request }),
                ),
                Err(e) => Step::Finish(Err(e)),
            },
            (Operation::Performing, HsmReply::Performed(result)) => Step::Finish(result),
            _ => vstd::pervasive::unreached(),
        }
    }
}

impl BaseHsm {
    /// Exports an object, if it can be. `O` is the type of what is exported.
    pub fn export<'a, O>(&self, slot_id: usize, object_id: &'a [u8]) -> (step: OperationStep<
        'a,
        ExportKey,
        Option<O>,
    >)
        ensures
            step == operation_start::<ExportKey, Option<O>>(slot_id, Some(object_id), ExportKey),
    {
        start_operation(slot_id, Some(object_id), ExportKey)
    }

    /// Encrypts data with a key.
    pub fn encrypt<'a>(
        &self,
        slot_id: usize,
        key_id: &'a [u8],
        algorithm: CryptoAlgorithm,
        data: &'a [u8],
        authenticated_encryption_additional_data: &'a [u8],
    ) -> (step: OperationStep<'a, EncryptWithAad<'a>, EncryptedContent>)
        ensures
            step == operation_start::<EncryptWithAad, EncryptedContent>(
                slot_id,
                Some(key_id),
                EncryptWithAad {
                    algorithm,
                    data,
                    additional_data: authenticated_encryption_additional_data,
                },
            ),
    {
        start_operation(
            slot_id,
            Some(key_id),
            EncryptWithAad {
                algorithm,
                data,
                additional_data: authenticated_encryption_additional_data,
            },
        )
    }

    /// Encrypts each request of a batch. The outputs are in the order of the requests.
    pub fn encrypt_batch<'a>(&self, requests: &'a [HsmEncryptBatchRequest]) -> (step: BatchStep<
        'a,
        EncryptedContent,
    >)
        ensures
            step@ == segment_start(
                requests,
                Direction::Encrypt,
                0,
                Seq::<EncryptedContent>::empty(),
            ),
            step matches Step::Call(run, _) ==> run@.valid(),
    {
        BatchRun::start(requests, Direction::Encrypt)
    }

    /// Decrypts data with a key.
    pub fn decrypt<'a>(
        &self,
        slot_id: usize,
        key_id: &'a [u8],
        algorithm: CryptoAlgorithm,
        data: &'a [u8],
        authenticated_encryption_additional_data: &'a [u8],
    ) -> (step: OperationStep<'a, DecryptWithAad<'a>, SecretBytes>)
        ensures
            step == operation_start::<DecryptWithAad, SecretBytes>(
                slot_id,
                Some(key_id),
                DecryptWithAad {
                    algorithm,
                    data,
                    additional_data: authenticated_encryption_additional_data,
                },
            ),
    {
        start_operation(
            slot_id,
            Some(key_id),
            DecryptWithAad {
                algorithm,
                data,
                additional_data: authenticated_encryption_additional_data,
            },
        )
    }

    /// Decrypts each request of a batch. The outputs are in the order of the requests.
    pub fn decrypt_batch<'a>(&self, requests: &'a [HsmDecryptBatchRequest]) -> (step: BatchStep<
        'a,
        SecretBytes,
    >)
        ensures
            step@ == segment_start(requests, Direction::Decrypt, 0, Seq::<SecretBytes>::empty()),
            step matches Step::Call(run, _) ==> run@.valid(),
    {
        BatchRun::start(requests, Direction::Decrypt)
    }

    /// Signs data with a key.
    pub fn sign<'a, S>(
        &self,
        slot_id: usize,
        key_id: &'a [u8],
        algorithm: S,
        data: &'a [u8],
    ) -> (step: OperationStep<'a, Sign<'a, S>, Vec<u8>>)
        ensures
            step == operation_start::<Sign<S>, Vec<u8>>(
                slot_id,
                Some(key_id),
                Sign { algorithm, data },
            ),
    {
        start_operation(slot_id, Some(key_id), Sign { algorithm, data })
    }

    /// Verifies a signature of data with a key.
    pub fn signature_verify<'a, S>(
        &self,
        slot_id: usize,
        key_id: &'a [u8],
        algorithm: S,
        data: &'a [u8],
        signature: &'a [u8],
    ) -> (step: OperationStep<'a, SignatureVerify<'a, S>, bool>)
        ensures
            step == operation_start::<SignatureVerify<S>, bool>(
                slot_id,
                Some(key_id),
                SignatureVerify { algorithm, data, signature },
            ),
    {
        start_operation(slot_id, Some(key_id), SignatureVerify { algorithm, data, signature })
    }

    /// Tells the type of a key, if it has one that is known. `K` is the type of what is told.
    pub fn get_key_type<'a, K>(&self, slot_id: usize, key_id: &'a [u8]) -> (step: OperationStep<
        'a,
        GetKeyType,
        Option<K>,
    >)
        ensures
            step == operation_start::<GetKeyType, Option<K>>(slot_id, Some(key_id), GetKeyType),
    {
        start_operation(slot_id, Some(key_id), GetKeyType)
    }

    /// Tells what is known of a key, if anything is. `K` is the type of what is told.
    pub fn get_key_metadata<'a, K>(&self, slot_id: usize, key_id: &'a [u8]) -> (step: OperationStep<
        'a,
        GetKeyMetadata,
        Option<K>,
    >)
        ensures
            step == operation_start::<GetKeyMetadata, Option<K>>(
                slot_id,
                Some(key_id),
                GetKeyMetadata,
            ),
    {
        start_operation(slot_id, Some(key_id), GetKeyMetadata)
    }

    /// Generates `len` random bytes.
    pub fn generate_random<'a>(&self, slot_id: usize, len: usize) -> (step: OperationStep<
        'a,
        GenerateRandom,
        Vec<u8>,
    >)
        ensures
            step == operation_start::<GenerateRandom, Vec<u8>>(
                slot_id,
                None,
                GenerateRandom { len },
            ),
    {
        start_operation(slot_id, None, GenerateRandom { len })
    }

    /// Seeds the generator of random bytes.
    pub fn seed_random<'a>(&self, slot_id: usize, seed: &'a [u8]) -> (step: OperationStep<
        'a,
        SeedRandom<'a>,
        (),
    >)
        ensures
            step == operation_start::<SeedRandom, ()>(slot_id, None, SeedRandom { seed }),
    {
        start_operation(slot_id, None, SeedRandom { seed })
    }
}

} // verus!
