//! Creation of keys and key pairs.
//!
//! An identifier that is taken is refused before anything else is looked at, and a length that no
//! key has is refused before anything is generated.

use pkcs11_sys::CK_OBJECT_HANDLE;
use vstd::prelude::*;

use super::BaseHsm;
use super::HsmCall;
use super::HsmReply;
use crate::cryptoki::SessionCallExec;
use crate::cryptoki::SessionCallView;
use crate::cryptoki::SessionReplyExec;
use crate::cryptoki::SessionReplyView;
use crate::error::invalid_aes_key_length_text;
use crate::error::invalid_rsa_key_length_text;
use crate::error::private_key_exists_text;
use crate::error::public_key_exists_text;
use crate::error::secret_key_exists_text;
use crate::error::viewed;
use crate::error::HResult;
use crate::error::HResultView;
use crate::error::InterfaceError;
use crate::error::InterfaceErrorView;
use crate::error::InterfaceResult;
use crate::error::InterfaceResultView;
use crate::session::keypair::generation_start;
use crate::session::keypair::KeyPair;
use crate::session::keypair::KeyPairGeneration;
use crate::session::pqc::PqcKeypairAlgorithm;
use crate::session::Session;
use crate::step::Step;

verus! {

/// An algorithm of a secret key.
#[derive(Debug, Clone, Copy, PartialEq, Eq, Structural)]
pub enum HsmKeyAlgorithm {
    AES,
}

/// An algorithm of a key pair.
#[derive(Debug, Clone, Copy, PartialEq, Eq, Structural)]
pub enum HsmKeypairAlgorithm {
    RSA,
    MlKem512,
    MlKem768,
    MlKem1024,
    MlDsa44,
    MlDsa65,
    MlDsa87,
}

/// The size of an AES key.
#[derive(Debug, Clone, Copy, PartialEq, Eq, Structural)]
pub enum AesKeySize {
    Aes128,
    Aes256,
}

/// The size of an RSA key.
#[derive(Debug, Clone, Copy, PartialEq, Eq, Structural)]
pub enum RsaKeySize {
    Rsa1024,
    Rsa2048,
    Rsa3072,
    Rsa4096,
}

/// The size of the AES keys of this length, if there are any.
pub open spec fn aes_key_size(bits: usize) -> Option<AesKeySize> {
    if bits == 128 {
        Some(AesKeySize::Aes128)
    } else if bits == 256 {
        Some(AesKeySize::Aes256)
    } else {
        None
    }
}

/// The size of the RSA keys of this length, if there are any.
pub open spec fn rsa_key_size(bits: usize) -> Option<RsaKeySize> {
    if bits == 1024 {
        Some(RsaKeySize::Rsa1024)
    } else if bits == 2048 {
        Some(RsaKeySize::Rsa2048)
    } else if bits == 3072 {
        Some(RsaKeySize::Rsa3072)
    } else if bits == 4096 {
        Some(RsaKeySize::Rsa4096)
    } else {
        None
    }
}

impl AesKeySize {
    /// The size of the keys of this length.
    pub fn from_bits(bits: usize) -> (size: InterfaceResult<AesKeySize>)
        ensures
            viewed(size) == match aes_key_size(bits) {
                Some(size) => Ok::<AesKeySize, InterfaceErrorView>(size),
                None => Err::<AesKeySize, InterfaceErrorView>(
                    InterfaceError::Default(invalid_aes_key_length_text(bits)),
                ),
            },
    {
        match bits {
            128 => Ok(AesKeySize::Aes128),
            256 => Ok(AesKeySize::Aes256),
            x => Err(InterfaceError::invalid_aes_key_length(x)),
        }
    }
}

impl RsaKeySize {
    /// The size of the keys of this length.
    pub fn from_bits(bits: usize) -> (size: InterfaceResult<RsaKeySize>)
        ensures
            viewed(size) == match rsa_key_size(bits) {
                Some(size) => Ok::<RsaKeySize, InterfaceErrorView>(size),
                None => Err::<RsaKeySize, InterfaceErrorView>(
                    InterfaceError::Default(invalid_rsa_key_length_text(bits)),
                ),
            },
    {
        match bits {
            1024 => Ok(RsaKeySize::Rsa1024),
            2048 => Ok(RsaKeySize::Rsa2048),
            3072 => Ok(RsaKeySize::Rsa3072),
            4096 => Ok(RsaKeySize::Rsa4096),
            x => Err(InterfaceError::invalid_rsa_key_length(x)),
        }
    }
}

/// A request to create a secret key.
#[derive(Debug, Clone, Copy)]
pub struct KeyRequest<'a> {
    pub id: &'a [u8],
    pub algorithm: HsmKeyAlgorithm,
    pub key_length_in_bits: usize,
    pub sensitive: bool,
}

/// Generate an AES key.
#[derive(Debug, Clone, Copy)]
pub struct GenerateAesKey<'a> {
    pub id: &'a [u8],
    pub size: AesKeySize,
    pub sensitive: bool,
}

/// A secret key that is being created.
#[derive(Debug, Clone, Copy)]
pub enum KeyCreation<'a> {
    /// The slot is being got.
    GettingSlot(KeyRequest<'a>),
    /// The session is being opened.
    OpeningSession(KeyRequest<'a>),
    /// An object with the identifier is being looked up.
    Checking(KeyRequest<'a>),
    /// The key is being generated.
    Generating,
}

impl<'a> View for GenerateAesKey<'a> {
    type V = GenerateAesKey<'a>;

    open spec fn view(&self) -> Self::V {
        *self
    }
}

impl<'a> View for KeyCreation<'a> {
    type V = KeyCreation<'a>;

    open spec fn view(&self) -> Self::V {
        *self
    }
}

/// The next step of the creation of a secret key.
pub type KeyCreationStep<'a> = Step<
    KeyCreation<'a>,
    HsmCall<'a, GenerateAesKey<'a>>,
    InterfaceResult<()>,
>;

/// The next step of the creation of a secret key, as contracts speak of it.
pub type KeyCreationStepView<'a> = Step<
    KeyCreation<'a>,
    HsmCall<'a, GenerateAesKey<'a>>,
    InterfaceResultView<()>,
>;

/// The reply to a call of the creation of a secret key.
pub type KeyCreationReply = HsmReply<InterfaceResult<CK_OBJECT_HANDLE>>;

/// How the creation of a secret key begins.
pub open spec fn key_creation_start<'a>(
    slot_id: usize,
    request: KeyRequest<'a>,
) -> KeyCreationStepView<'a> {
    Step::Call(KeyCreation::GettingSlot(request), HsmCall::GetSlot { slot_id })
}

impl<'a> KeyRequest<'a> {
    /// What follows once the identifier is known to be free.
    pub open spec fn generation(self) -> KeyCreationStepView<'a> {
        match self.algorithm {
            HsmKeyAlgorithm::AES => match aes_key_size(self.key_length_in_bits) {
                Some(size) => Step::Call(
                    KeyCreation::Generating,
                    HsmCall::Perform(
                        GenerateAesKey { id: self.id, size, sensitive: self.sensitive },
                    ),
                ),
                None => Step::Finish(
                    Err(
                        InterfaceError::Default(
                            invalid_aes_key_length_text(self.key_length_in_bits),
                        ),
                    ),
                ),
            },
        }
    }

    fn generate(self) -> (step: KeyCreationStep<'a>)
        ensures
            step@ == self.generation(),
    {
        match self.algorithm {
            HsmKeyAlgorithm::AES => match AesKeySize::from_bits(self.key_length_in_bits) {
                Ok(size) => Step::Call(
                    KeyCreation::Generating,
                    HsmCall::Perform(
                        GenerateAesKey { id: self.id, size, sensitive: self.sensitive },
                    ),
                ),
                Err(e) => Step::Finish(Err(e)),
            },
        }
    }
}

impl<'a> KeyCreation<'a> {
    /// Whether a reply is one to the call that was made last.
    pub open spec fn expects(self, reply: KeyCreationReply) -> bool {
        match self {
            KeyCreation::GettingSlot(_) => reply is Slot,
            KeyCreation::OpeningSession(_) => reply is Session,
            KeyCreation::Checking(_) => reply is Handle,
            KeyCreation::Generating => reply is Performed,
        }
    }

    /// What follows a reply.
    pub open spec fn next(self, reply: KeyCreationReply) -> KeyCreationStepView<'a> {
        match self {
            KeyCreation::GettingSlot(request) => match reply->Slot_0 {
                Ok(_) => Step::Call(
                    KeyCreation::OpeningSession(request),
                    HsmCall::OpenSession { read_write: true },
                ),
                Err(e) => Step::Finish(Err(e@)),
            },
            KeyCreation::OpeningSession(request) => match reply->Session_0 {
                Ok(_) => Step::Call(
                    KeyCreation::Checking(request),
                    HsmCall::GetObjectHandle { id: request.id },
                ),
                Err(e) => Step::Finish(Err(e@)),
            },
            KeyCreation::Checking(request) => match reply->Handle_0 {
                Ok(_) => Step::Finish(Err(InterfaceError::Default(secret_key_exists_text()))),
                Err(_) => request.generation(),
            },
            KeyCreation::Generating => match reply->Performed_0 {
                Ok(_) => Step::Finish(Ok(())),
                Err(e) => Step::Finish(Err(e@)),
            },
        }
    }

    /// Tells whether a reply is one to the call that was made last.
    pub fn accepts(&self, reply: &KeyCreationReply) -> (accepted: bool)
        ensures
            accepted == self.expects(*reply),
    {
        match (self, reply) {
            (KeyCreation::GettingSlot(_), HsmReply::Slot(_)) => true,
            (KeyCreation::OpeningSession(_), HsmReply::Session(_)) => true,
            (KeyCreation::Checking(_), HsmReply::Handle(_)) => true,
            (KeyCreation::Generating, HsmReply::Performed(_)) => true,
            _ => false,
        }
    }

    /// Goes on with the reply to the call that was made last.
    pub fn resume(self, reply: KeyCreationReply) -> (step: KeyCreationStep<'a>)
        requires
            self.expects(reply),
        ensures
            step@ == self.next(reply),
    {
        match (self, reply) {
            (KeyCreation::GettingSlot(request), HsmReply::Slot(result)) => match result {
                Ok(()) => Step::Call(
                    KeyCreation::OpeningSession(request),
                    HsmCall::OpenSession { read_write: true },
                ),
                Err(e) => Step::Finish(Err(e)),
            },
            (KeyCreation::OpeningSession(request), HsmReply::Session(result)) => match result {
                Ok(_) => Step::Call(
                    KeyCreation::Checking(request),
                    HsmCall::GetObjectHandle { id: request.id },
                ),
                Err(e) => Step::Finish(Err(e)),
            },
            (KeyCreation::Checking(request), HsmReply::Handle(result)) => match result {
                Ok(_) => Step::Finish(Err(InterfaceError::secret_key_exists())),
                Err(_) => request.generate(),
            },
            (KeyCreation::Generating, HsmReply::Performed(result)) => match result {
                Ok(_) => Step::Finish(Ok(())),
                Err(e) => Step::Finish(Err(e)),
            },
            _ => vstd::pervasive::unreached(),
        }
    }
}

/// A request to create a key pair.
#[derive(Debug, Clone, Copy)]
pub struct KeyPairRequest<'a> {
    pub sk_id: &'a [u8],
    pub pk_id: &'a [u8],
    pub algorithm: HsmKeypairAlgorithm,
    pub key_length_in_bits: usize,
    pub sensitive: bool,
}

/// What is asked of a session to generate a key pair. `C` is a call of the session.
#[derive(Debug)]
pub enum KeyPairCall<'a, C> {
    /// Generate an RSA key pair.
    GenerateRsa { sk_id: &'a [u8], pk_id: &'a [u8], size: RsaKeySize, sensitive: bool },
    /// A call of the generation of a post-quantum key pair.
    Pqc(C),
}

impl<'a, C: View> View for KeyPairCall<'a, C> {
    type V = KeyPairCall<'a, C::V>;

    open spec fn view(&self) -> Self::V {
        match *self {
            KeyPairCall::GenerateRsa { sk_id, pk_id, size, sensitive } => KeyPairCall::GenerateRsa {
                sk_id,
                pk_id,
                size,
                sensitive,
            },
            KeyPairCall::Pqc(call) => KeyPairCall::Pqc(call@),
        }
    }
}

/// The reply to a [`KeyPairCall`]. `R` is a reply of the session.
pub enum KeyPairReply<R> {
    /// The reply to `GenerateRsa`.
    Rsa(InterfaceResult<KeyPair>),
    /// The reply to `Pqc`.
    Pqc(R),
}

impl<R: View> View for KeyPairReply<R> {
    type V = KeyPairReply<R::V>;

    open spec fn view(&self) -> Self::V {
        match *self {
            KeyPairReply::Rsa(result) => KeyPairReply::Rsa(result),
            KeyPairReply::Pqc(reply) => KeyPairReply::Pqc(reply@),
        }
    }
}

/// A key pair that is being created.
#[derive(Debug, Clone, Copy)]
pub enum KeyPairCreation<'a> {
    /// The slot is being got.
    GettingSlot(KeyPairRequest<'a>),
    /// The session is being opened.
    OpeningSession(KeyPairRequest<'a>),
    /// An object with the identifier of the private key is being looked up.
    CheckingPrivateKey(Session, KeyPairRequest<'a>),
    /// An object with the identifier of the public key is being looked up.
    CheckingPublicKey(Session, KeyPairRequest<'a>),
    /// The RSA key pair is being generated.
    GeneratingRsa,
    /// The post-quantum key pair is being generated.
    GeneratingPqc(KeyPairGeneration<'a>),
}

impl<'a> View for KeyPairCreation<'a> {
    type V = KeyPairCreation<'a>;

    open spec fn view(&self) -> Self::V {
        *self
    }
}

/// The next step of the creation of a key pair.
pub type KeyPairCreationStep<'a> = Step<
    KeyPairCreation<'a>,
    HsmCall<'a, KeyPairCall<'a, SessionCallExec<'a>>>,
    InterfaceResult<()>,
>;

/// The next step of the creation of a key pair, as contracts speak of it.
pub type KeyPairCreationStepView<'a> = Step<
    KeyPairCreation<'a>,
    HsmCall<'a, KeyPairCall<'a, SessionCallView<'a>>>,
    InterfaceResultView<()>,
>;

/// The reply to a call of the creation of a key pair.
pub type KeyPairCreationReply = HsmReply<KeyPairReply<SessionReplyExec>>;

/// The reply to a call of the creation of a key pair, as contracts speak of it.
pub type KeyPairCreationReplyView = HsmReply<KeyPairReply<SessionReplyView>>;

impl HsmKeypairAlgorithm {
    /// The post-quantum algorithm that this is, if it is one.
    pub open spec fn post_quantum(self) -> Option<PqcKeypairAlgorithm> {
        match self {
            HsmKeypairAlgorithm::RSA => None,
            HsmKeypairAlgorithm::MlKem512 => Some(PqcKeypairAlgorithm::MlKem512),
            HsmKeypairAlgorithm::MlKem768 => Some(PqcKeypairAlgorithm::MlKem768),
            HsmKeypairAlgorithm::MlKem1024 => Some(PqcKeypairAlgorithm::MlKem1024),
            HsmKeypairAlgorithm::MlDsa44 => Some(PqcKeypairAlgorithm::MlDsa44),
            HsmKeypairAlgorithm::MlDsa65 => Some(PqcKeypairAlgorithm::MlDsa65),
            HsmKeypairAlgorithm::MlDsa87 => Some(PqcKeypairAlgorithm::MlDsa87),
        }
    }

    /// The post-quantum algorithm that this is, if it is one.
    pub fn pqc(self) -> (algorithm: Option<PqcKeypairAlgorithm>)
        ensures
            algorithm == self.post_quantum(),
    {
        match self {
            HsmKeypairAlgorithm::RSA => None,
            HsmKeypairAlgorithm::MlKem512 => Some(PqcKeypairAlgorithm::MlKem512),
            HsmKeypairAlgorithm::MlKem768 => Some(PqcKeypairAlgorithm::MlKem768),
            HsmKeypairAlgorithm::MlKem1024 => Some(PqcKeypairAlgorithm::MlKem1024),
            HsmKeypairAlgorithm::MlDsa44 => Some(PqcKeypairAlgorithm::MlDsa44),
            HsmKeypairAlgorithm::MlDsa65 => Some(PqcKeypairAlgorithm::MlDsa65),
            HsmKeypairAlgorithm::MlDsa87 => Some(PqcKeypairAlgorithm::MlDsa87),
        }
    }
}

/// How the creation of a key pair begins.
pub open spec fn key_pair_creation_start<'a>(
    slot_id: usize,
    request: KeyPairRequest<'a>,
) -> KeyPairCreationStepView<'a> {
    Step::Call(KeyPairCreation::GettingSlot(request), HsmCall::GetSlot { slot_id })
}

/// Goes on with a step of the generation of a post-quantum key pair. The handles of the key pair
/// are dropped.
pub open spec fn pqc_step<'a>(
    step: Step<KeyPairGeneration<'a>, SessionCallView<'a>, HResultView<KeyPair>>,
) -> KeyPairCreationStepView<'a> {
    match step {
        Step::Call(generation, call) => Step::Call(
            KeyPairCreation::GeneratingPqc(generation),
            HsmCall::Perform(KeyPairCall::Pqc(call)),
        ),
        Step::Finish(Ok(_)) => Step::Finish(Ok(())),
        Step::Finish(Err(e)) => Step::Finish(Err(InterfaceError::Session(e))),
    }
}

fn take_pqc_step<'a>(
    step: Step<KeyPairGeneration<'a>, SessionCallExec<'a>, HResult<KeyPair>>,
) -> (next: KeyPairCreationStep<'a>)
    ensures
        next@ == pqc_step(step@),
{
    match step {
        Step::Call(generation, call) => Step::Call(
            KeyPairCreation::GeneratingPqc(generation),
            HsmCall::Perform(KeyPairCall::Pqc(call)),
        ),
        Step::Finish(Ok(_)) => Step::Finish(Ok(())),
        Step::Finish(Err(e)) => Step::Finish(Err(InterfaceError::Session(e))),
    }
}

impl<'a> KeyPairRequest<'a> {
    /// What follows once both identifiers are known to be free. The length counts for RSA only.
    pub open spec fn generation(self, session: Session) -> KeyPairCreationStepView<'a> {
        match self.algorithm.post_quantum() {
            Some(algorithm) => pqc_step(
                generation_start(session, self.sk_id, self.pk_id, algorithm, self.sensitive),
            ),
            None => match rsa_key_size(self.key_length_in_bits) {
                Some(size) => Step::Call(
                    KeyPairCreation::GeneratingRsa,
                    HsmCall::Perform(
                        KeyPairCall::GenerateRsa {
                            sk_id: self.sk_id,
                            pk_id: self.pk_id,
                            size,
                            sensitive: self.sensitive,
                        },
                    ),
                ),
                None => Step::Finish(
                    Err(
                        InterfaceError::Default(
                            invalid_rsa_key_length_text(self.key_length_in_bits),
                        ),
                    ),
                ),
            },
        }
    }

    fn generate(self, session: Session) -> (step: KeyPairCreationStep<'a>)
        ensures
            step@ == self.generation(session),
    {
        match self.algorithm.pqc() {
            Some(algorithm) => take_pqc_step(
                session.generate_pqc_key_pair(self.sk_id, self.pk_id, algorithm, self.sensitive),
            ),
            None => match RsaKeySize::from_bits(self.key_length_in_bits) {
                Ok(size) => Step::Call(
                    KeyPairCreation::GeneratingRsa,
                    HsmCall::Perform(
                        KeyPairCall::GenerateRsa {
                            sk_id: self.sk_id,
                            pk_id: self.pk_id,
                            size,
                            sensitive: self.sensitive,
                        },
                    ),
                ),
                Err(e) => Step::Finish(Err(e)),
            },
        }
    }
}

impl<'a> KeyPairCreation<'a> {
    /// Whether a reply is one to the call that was made last.
    pub open spec fn expects(self, reply: KeyPairCreationReplyView) -> bool {
        match self {
            KeyPairCreation::GettingSlot(_) => reply is Slot,
            KeyPairCreation::OpeningSession(_) => reply is Session,
            KeyPairCreation::CheckingPrivateKey(_, _) => reply is Handle,
            KeyPairCreation::CheckingPublicKey(_, _) => reply is Handle,
            KeyPairCreation::GeneratingRsa => reply matches HsmReply::Performed(r) && r is Rsa,
            KeyPairCreation::GeneratingPqc(generation) => reply matches HsmReply::Performed(r)
                && r matches KeyPairReply::Pqc(r) && generation.expects(r),
        }
    }

    /// What follows a reply.
    pub open spec fn next(self, reply: KeyPairCreationReplyView) -> KeyPairCreationStepView<'a> {
        match self {
            KeyPairCreation::GettingSlot(request) => match reply->Slot_0 {
                Ok(_) => Step::Call(
                    KeyPairCreation::OpeningSession(request),
                    HsmCall::OpenSession { read_write: true },
                ),
                Err(e) => Step::Finish(Err(e@)),
            },
            KeyPairCreation::OpeningSession(request) => match reply->Session_0 {
                Ok(session) => Step::Call(
                    KeyPairCreation::CheckingPrivateKey(session, request),
                    HsmCall::GetObjectHandle { id: request.sk_id },
                ),
                Err(e) => Step::Finish(Err(e@)),
            },
            KeyPairCreation::CheckingPrivateKey(session, request) => match reply->Handle_0 {
                Ok(_) => Step::Finish(Err(InterfaceError::Default(private_key_exists_text()))),
                Err(_) => Step::Call(
                    KeyPairCreation::CheckingPublicKey(session, request),
                    HsmCall::GetObjectHandle { id: request.pk_id },
                ),
            },
            KeyPairCreation::CheckingPublicKey(session, request) => match reply->Handle_0 {
                Ok(_) => Step::Finish(Err(InterfaceError::Default(public_key_exists_text()))),
                Err(_) => request.generation(session),
            },
            KeyPairCreation::GeneratingRsa => match reply->Performed_0->Rsa_0 {
                Ok(_) => Step::Finish(Ok(())),
                Err(e) => Step::Finish(Err(e@)),
            },
            KeyPairCreation::GeneratingPqc(generation) => pqc_step(
                generation.next(reply->Performed_0->Pqc_0),
            ),
        }
    }

    /// Tells whether a reply is one to the call that was made last.
    pub fn accepts(&self, reply: &KeyPairCreationReply) -> (accepted: bool)
        ensures
            accepted == self.expects(reply@),
    {
        match (self, reply) {
            (KeyPairCreation::GettingSlot(_), HsmReply::Slot(_)) => true,
            (KeyPairCreation::OpeningSession(_), HsmReply::Session(_)) => true,
            (KeyPairCreation::CheckingPrivateKey(_, _), HsmReply::Handle(_)) => true,
            (KeyPairCreation::CheckingPublicKey(_, _), HsmReply::Handle(_)) => true,
            (KeyPairCreation::GeneratingRsa, HsmReply::Performed(KeyPairReply::Rsa(_))) => true,
            (
                KeyPairCreation::GeneratingPqc(generation),
                HsmReply::Performed(KeyPairReply::Pqc(reply)),
            ) => generation.accepts(reply),
            _ => false,
        }
    }

    /// Goes on with the reply to the call that was made last.
    pub fn resume(self, reply: KeyPairCreationReply) -> (step: KeyPairCreationStep<'a>)
        requires
            self.expects(reply@),
        ensures
            step@ == self.next(reply@),
    {
        match (self, reply) {
            (KeyPairCreation::GettingSlot(request), HsmReply::Slot(result)) => match result {
                Ok(()) => Step::Call(
                    KeyPairCreation::OpeningSession(request),
                    HsmCall::OpenSession { read_write: true },
                ),
                Err(e) => Step::Finish(Err(e)),
            },
            (KeyPairCreation::OpeningSession(request), HsmReply::Session(result)) => match result {
                Ok(session) => Step::Call(
                    KeyPairCreation::CheckingPrivateKey(session, request),
                    HsmCall::GetObjectHandle { id: request.sk_id },
                ),
                Err(e) => Step::Finish(Err(e)),
            },
            (KeyPairCreation::CheckingPrivateKey(session, request), HsmReply::Handle(result)) => {
                match result {
                    Ok(_) => Step::Finish(Err(InterfaceError::private_key_exists())),
                    Err(_) => Step::Call(
                        KeyPairCreation::CheckingPublicKey(session, request),
                        HsmCall::GetObjectHandle { id: request.pk_id },
                    ),
                }
            },
            (KeyPairCreation::CheckingPublicKey(session, request), HsmReply::Handle(result)) => {
                match result {
                    Ok(_) => Step::Finish(Err(InterfaceError::public_key_exists())),
                    Err(_) => request.generate(session),
                }
            },
            (KeyPairCreation::GeneratingRsa, HsmReply::Performed(KeyPairReply::Rsa(result))) => {
                match result {
                    Ok(_) => Step::Finish(Ok(())),
                    Err(e) => Step::Finish(Err(e)),
                }
            },
            (
                KeyPairCreation::GeneratingPqc(generation),
                HsmReply::Performed(KeyPairReply::Pqc(reply)),
            ) => take_pqc_step(generation.resume(reply)),
            _ => vstd::pervasive::unreached(),
        }
    }
}

impl BaseHsm {
    /// Creates a secret key, under an identifier that is free.
    pub fn create_key<'a>(
        &self,
        slot_id: usize,
        id: &'a [u8],
        algorithm: HsmKeyAlgorithm,
        key_length_in_bits: usize,
        sensitive: bool,
    ) -> (step: KeyCreationStep<'a>)
        ensures
            step@ == key_creation_start(
                slot_id,
                KeyRequest { id, algorithm, key_length_in_bits, sensitive },
            ),
    {
        Step::Call(
            KeyCreation::GettingSlot(KeyRequest { id, algorithm, key_length_in_bits, sensitive }),
            HsmCall::GetSlot { slot_id },
        )
    }

    /// Creates a key pair, under identifiers that are free.
    pub fn create_keypair<'a>(
        &self,
        slot_id: usize,
        sk_id: &'a [u8],
        pk_id: &'a [u8],
        algorithm: HsmKeypairAlgorithm,
        key_length_in_bits: usize,
        sensitive: bool,
    ) -> (step: KeyPairCreationStep<'a>)
        ensures
            step@ == key_pair_creation_start(
                slot_id,
                KeyPairRequest { sk_id, pk_id, algorithm, key_length_in_bits, sensitive },
            ),
    {
        Step::Call(
            KeyPairCreation::GettingSlot(
                KeyPairRequest { sk_id, pk_id, algorithm, key_length_in_bits, sensitive },
            ),
            HsmCall::GetSlot { slot_id },
        )
    }
}

} // verus!
