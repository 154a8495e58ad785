//! Generation of a post-quantum key pair.

use pkcs11_sys::CK_BBOOL;
use pkcs11_sys::CK_OBJECT_HANDLE;
use vstd::prelude::*;

use super::hsm_call;
use super::outcome;
use super::pqc::PqcKeypairAlgorithm;
use super::Session;
use crate::cryptoki::Attribute;
use crate::cryptoki::AttributeValue;
use crate::cryptoki::KeyPairHandles;
use crate::cryptoki::SessionCall;
use crate::cryptoki::SessionCallExec;
use crate::cryptoki::SessionCallView;
use crate::cryptoki::SessionReply;
use crate::cryptoki::SessionReplyExec;
use crate::cryptoki::SessionReplyView;
use crate::cryptoki::CKA_EXTRACTABLE;
use crate::cryptoki::CKA_ID;
use crate::cryptoki::CKA_KEY_TYPE;
use crate::cryptoki::CKA_LABEL;
use crate::cryptoki::CKA_PRIVATE;
use crate::cryptoki::CKA_SENSITIVE;
use crate::cryptoki::CKA_SIGN;
use crate::cryptoki::CKA_TOKEN;
use crate::cryptoki::CKA_UNWRAP;
use crate::cryptoki::CKA_VERIFY;
use crate::cryptoki::CKA_WRAP;
use crate::cryptoki::CK_FALSE;
use crate::cryptoki::CK_TRUE;
use crate::error::Function;
use crate::error::HResult;
use crate::error::HResultView;
use crate::step::Step;

verus! {

/// A flag as PKCS#11 writes it.
pub open spec fn flag(set: bool) -> CK_BBOOL {
    if set {
        CK_TRUE
    } else {
        CK_FALSE
    }
}

/// What the public key must have: it is kept on the token and is not private, its label and its
/// identifier are `pk_id`, and it wraps (ML-KEM) or verifies (ML-DSA).
pub open spec fn public_key_attributes<'a>(
    algorithm: PqcKeypairAlgorithm,
    pk_id: &'a [u8],
) -> Seq<Attribute<'a>> {
    seq![
        Attribute {
            type_: CKA_KEY_TYPE,
            value: AttributeValue::Ulong(algorithm.type_of_keys()),
        },
        Attribute { type_: CKA_TOKEN, value: AttributeValue::Bool(CK_TRUE) },
        Attribute { type_: CKA_PRIVATE, value: AttributeValue::Bool(CK_FALSE) },
        Attribute { type_: CKA_LABEL, value: AttributeValue::Bytes(pk_id) },
        Attribute { type_: CKA_ID, value: AttributeValue::Bytes(pk_id) },
        Attribute {
            type_: algorithm.parameter_attribute(),
            value: AttributeValue::Ulong(algorithm.set_number()),
        },
        Attribute {
            type_: if algorithm.kem() {
                CKA_WRAP
            } else {
                CKA_VERIFY
            },
            value: AttributeValue::Bool(CK_TRUE),
        },
    ]
}

/// What the private key must have: it is kept on the token and is private, its label and its
/// identifier are `sk_id`, it can be extracted exactly where it is not sensitive, and it unwraps
/// (ML-KEM) or signs (ML-DSA).
pub open spec fn private_key_attributes<'a>(
    algorithm: PqcKeypairAlgorithm,
    sk_id: &'a [u8],
    sensitive: bool,
) -> Seq<Attribute<'a>> {
    seq![
        Attribute {
            type_: CKA_KEY_TYPE,
            value: AttributeValue::Ulong(algorithm.type_of_keys()),
        },
        Attribute { type_: CKA_TOKEN, value: AttributeValue::Bool(CK_TRUE) },
        Attribute { type_: CKA_PRIVATE, value: AttributeValue::Bool(CK_TRUE) },
        Attribute { type_: CKA_LABEL, value: AttributeValue::Bytes(sk_id) },
        Attribute { type_: CKA_ID, value: AttributeValue::Bytes(sk_id) },
        Attribute { type_: CKA_SENSITIVE, value: AttributeValue::Bool(flag(sensitive)) },
        Attribute { type_: CKA_EXTRACTABLE, value: AttributeValue::Bool(flag(!sensitive)) },
        Attribute {
            type_: algorithm.parameter_attribute(),
            value: AttributeValue::Ulong(algorithm.set_number()),
        },
        Attribute {
            type_: if algorithm.kem() {
                CKA_UNWRAP
            } else {
                CKA_SIGN
            },
            value: AttributeValue::Bool(CK_TRUE),
        },
    ]
}

/// A key pair that is being generated.
#[derive(Debug, Clone, Copy)]
pub enum KeyPairGeneration<'a> {
    /// The key pair is being generated.
    Generating { sk_id: &'a [u8], pk_id: &'a [u8] },
    /// The handle of the private key is being cached.
    CachingPrivateKey { pk_id: &'a [u8], handles: KeyPairHandles },
    /// The handle of the public key is being cached.
    CachingPublicKey { handles: KeyPairHandles },
}

/// The handle of the private key, then that of the public key.
pub type KeyPair = (CK_OBJECT_HANDLE, CK_OBJECT_HANDLE);

impl<'a> View for KeyPairGeneration<'a> {
    type V = KeyPairGeneration<'a>;

    open spec fn view(&self) -> Self::V {
        *self
    }
}

/// How the generation of a key pair begins.
pub open spec fn generation_start<'a>(
    session: Session,
    sk_id: &'a [u8],
    pk_id: &'a [u8],
    algorithm: PqcKeypairAlgorithm,
    sensitive: bool,
) -> Step<KeyPairGeneration<'a>, SessionCallView<'a>, HResultView<KeyPair>> {
    Step::Call(
        KeyPairGeneration::Generating { sk_id, pk_id },
        SessionCall::GenerateKeyPair {
            session: session.handle(),
            mechanism: algorithm.generation_mechanism(),
            public_template: public_key_attributes(algorithm, pk_id),
            private_template: private_key_attributes(algorithm, sk_id, sensitive),
        },
    )
}

impl<'a> KeyPairGeneration<'a> {
    /// Whether a reply is one to the call that was made last.
    pub open spec fn expects(self, reply: SessionReplyView) -> bool {
        match self {
            KeyPairGeneration::Generating { .. } => reply is KeyPair,
            _ => reply is Done,
        }
    }

    /// What follows a reply.
    pub open spec fn next(self, reply: SessionReplyView) -> Step<
        KeyPairGeneration<'a>,
        SessionCallView<'a>,
        HResultView<KeyPair>,
    > {
        match self {
            KeyPairGeneration::Generating { sk_id, pk_id } => match outcome(
                Function::GenerateKeyPair,
                reply->KeyPair_0,
            ) {
                Ok(handles) => Step::Call(
                    KeyPairGeneration::CachingPrivateKey { pk_id, handles },
                    SessionCall::CacheObjectHandle { id: sk_id, handle: handles.private_key },
                ),
                Err(e) => Step::Finish(Err(e)),
            },
            KeyPairGeneration::CachingPrivateKey { pk_id, handles } => match reply->Done_0 {
                Ok(_) => Step::Call(
                    KeyPairGeneration::CachingPublicKey { handles },
                    SessionCall::CacheObjectHandle { id: pk_id, handle: handles.public_key },
                ),
                Err(e) => Step::Finish(Err(e@)),
            },
            KeyPairGeneration::CachingPublicKey { handles } => match reply->Done_0 {
                Ok(_) => Step::Finish(Ok((handles.private_key, handles.public_key))),
                Err(e) => Step::Finish(Err(e@)),
            },
        }
    }

    /// Tells whether a reply is one to the call that was made last.
    pub fn accepts(&self, reply: &SessionReplyExec) -> (accepted: bool)
        ensures
            accepted == self.expects(reply@),
    {
        match (self, reply) {
            (KeyPairGeneration::Generating { .. }, SessionReply::KeyPair(_)) => true,
            (KeyPairGeneration::CachingPrivateKey { .. }, SessionReply::Done(_)) => true,
            (KeyPairGeneration::CachingPublicKey { .. }, SessionReply::Done(_)) => true,
            _ => false,
        }
    }

    /// Goes on with the reply to the call that was made last.
    ///
    /// Once the key pair is generated, the handle of the private key is cached, then that of the
    /// public key. The first call that fails ends the operation.
    pub fn resume(self, reply: SessionReplyExec) -> (step: Step<
        KeyPairGeneration<'a>,
        SessionCallExec<'a>,
        HResult<KeyPair>,
    >)
        requires
            self.expects(reply@),
        ensures
            step@ == self.next(reply@),
    {
        match (self, reply) {
            (KeyPairGeneration::Generating { sk_id, pk_id }, SessionReply::KeyPair(called)) => {
                match hsm_call(Function::GenerateKeyPair, called) {
                    Ok(handles) => Step::Call(
                        KeyPairGeneration::CachingPrivateKey { pk_id, handles },
                        SessionCall::CacheObjectHandle { id: sk_id, handle: handles.private_key },
                    ),
                    Err(e) => Step::Finish(Err(e)),
                }
            },
            (
                KeyPairGeneration::CachingPrivateKey { pk_id, handles },
                SessionReply::Done(result),
            ) => match result {
                Ok(()) => Step::Call(
                    KeyPairGeneration::CachingPublicKey { handles },
                    SessionCall::CacheObjectHandle { id: pk_id, handle: handles.public_key },
                ),
                Err(e) => Step::Finish(Err(e)),
            },
            (KeyPairGeneration::CachingPublicKey { handles }, SessionReply::Done(result)) => {
                match result {
                    Ok(()) => Step::Finish(Ok((handles.private_key, handles.public_key))),
                    Err(e) => Step::Finish(Err(e)),
                }
            },
            _ => vstd::pervasive::unreached(),
        }
    }
}

impl Session {
    /// Generates a post-quantum key pair on the token, under the identifiers `sk_id` and `pk_id`.
    ///
    /// The result is the handle of the private key, then that of the public key.
    pub fn generate_pqc_key_pair<'a>(
        &self,
        sk_id: &'a [u8],
        pk_id: &'a [u8],
        algorithm: PqcKeypairAlgorithm,
        sensitive: bool,
    ) -> (step: Step<KeyPairGeneration<'a>, SessionCallExec<'a>, HResult<KeyPair>>)
        ensures
            step@ == generation_start(*self, sk_id, pk_id, algorithm, sensitive),
    {
        let key_type = algorithm.key_type();
        let parameter_set = algorithm.parameter_set();
        let sensitive_flag: CK_BBOOL = if sensitive {
            CK_TRUE
        } else {
            CK_FALSE
        };
        let extractable_flag: CK_BBOOL = if sensitive_flag == CK_TRUE {
            CK_FALSE
        } else {
            CK_TRUE
        };

        let mut public_template: Vec<Attribute<'a>> = vec![
            Attribute { type_: CKA_KEY_TYPE, value: AttributeValue::Ulong(key_type) },
            Attribute { type_: CKA_TOKEN, value: AttributeValue::Bool(CK_TRUE) },
            Attribute { type_: CKA_PRIVATE, value: AttributeValue::Bool(CK_FALSE) },
            Attribute { type_: CKA_LABEL, value: AttributeValue::Bytes(pk_id) },
            Attribute { type_: CKA_ID, value: AttributeValue::Bytes(pk_id) },
            Attribute {
                type_: algorithm.param_attr(),
                value: AttributeValue::Ulong(parameter_set),
            },
        ];
        if algorithm.is_mlkem() {
            public_template.push(
                Attribute { type_: CKA_WRAP, value: AttributeValue::Bool(CK_TRUE) },
            );
        } else {
            public_template.push(
                Attribute { type_: CKA_VERIFY, value: AttributeValue::Bool(CK_TRUE) },
            );
        }

        let mut private_template: Vec<Attribute<'a>> = vec![
            Attribute { type_: CKA_KEY_TYPE, value: AttributeValue::Ulong(key_type) },
            Attribute { type_: CKA_TOKEN, value: AttributeValue::Bool(CK_TRUE) },
            Attribute { type_: CKA_PRIVATE, value: AttributeValue::Bool(CK_TRUE) },
            Attribute { type_: CKA_LABEL, value: AttributeValue::Bytes(sk_id) },
            Attribute { type_: CKA_ID, value: AttributeValue::Bytes(sk_id) },
            Attribute { type_: CKA_SENSITIVE, value: AttributeValue::Bool(sensitive_flag) },
            Attribute { type_: CKA_EXTRACTABLE, value: AttributeValue::Bool(extractable_flag) },
            Attribute {
                type_: algorithm.param_attr(),
                value: AttributeValue::Ulong(parameter_set),
            },
        ];
        if algorithm.is_mlkem() {
            private_template.push(
                Attribute { type_: CKA_UNWRAP, value: AttributeValue::Bool(CK_TRUE) },
            );
        } else {
            private_template.push(
                Attribute { type_: CKA_SIGN, value: AttributeValue::Bool(CK_TRUE) },
            );
        }

        assert(public_template@ =~= public_key_attributes(algorithm, pk_id));
        assert(private_template@ =~= private_key_attributes(algorithm, sk_id, sensitive));
        Step::Call(
            KeyPairGeneration::Generating { sk_id, pk_id },
            SessionCall::GenerateKeyPair {
                session: self.session_handle(),
                mechanism: algorithm.mechanism(),
                public_template,
                private_template,
            },
        )
    }
}

} // verus!
