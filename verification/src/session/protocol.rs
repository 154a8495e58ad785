//! What each operation of a session asks and gives, for every sequence of replies.
//!
//! The laws speak of the replies themselves and of the values that PKCS#11 gives its names.

use pkcs11_sys::CK_OBJECT_HANDLE;
use vstd::prelude::*;

use super::keypair::KeyPair;
use super::keypair::KeyPairGeneration;
use super::laws::decapsulation_calls;
use super::laws::decapsulation_run;
use super::laws::encapsulation_calls;
use super::laws::encapsulation_run;
use super::laws::generation_calls;
use super::laws::generation_run;
use super::laws::reading_run;
use super::laws::verification_run;
use super::mldsa::verdict;
use super::mldsa::verification_start;
use super::mldsa::Verification;
use super::mlkem::found;
use super::mlkem::key_not_found_text;
use super::mlkem::reading_start;
use super::mlkem::secret_attributes;
use super::mlkem::secret_not_found_text;
use super::mlkem::written;
use super::mlkem::Decapsulation;
use super::mlkem::Encapsulation;
use super::mlkem::SecretReading;
use super::outcome;
use super::pqc::PqcKeypairAlgorithm;
use super::Session;
use crate::cryptoki::Attribute;
use crate::cryptoki::AttributeValue;
use crate::cryptoki::Called;
use crate::cryptoki::SessionCall;
use crate::cryptoki::SessionCallView;
use crate::cryptoki::SessionReply;
use crate::cryptoki::SessionReplyView;
use crate::cryptoki::CKA_CLASS;
use crate::cryptoki::CKA_EXTRACTABLE;
use crate::cryptoki::CKA_ID;
use crate::cryptoki::CKA_KEY_TYPE;
use crate::cryptoki::CKA_LABEL;
use crate::cryptoki::CKA_ML_DSA_PARAMS;
use crate::cryptoki::CKA_PARAMETER_SET;
use crate::cryptoki::CKA_PRIVATE;
use crate::cryptoki::CKA_SENSITIVE;
use crate::cryptoki::CKA_SIGN;
use crate::cryptoki::CKA_TOKEN;
use crate::cryptoki::CKA_UNWRAP;
use crate::cryptoki::CKA_VALUE;
use crate::cryptoki::CKA_VALUE_LEN;
use crate::cryptoki::CKA_VERIFY;
use crate::cryptoki::CKA_WRAP;
use crate::cryptoki::CKK_GENERIC_SECRET;
use crate::cryptoki::CKO_SECRET_KEY;
use crate::cryptoki::CK_FALSE;
use crate::cryptoki::CK_TRUE;
use crate::error::Function;
use crate::error::HError;
use crate::error::HErrorView;
use crate::error::HResult;
use crate::step::calls;
use crate::step::run;
use crate::step::Step;
use crate::text::decimal;

verus! {

/// Whether a template has exactly one entry of a type, and it holds this value.
pub open spec fn holds(template: Seq<Attribute>, entry: Attribute) -> bool {
    &&& template.contains(entry)
    &&& forall|i: int, j: int|
        0 <= i < j < template.len() ==> (#[trigger] template[i]).type_ != (
        #[trigger] template[j]).type_
}

/// Whether a template is that of a key which is kept on the token, with this key type and the number
/// of this parameter set, in the attribute of ML-KEM or in that of ML-DSA.
pub open spec fn token_key(template: Seq<Attribute>, key_type: u64, ml_kem: bool, set: u64) -> bool {
    &&& holds(template, Attribute { type_: CKA_TOKEN, value: AttributeValue::Bool(CK_TRUE) })
    &&& holds(
        template,
        Attribute { type_: CKA_KEY_TYPE, value: AttributeValue::Ulong(key_type) },
    )
    &&& holds(
        template,
        Attribute {
            type_: if ml_kem {
                CKA_PARAMETER_SET
            } else {
                CKA_ML_DSA_PARAMS
            },
            value: AttributeValue::Ulong(set),
        },
    )
}

/// The first call of a generation is `C_GenerateKeyPair`, with the mechanism of the algorithm and
/// two templates. For every algorithm, each template holds, once each: the key type and the
/// parameter set of the algorithm; that the key is kept on the token; the key's own identifier, as
/// label and as identifier; that the private key is private and the public key is not; and that the
/// key can be used for what the algorithm is for. The private key is as sensitive as asked for, and
/// can be extracted exactly where it is not. Nothing else is in the templates.
pub proof fn law_key_pair_templates<'a>(
    session: Session,
    sk_id: &'a [u8],
    pk_id: &'a [u8],
    algorithm: PqcKeypairAlgorithm,
    sensitive: bool,
    replies: Seq<SessionReplyView>,
)
    ensures
        ({
            let made = generation_calls(session, sk_id, pk_id, algorithm, sensitive, replies);
            let ml_kem = match algorithm {
                PqcKeypairAlgorithm::MlKem512 => true,
                PqcKeypairAlgorithm::MlKem768 => true,
                PqcKeypairAlgorithm::MlKem1024 => true,
                _ => false,
            };
            let set: u64 = match algorithm {
                PqcKeypairAlgorithm::MlKem512 => 1,
                PqcKeypairAlgorithm::MlKem768 => 2,
                PqcKeypairAlgorithm::MlKem1024 => 3,
                PqcKeypairAlgorithm::MlDsa44 => 1,
                PqcKeypairAlgorithm::MlDsa65 => 2,
                PqcKeypairAlgorithm::MlDsa87 => 3,
            };
            let key_type: u64 = if ml_kem {
                0x49
            } else {
                0x4a
            };
            &&& made.len() >= 1
            &&& made[0] matches SessionCall::GenerateKeyPair {
                session: handle,
                mechanism,
                public_template,
                private_template,
            }
            &&& handle == session.handle()
            &&& mechanism == if ml_kem {
                0x0fu64
            } else {
                0x1cu64
            }
            &&& public_template.len() == 7
            &&& private_template.len() == 9
            &&& token_key(public_template, key_type, ml_kem, set)
            &&& token_key(private_template, key_type, ml_kem, set)
            &&& holds(
                public_template,
                Attribute { type_: CKA_LABEL, value: AttributeValue::Bytes(pk_id) },
            )
            &&& holds(
                public_template,
                Attribute { type_: CKA_ID, value: AttributeValue::Bytes(pk_id) },
            )
            &&& holds(
                public_template,
                Attribute { type_: CKA_PRIVATE, value: AttributeValue::Bool(CK_FALSE) },
            )
            &&& holds(
                public_template,
                Attribute {
                    type_: if ml_kem {
                        CKA_WRAP
                    } else {
                        CKA_VERIFY
                    },
                    value: AttributeValue::Bool(CK_TRUE),
                },
            )
            &&& holds(
                private_template,
                Attribute { type_: CKA_LABEL, value: AttributeValue::Bytes(sk_id) },
            )
            &&& holds(
                private_template,
                Attribute { type_: CKA_ID, value: AttributeValue::Bytes(sk_id) },
            )
            &&& holds(
                private_template,
                Attribute { type_: CKA_PRIVATE, value: AttributeValue::Bool(CK_TRUE) },
            )
            &&& holds(
                private_template,
                Attribute {
                    type_: CKA_SENSITIVE,
                    value: AttributeValue::Bool(
                        if sensitive {
                            CK_TRUE
                        } else {
                            CK_FALSE
                        },
                    ),
                },
            )
            &&& holds(
                private_template,
                Attribute {
                    type_: CKA_EXTRACTABLE,
                    value: AttributeValue::Bool(
                        if sensitive {
                            CK_FALSE
                        } else {
                            CK_TRUE
                        },
                    ),
                },
            )
            &&& holds(
                private_template,
                Attribute {
                    type_: if ml_kem {
                        CKA_UNWRAP
                    } else {
                        CKA_SIGN
                    },
                    value: AttributeValue::Bool(CK_TRUE),
                },
            )
        }),
{
    let made = generation_calls(session, sk_id, pk_id, algorithm, sensitive, replies);
    if let SessionCall::GenerateKeyPair { public_template, private_template, .. } = made[0] {
        assert(forall|i: int| 0 <= i < 7 ==> public_template.contains(public_template[i]));
        assert(forall|i: int| 0 <= i < 9 ==> private_template.contains(private_template[i]));
        let p = (
            public_template[0],
            public_template[1],
            public_template[2],
            public_template[3],
            public_template[4],
            public_template[5],
            public_template[6],
        );
        let s = (
            private_template[0],
            private_template[1],
            private_template[2],
            private_template[3],
            private_template[4],
            private_template[5],
            private_template[6],
            private_template[7],
            private_template[8],
        );
    }
}

/// After the first call, a generation goes on reply by reply. A library without the function, or a
/// code other than zero, ends it with the message of that failure and nothing is remembered. Else
/// the private key is remembered under its own identifier, then the public key under its own; the
/// first of these that fails ends the generation with its error. At the end the handles come out,
/// that of the private key first.
pub proof fn law_generation_protocol<'a>(
    session: Session,
    sk_id: &'a [u8],
    pk_id: &'a [u8],
    algorithm: PqcKeypairAlgorithm,
    sensitive: bool,
    replies: Seq<SessionReplyView>,
)
    requires
        replies.len() >= 3,
    ensures
        ({
            let end = generation_run(session, sk_id, pk_id, algorithm, sensitive, replies);
            let made = generation_calls(session, sk_id, pk_id, algorithm, sensitive, replies);
            match replies[0] {
                SessionReply::KeyPair(Called::NotAvailable) => {
                    &&& end matches Step::Finish(Err(HError::Default(message)))
                    &&& message == "C_GenerateKeyPair"@ + " not available on library"@
                    &&& made.len() == 1
                },
                SessionReply::KeyPair(Called::Returned(rv, handles)) => if rv != 0 {
                    &&& end matches Step::Finish(Err(HError::Default(message)))
                    &&& message == "Failed generating PQC key pair"@ + ". Return code: "@ + decimal(
                        rv as nat,
                    )
                    &&& made.len() == 1
                } else {
                    &&& made[1] == (SessionCallView::CacheObjectHandle {
                        id: sk_id,
                        handle: handles.private_key,
                    })
                    &&& match replies[1] {
                        SessionReply::Done(Err(e)) => {
                            &&& end matches Step::Finish(Err(error)) && error == e@
                            &&& made.len() == 2
                        },
                        SessionReply::Done(Ok(_)) => {
                            &&& made.len() == 3
                            &&& made[2] == (SessionCallView::CacheObjectHandle {
                                id: pk_id,
                                handle: handles.public_key,
                            })
                            &&& match replies[2] {
                                SessionReply::Done(Err(e)) => {
                                    end matches Step::Finish(Err(error)) && error == e@
                                },
                                SessionReply::Done(Ok(_)) => {
                                    &&& end matches Step::Finish(Ok(pair))
                                    &&& pair.0 == handles.private_key
                                    &&& pair.1 == handles.public_key
                                },
                                _ => true,
                            }
                        },
                        _ => true,
                    }
                },
                _ => true,
            }
        }),
{
    reveal_with_fuel(run, 4);
    reveal_with_fuel(calls, 4);
}

/// Whether a template is that of an object which lives as long as its session, whose value can be
/// read back, and which holds a generic secret of 32 bytes.
pub open spec fn readable_session_secret(template: Seq<Attribute>) -> bool {
    &&& template.len() == 7
    &&& holds(
        template,
        Attribute { type_: CKA_CLASS, value: AttributeValue::Ulong(CKO_SECRET_KEY) },
    )
    &&& holds(
        template,
        Attribute { type_: CKA_KEY_TYPE, value: AttributeValue::Ulong(CKK_GENERIC_SECRET) },
    )
    &&& holds(template, Attribute { type_: CKA_TOKEN, value: AttributeValue::Bool(CK_FALSE) })
    &&& holds(template, Attribute { type_: CKA_PRIVATE, value: AttributeValue::Bool(CK_FALSE) })
    &&& holds(template, Attribute { type_: CKA_SENSITIVE, value: AttributeValue::Bool(CK_FALSE) })
    &&& holds(template, Attribute { type_: CKA_EXTRACTABLE, value: AttributeValue::Bool(CK_TRUE) })
    &&& holds(template, Attribute { type_: CKA_VALUE_LEN, value: AttributeValue::Ulong(32) })
}

proof fn lemma_readable_session_secret<'a>(template: Seq<Attribute<'a>>)
    requires
        template == seq![
            Attribute { type_: CKA_CLASS, value: AttributeValue::Ulong(CKO_SECRET_KEY) },
            Attribute { type_: CKA_KEY_TYPE, value: AttributeValue::Ulong(CKK_GENERIC_SECRET) },
            Attribute { type_: CKA_TOKEN, value: AttributeValue::Bool(CK_FALSE) },
            Attribute { type_: CKA_PRIVATE, value: AttributeValue::Bool(CK_FALSE) },
            Attribute { type_: CKA_SENSITIVE, value: AttributeValue::Bool(CK_FALSE) },
            Attribute { type_: CKA_EXTRACTABLE, value: AttributeValue::Bool(CK_TRUE) },
            Attribute { type_: CKA_VALUE_LEN, value: AttributeValue::Ulong(32) },
        ],
    ensures
        readable_session_secret(template),
{
    assert(forall|i: int| 0 <= i < 7 ==> template.contains(template[i]));
    let entries = (
        template[0],
        template[1],
        template[2],
        template[3],
        template[4],
        template[5],
        template[6],
    );
}

/// How the value of the object `object` is read back and the object destroyed, from the `from`-th
/// call of an operation on: its length is read, then as many bytes are read into a buffer that is
/// all zeros, then it is destroyed. The result is given where all three succeed, else the first
/// error; `value` is then what was read.
pub open spec fn reads_back_and_destroys<'a>(
    session: Session,
    object: CK_OBJECT_HANDLE,
    made: Seq<SessionCallView<'a>>,
    replies: Seq<SessionReplyView>,
    from: int,
    error: Option<HErrorView>,
    value: Option<Seq<u8>>,
) -> bool {
    &&& made.len() > from
    &&& made[from] == (SessionCallView::ReadLen {
        session: session.handle(),
        object,
        attribute: CKA_VALUE,
    })
    &&& match replies[from] {
        SessionReply::Ulong(Err(e)) => error == Some(e@) && made.len() == from + 1,
        SessionReply::Ulong(Ok(None)) => {
            &&& error == Some(HError::Default("ML-KEM secret handle not found"@))
            &&& made.len() == from + 1
        },
        SessionReply::Ulong(Ok(Some(len))) => if len > usize::MAX {
            error == Some(HErrorView::IntegerConversion) && made.len() == from + 1
        } else {
            &&& made.len() > from + 1
            &&& made[from + 1] matches SessionCall::ReadBytes {
                session: handle,
                object: read,
                attribute,
                buffer,
            }
            &&& handle == session.handle()
            &&& read == object
            &&& attribute == CKA_VALUE
            &&& buffer.len() == len
            &&& forall|i: int| 0 <= i < buffer.len() ==> #[trigger] buffer[i] == 0
            &&& match replies[from + 1] {
                SessionReply::Bytes(Err(e)) => error == Some(e@) && made.len() == from + 2,
                SessionReply::Bytes(Ok(None)) => {
                    &&& error == Some(HError::Default("ML-KEM secret handle not found"@))
                    &&& made.len() == from + 2
                },
                SessionReply::Bytes(Ok(Some(bytes))) => {
                    &&& made.len() == from + 3
                    &&& made[from + 2] == (SessionCallView::DestroyObject {
                        session: session.handle(),
                        object,
                    })
                    &&& match replies[from + 2] {
                        SessionReply::Done(Err(e)) => error == Some(e@),
                        SessionReply::Done(Ok(_)) => error is None && value == Some(bytes),
                        _ => true,
                    }
                },
                _ => true,
            }
        },
        _ => true,
    }
}

/// An encapsulation, reply by reply. The parameter set of the key is read; the numbers 1, 2 and 3
/// ask for a buffer of 768, 1088 and 1568 zero bytes, and any other is refused. The secret is made
/// and encapsulated with the key, in an object of the session that can be read back, and is then
/// read back and the object destroyed. What comes out is the secret as it was read, and of the
/// buffer that the library filled the bytes up to the length it gave, each as the library wrote it.
pub proof fn law_encapsulation_protocol<'a>(
    session: Session,
    public_key: CK_OBJECT_HANDLE,
    replies: Seq<SessionReplyView>,
)
    requires
        replies.len() >= 5,
    ensures
        ({
            let end = encapsulation_run::<'a>(session, public_key, replies);
            let made = encapsulation_calls::<'a>(session, public_key, replies);
            let error = match end {
                Step::Finish(Err(e)) => Some(e),
                _ => None,
            };
            let value = match end {
                Step::Finish(Ok((secret, _))) => Some(secret),
                _ => None,
            };
            &&& end is Finish
            &&& made.len() >= 1
            &&& made[0] == (SessionCallView::ReadUlong {
                session: session.handle(),
                object: public_key,
                attribute: CKA_PARAMETER_SET,
            })
            &&& match replies[0] {
                SessionReply::Ulong(Err(e)) => error == Some(e@) && made.len() == 1,
                SessionReply::Ulong(Ok(None)) => {
                    error == Some(HError::Default("PQC key not found"@)) && made.len() == 1
                },
                SessionReply::Ulong(Ok(Some(set))) => if set < 1 || set > 3 {
                    &&& error == Some(
                        HError::Default(
                            "Unsupported ML-KEM parameter set: "@ + decimal(set as nat),
                        ),
                    )
                    &&& made.len() == 1
                } else {
                    &&& made.len() >= 2
                    &&& made[1] matches SessionCall::EncapsulateKey {
                        session: handle,
                        mechanism,
                        public_key: key,
                        secret_template,
                        buffer,
                    }
                    &&& handle == session.handle()
                    &&& mechanism == 0x17
                    &&& key == public_key
                    &&& readable_session_secret(secret_template)
                    &&& buffer.len() == if set == 1 {
                        768int
                    } else if set == 2 {
                        1088int
                    } else {
                        1568int
                    }
                    &&& forall|i: int| 0 <= i < buffer.len() ==> #[trigger] buffer[i] == 0
                    &&& match replies[1] {
                        SessionReply::Encapsulated(Called::NotAvailable) => {
                            &&& error == Some(
                                HError::Default(
                                    "C_EncapsulateKey"@ + " not available on library"@,
                                ),
                            )
                            &&& made.len() == 2
                        },
                        SessionReply::Encapsulated(Called::Returned(rv, output)) => if rv != 0 {
                            &&& error == Some(
                                HError::Default(
                                    "Failed ML-KEM encapsulation"@ + ". Return code: "@ + decimal(
                                        rv as nat,
                                    ),
                                ),
                            )
                            &&& made.len() == 2
                        } else if output.ciphertext_len > usize::MAX {
                            error == Some(HErrorView::IntegerConversion) && made.len() == 2
                        } else {
                            &&& reads_back_and_destroys(
                                session,
                                output.secret,
                                made,
                                replies,
                                2,
                                error,
                                value,
                            )
                            &&& end matches Step::Finish(Ok((_, ciphertext))) ==> {
                                &&& ciphertext.len() <= output.ciphertext.len()
                                &&& ciphertext.len() <= output.ciphertext_len
                                &&& ciphertext.len() == output.ciphertext.len()
                                    || ciphertext.len() == output.ciphertext_len
                                &&& forall|i: int|
                                    0 <= i < ciphertext.len() ==> #[trigger] ciphertext[i]
                                        == output.ciphertext[i]
                            }
                        },
                        _ => true,
                    }
                },
                _ => true,
            }
        }),
{
    reveal_with_fuel(run, 6);
    reveal_with_fuel(calls, 6);
    let made = encapsulation_calls::<'a>(session, public_key, replies);
    if made.len() >= 2 {
        if let SessionCall::EncapsulateKey { secret_template, .. } = made[1] {
            lemma_readable_session_secret(secret_template);
        }
    }
}

/// A decapsulation, reply by reply. The ciphertext is decapsulated with the key, as it stands, into
/// an object of the session that can be read back, and the secret is then read back and the object
/// destroyed. What comes out is the secret as it was read.
pub proof fn law_decapsulation_protocol<'a>(
    session: Session,
    private_key: CK_OBJECT_HANDLE,
    ciphertext: &'a [u8],
    replies: Seq<SessionReplyView>,
)
    requires
        replies.len() >= 4,
    ensures
        ({
            let end = decapsulation_run(session, private_key, ciphertext, replies);
            let made = decapsulation_calls(session, private_key, ciphertext, replies);
            let error = match end {
                Step::Finish(Err(e)) => Some(e),
                _ => None,
            };
            let value = match end {
                Step::Finish(Ok(secret)) => Some(secret),
                _ => None,
            };
            &&& end is Finish
            &&& made.len() >= 1
            &&& made[0] matches SessionCall::DecapsulateKey {
                session: handle,
                mechanism,
                private_key: key,
                secret_template,
                ciphertext: given,
            }
            &&& handle == session.handle()
            &&& mechanism == 0x17
            &&& key == private_key
            &&& readable_session_secret(secret_template)
            &&& given@ == ciphertext@
            &&& match replies[0] {
                SessionReply::Decapsulated(Called::NotAvailable) => {
                    &&& error == Some(
                        HError::Default("C_DecapsulateKey"@ + " not available on library"@),
                    )
                    &&& made.len() == 1
                },
                SessionReply::Decapsulated(Called::Returned(rv, object)) => if rv != 0 {
                    &&& error == Some(
                        HError::Default(
                            "Failed ML-KEM decapsulation"@ + ". Return code: "@ + decimal(
                                rv as nat,
                            ),
                        ),
                    )
                    &&& made.len() == 1
                } else {
                    reads_back_and_destroys(session, object, made, replies, 1, error, value)
                },
                _ => true,
            }
        }),
{
    reveal_with_fuel(run, 5);
    reveal_with_fuel(calls, 5);
    let made = decapsulation_calls(session, private_key, ciphertext, replies);
    if let SessionCall::DecapsulateKey { secret_template, .. } = made[0] {
        lemma_readable_session_secret(secret_template);
    }
}

/// The value of a secret object, reply by reply: its length is read, and then as many bytes, into a
/// buffer of zeros. What comes out is the bytes as they were read.
pub proof fn law_reading_protocol<'a>(
    session: Session,
    object: CK_OBJECT_HANDLE,
    replies: Seq<SessionReplyView>,
)
    requires
        replies.len() >= 2,
    ensures
        ({
            let end = reading_run::<'a>(session, object, replies);
            let made = calls(
                |machine: SecretReading, reply: SessionReplyView| machine.next::<'a>(reply),
                reading_start(session.handle(), object),
                replies,
            );
            &&& made.len() >= 1
            &&& made[0] == (SessionCallView::ReadLen {
                session: session.handle(),
                object,
                attribute: CKA_VALUE,
            })
            &&& match replies[0] {
                SessionReply::Ulong(Err(e)) => {
                    &&& end matches Step::Finish(Err(error)) && error == e@
                    &&& made.len() == 1
                },
                SessionReply::Ulong(Ok(None)) => {
                    &&& end matches Step::Finish(Err(HError::Default(message)))
                    &&& message == "ML-KEM secret handle not found"@
                    &&& made.len() == 1
                },
                SessionReply::Ulong(Ok(Some(len))) => if len > usize::MAX {
                    end matches Step::Finish(Err(HError::IntegerConversion)) && made.len() == 1
                } else {
                    &&& made.len() == 2
                    &&& made[1] matches SessionCall::ReadBytes {
                        session: handle,
                        object: read,
                        attribute,
                        buffer,
                    }
                    &&& handle == session.handle()
                    &&& read == object
                    &&& attribute == CKA_VALUE
                    &&& buffer.len() == len
                    &&& forall|i: int| 0 <= i < buffer.len() ==> #[trigger] buffer[i] == 0
                    &&& match replies[1] {
                        SessionReply::Bytes(Err(e)) => {
                            end matches Step::Finish(Err(error)) && error == e@
                        },
                        SessionReply::Bytes(Ok(None)) => {
                            &&& end matches Step::Finish(Err(HError::Default(message)))
                            &&& message == "ML-KEM secret handle not found"@
                        },
                        SessionReply::Bytes(Ok(Some(bytes))) => {
                            end matches Step::Finish(Ok(value)) && value == bytes
                        },
                        _ => true,
                    }
                },
                _ => true,
            }
        }),
{
    reveal_with_fuel(run, 3);
    reveal_with_fuel(calls, 3);
}

/// The verification of a signature, reply by reply. It is set up with the key, and where that
/// succeeds the library is asked about the data and the signature as they stand. The code zero means
/// that the signature holds, the two codes for a wrong signature and for one of a wrong length mean
/// that it does not, and any other code is an error.
pub proof fn law_verification_protocol<'a>(
    session: Session,
    public_key: CK_OBJECT_HANDLE,
    data: &'a [u8],
    signature: &'a [u8],
    replies: Seq<SessionReplyView>,
)
    requires
        replies.len() >= 2,
    ensures
        ({
            let end = verification_run(session, public_key, data, signature, replies);
            let made = calls(
                |machine: Verification<'a>, reply: SessionReplyView| machine.next(reply),
                verification_start(session, public_key, data, signature),
                replies,
            );
            &&& made.len() >= 1
            &&& made[0] == (SessionCallView::VerifyInit {
                session: session.handle(),
                mechanism: 0x1d,
                public_key,
            })
            &&& match replies[0] {
                SessionReply::Status(Called::NotAvailable) => {
                    &&& end matches Step::Finish(Err(HError::Default(message)))
                    &&& message == "C_VerifyInit"@ + " not available on library"@
                    &&& made.len() == 1
                },
                SessionReply::Status(Called::Returned(rv, _)) => if rv != 0 {
                    &&& end matches Step::Finish(Err(HError::Default(message)))
                    &&& message == "Failed to initialize signature verification"@
                        + ". Return code: "@ + decimal(rv as nat)
                    &&& made.len() == 1
                } else {
                    &&& made.len() == 2
                    &&& made[1] == (SessionCallView::Verify {
                        session: session.handle(),
                        data,
                        signature,
                    })
                    &&& match replies[1] {
                        SessionReply::Status(Called::NotAvailable) => {
                            &&& end matches Step::Finish(Err(HError::Default(message)))
                            &&& message == "C_Verify"@ + " not available on library"@
                        },
                        SessionReply::Status(Called::Returned(rv, _)) => if rv == 0 {
                            end matches Step::Finish(Ok(verified)) && verified
                        } else if rv == 0xc0 || rv == 0xc1 {
                            end matches Step::Finish(Ok(verified)) && !verified
                        } else {
                            &&& end matches Step::Finish(Err(HError::Default(message)))
                            &&& message == "Failed to verify signature"@ + ". Return code: "@
                                + decimal(rv as nat)
                        },
                        _ => true,
                    }
                },
                _ => true,
            }
        }),
{
    reveal_with_fuel(run, 3);
    reveal_with_fuel(calls, 3);
}

/// The template of the object for a shared secret has one entry of each of seven types, with the
/// value that was given for it.
pub proof fn law_secret_template<'a>(
    secret_class: u64,
    generic_type: u64,
    value_len: u64,
    ck_false: u8,
    ck_true: u8,
)
    ensures
        ({
            let template = secret_attributes::<'a>(
                secret_class,
                generic_type,
                value_len,
                ck_false,
                ck_true,
            );
            &&& template.len() == 7
            &&& holds(
                template,
                Attribute { type_: CKA_CLASS, value: AttributeValue::Ulong(secret_class) },
            )
            &&& holds(
                template,
                Attribute { type_: CKA_KEY_TYPE, value: AttributeValue::Ulong(generic_type) },
            )
            &&& holds(
                template,
                Attribute { type_: CKA_TOKEN, value: AttributeValue::Bool(ck_false) },
            )
            &&& holds(
                template,
                Attribute { type_: CKA_PRIVATE, value: AttributeValue::Bool(ck_false) },
            )
            &&& holds(
                template,
                Attribute { type_: CKA_SENSITIVE, value: AttributeValue::Bool(ck_false) },
            )
            &&& holds(
                template,
                Attribute { type_: CKA_EXTRACTABLE, value: AttributeValue::Bool(ck_true) },
            )
            &&& holds(
                template,
                Attribute { type_: CKA_VALUE_LEN, value: AttributeValue::Ulong(value_len) },
            )
        }),
{
    let template = secret_attributes::<'a>(
        secret_class,
        generic_type,
        value_len,
        ck_false,
        ck_true,
    );
    assert(forall|i: int| 0 <= i < 7 ==> template.contains(template[i]));
    let entries = (
        template[0],
        template[1],
        template[2],
        template[3],
        template[4],
        template[5],
        template[6],
    );
}

/// Every reply of the kind that a call asks for is one that the operation goes on with, save that a
/// buffer which was lent comes back with its length, and that a length to read is one which a buffer
/// can have or which no memory can.
pub proof fn law_sessions_take_every_reply<'a>(
    generation: KeyPairGeneration<'a>,
    verification: Verification<'a>,
    reading: SecretReading,
    encapsulation: Encapsulation<Seq<u8>>,
    decapsulation: Decapsulation<Seq<u8>>,
    reply: SessionReplyView,
)
    ensures
        generation.expects(reply) == match generation {
            KeyPairGeneration::Generating { .. } => reply is KeyPair,
            KeyPairGeneration::CachingPrivateKey { .. } => reply is Done,
            KeyPairGeneration::CachingPublicKey { .. } => reply is Done,
        },
        verification.expects(reply) == (reply is Status),
        reading.expects(reply) == match (reading, reply) {
            (SecretReading::Len { .. }, SessionReply::Ulong(Ok(Some(len)))) => len <= isize::MAX
                || len > usize::MAX,
            (SecretReading::Len { .. }, SessionReply::Ulong(_)) => true,
            (SecretReading::Value { buffer_len }, SessionReply::Bytes(Ok(Some(bytes)))) =>
                bytes.len() == buffer_len,
            (SecretReading::Value { .. }, SessionReply::Bytes(_)) => true,
            _ => false,
        },
        encapsulation.expects(reply) == match (encapsulation, reply) {
            (Encapsulation::ReadingParameterSet { .. }, _) => reply is Ulong,
            (
                Encapsulation::Encapsulating { buffer_len, .. },
                SessionReply::Encapsulated(Called::Returned(_, output)),
            ) => output.ciphertext.len() == buffer_len,
            (Encapsulation::Encapsulating { .. }, _) => reply is Encapsulated,
            (Encapsulation::ReadingSecret { reading: r, .. }, _) => r.expects(reply),
            (Encapsulation::Destroying { .. }, _) => reply is Done,
        },
        decapsulation.expects(reply) == match decapsulation {
            Decapsulation::Decapsulating { .. } => reply is Decapsulated,
            Decapsulation::ReadingSecret { reading: r, .. } => r.expects(reply),
            Decapsulation::Destroying { .. } => reply is Done,
        },
{
}

/// The length that an encapsulation and the reading of a secret remember is that of the buffer which
/// they lend.
pub proof fn law_lent_buffers<'a>(
    reading: SecretReading,
    encapsulation: Encapsulation<Seq<u8>>,
    reply: SessionReplyView,
)
    ensures
        reading.next::<'a>(reply) matches Step::Call(after, call) ==> {
            &&& after matches SecretReading::Value { buffer_len }
            &&& call matches SessionCall::ReadBytes { buffer, .. }
            &&& buffer.len() == buffer_len
        },
        encapsulation is ReadingParameterSet ==> (encapsulation.next::<'a>(
            reply,
        ) matches Step::Call(after, call) ==> {
            &&& after matches Encapsulation::Encapsulating { buffer_len, .. }
            &&& call matches SessionCall::EncapsulateKey { buffer, .. }
            &&& buffer.len() == buffer_len
        }),
{
}

/// The operations of a session stand in contracts as they are.
pub proof fn law_session_operations_are_seen_whole<'a>(
    generation: KeyPairGeneration<'a>,
    verification: Verification<'a>,
    reading: SecretReading,
    encapsulation: Encapsulation<Vec<u8>>,
    decapsulation: Decapsulation<Vec<u8>>,
)
    ensures
        generation@ == generation,
        verification@ == verification,
        reading@ == reading,
        match (encapsulation, encapsulation@) {
            (
                Encapsulation::ReadingParameterSet { session: s, public_key: k },
                Encapsulation::ReadingParameterSet { session, public_key },
            ) => s == session && k == public_key,
            (
                Encapsulation::Encapsulating { session: s, buffer_len: n },
                Encapsulation::Encapsulating { session, buffer_len },
            ) => s == session && n == buffer_len,
            (
                Encapsulation::ReadingSecret { session: s, secret: o, ciphertext: c, reading: r },
                Encapsulation::ReadingSecret { session, secret, ciphertext, reading },
            ) => s == session && o == secret && c@ == ciphertext && r == reading,
            (
                Encapsulation::Destroying { value: v, ciphertext: c },
                Encapsulation::Destroying { value, ciphertext },
            ) => v@ == value && c@ == ciphertext,
            _ => false,
        },
        match (decapsulation, decapsulation@) {
            (
                Decapsulation::Decapsulating { session: s },
                Decapsulation::Decapsulating { session },
            ) => s == session,
            (
                Decapsulation::ReadingSecret { session: s, secret: o, reading: r },
                Decapsulation::ReadingSecret { session, secret, reading },
            ) => s == session && o == secret && r == reading,
            (Decapsulation::Destroying { value: v }, Decapsulation::Destroying { value }) => v@
                == value,
            _ => false,
        },
{
}

/// What a call of a function amounts to. The code zero gives the output, any other is an error whose
/// message ends in that code, and so is a function that the library does not have.
pub proof fn law_outcome<T>(function: Function, called: Called<T>)
    ensures
        match called {
            Called::NotAvailable => {
                &&& outcome(function, called) matches Err(HError::Default(message))
                &&& message == function.name_text() + " not available on library"@
            },
            Called::Returned(rv, output) => if rv == 0 {
                outcome(function, called) == Ok::<T, HErrorView>(output)
            } else {
                &&& outcome(function, called) matches Err(HError::Default(message))
                &&& message == function.failure_text() + ". Return code: "@ + decimal(rv as nat)
            },
        },
{
}

/// What `C_Verify` says of a signature, for every code: zero that it holds, `CKR_SIGNATURE_INVALID`
/// and `CKR_SIGNATURE_LEN_RANGE` that it does not, and every other is an error.
pub proof fn law_verdict(called: Called<()>)
    ensures
        match called {
            Called::NotAvailable => {
                &&& verdict(called) matches Err(HError::Default(message))
                &&& message == "C_Verify"@ + " not available on library"@
            },
            Called::Returned(rv, _) => {
                &&& (verdict(called) == Ok::<bool, HErrorView>(true)) == (rv == 0)
                &&& (verdict(called) == Ok::<bool, HErrorView>(false)) == (rv == 0xc0 || rv
                    == 0xc1)
                &&& verdict(called) matches Err(error) ==> error == HError::Default(
                    "Failed to verify signature"@ + ". Return code: "@ + decimal(rv as nat),
                )
            },
        },
{
}

/// What was read of an object is given as it is. Where there is no such object the error has the
/// message that was asked for, and an error of the reading stays that error.
pub proof fn law_found<T>(read: HResult<Option<T>>, missing: Seq<char>)
    ensures
        match found(read, missing) {
            Ok(value) => read == Ok::<Option<T>, HError>(Some(value)),
            Err(error) => match read {
                Ok(value) => value is None && error == HError::Default(missing),
                Err(e) => error == e@,
            },
        },
        key_not_found_text() == "PQC key not found"@,
        secret_not_found_text() == "ML-KEM secret handle not found"@,
{
}

/// The ciphertext is the longest beginning of the buffer that is no longer than the library says.
pub proof fn law_written(buffer: Seq<u8>, len: usize)
    ensures
        ({
            let ciphertext = written(buffer, len);
            &&& ciphertext.len() <= buffer.len()
            &&& ciphertext.len() <= len
            &&& ciphertext.len() == buffer.len() || ciphertext.len() == len
            &&& forall|i: int|
                0 <= i < ciphertext.len() ==> #[trigger] ciphertext[i] == buffer[i]
        }),
{
}

} // verus!
