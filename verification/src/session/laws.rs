//! What holds of the operations of a session from their first call to their last.

use pkcs11_sys::CK_OBJECT_HANDLE;
use vstd::prelude::*;

use super::keypair::flag;
use super::keypair::generation_start;
use super::keypair::private_key_attributes;
use super::keypair::public_key_attributes;
use super::keypair::KeyPair;
use super::keypair::KeyPairGeneration;
use super::mldsa::verdict;
use super::mldsa::verification_start;
use super::mldsa::Verification;
use super::mlkem::decapsulation_start;
use super::mlkem::encapsulation_start;
use super::mlkem::found;
use super::mlkem::key_not_found_text;
use super::mlkem::memory_len;
use super::mlkem::reading_start;
use super::mlkem::secret_not_found_text;
use super::mlkem::shared_secret_attributes;
use super::mlkem::written;
use super::mlkem::zeros;
use super::mlkem::Decapsulation;
use super::mlkem::Encapsulation;
use super::mlkem::SecretReading;
use super::outcome;
use super::pqc::ciphertext_len;
use super::pqc::PqcKeypairAlgorithm;
use super::Session;
use crate::cryptoki::Attribute;
use crate::cryptoki::AttributeValue;
use crate::cryptoki::SessionCall;
use crate::cryptoki::SessionCallView;
use crate::cryptoki::SessionReplyView;
use crate::cryptoki::CKA_EXTRACTABLE;
use crate::cryptoki::CKA_KEY_TYPE;
use crate::cryptoki::CKA_PARAMETER_SET;
use crate::cryptoki::CKA_PRIVATE;
use crate::cryptoki::CKA_SENSITIVE;
use crate::cryptoki::CKA_VALUE;
use crate::cryptoki::CKM_ML_DSA;
use crate::cryptoki::CKM_ML_KEM;
use crate::cryptoki::CK_FALSE;
use crate::cryptoki::CK_TRUE;
use crate::error::Function;
use crate::error::HErrorView;
use crate::error::HResultView;
use crate::step::calls;
use crate::step::expected;
use crate::step::run;
use crate::step::Step;

verus! {

/// Where the generation of a key pair stands after some replies.
pub open spec fn generation_run<'a>(
    session: Session,
    sk_id: &'a [u8],
    pk_id: &'a [u8],
    algorithm: PqcKeypairAlgorithm,
    sensitive: bool,
    replies: Seq<SessionReplyView>,
) -> Step<KeyPairGeneration<'a>, SessionCallView<'a>, HResultView<KeyPair>> {
    run(
        |machine: KeyPairGeneration<'a>, reply: SessionReplyView| machine.next(reply),
        generation_start(session, sk_id, pk_id, algorithm, sensitive),
        replies,
    )
}

/// The calls that the generation of a key pair makes.
pub open spec fn generation_calls<'a>(
    session: Session,
    sk_id: &'a [u8],
    pk_id: &'a [u8],
    algorithm: PqcKeypairAlgorithm,
    sensitive: bool,
    replies: Seq<SessionReplyView>,
) -> Seq<SessionCallView<'a>> {
    calls(
        |machine: KeyPairGeneration<'a>, reply: SessionReplyView| machine.next(reply),
        generation_start(session, sk_id, pk_id, algorithm, sensitive),
        replies,
    )
}

/// A key pair comes out exactly where the generation and both insertions in the cache succeed. It
/// is then the one that was generated, the private key first, and each key is cached under its own
/// identifier, the private key first.
pub proof fn law_key_pair_is_cached<'a>(
    session: Session,
    sk_id: &'a [u8],
    pk_id: &'a [u8],
    algorithm: PqcKeypairAlgorithm,
    sensitive: bool,
    replies: Seq<SessionReplyView>,
    pair: KeyPair,
)
    ensures
        generation_run(session, sk_id, pk_id, algorithm, sensitive, replies) == Step::Finish::<
            KeyPairGeneration<'a>,
            SessionCallView<'a>,
            HResultView<KeyPair>,
        >(Ok(pair)) <==> {
            &&& replies.len() >= 3
            &&& outcome(Function::GenerateKeyPair, replies[0]->KeyPair_0) matches Ok(handles)
            &&& replies[1]->Done_0 is Ok
            &&& replies[2]->Done_0 is Ok
            &&& pair == (handles.private_key, handles.public_key)
        },
        generation_run(session, sk_id, pk_id, algorithm, sensitive, replies) == Step::Finish::<
            KeyPairGeneration<'a>,
            SessionCallView<'a>,
            HResultView<KeyPair>,
        >(Ok(pair)) ==> generation_calls(session, sk_id, pk_id, algorithm, sensitive, replies)
            == seq![
            SessionCallView::GenerateKeyPair {
                session: session.handle(),
                mechanism: algorithm.generation_mechanism(),
                public_template: public_key_attributes(algorithm, pk_id),
                private_template: private_key_attributes(algorithm, sk_id, sensitive),
            },
            SessionCall::CacheObjectHandle { id: sk_id, handle: pair.0 },
            SessionCall::CacheObjectHandle { id: pk_id, handle: pair.1 },
        ],
{
    reveal_with_fuel(run, 5);
    reveal_with_fuel(calls, 5);
}

/// Where no key pair is generated, nothing is cached, and the operation ends with the error that
/// the generation amounts to.
pub proof fn law_refused_generation_caches_nothing<'a>(
    session: Session,
    sk_id: &'a [u8],
    pk_id: &'a [u8],
    algorithm: PqcKeypairAlgorithm,
    sensitive: bool,
    replies: Seq<SessionReplyView>,
)
    requires
        replies.len() > 0,
        outcome(Function::GenerateKeyPair, replies[0]->KeyPair_0) is Err,
    ensures
        generation_run(session, sk_id, pk_id, algorithm, sensitive, replies) == Step::Finish::<
            KeyPairGeneration<'a>,
            SessionCallView<'a>,
            HResultView<KeyPair>,
        >(Err(outcome(Function::GenerateKeyPair, replies[0]->KeyPair_0)->Err_0)),
        generation_calls(session, sk_id, pk_id, algorithm, sensitive, replies).len() == 1,
{
    reveal_with_fuel(run, 2);
    reveal_with_fuel(calls, 2);
}

/// The generation of a key pair ends with the error of the first of its three calls that fails.
pub proof fn law_generation_result<'a>(
    session: Session,
    sk_id: &'a [u8],
    pk_id: &'a [u8],
    algorithm: PqcKeypairAlgorithm,
    sensitive: bool,
    replies: Seq<SessionReplyView>,
)
    requires
        replies.len() >= 3,
    ensures
        generation_run(session, sk_id, pk_id, algorithm, sensitive, replies) == Step::Finish::<
            KeyPairGeneration<'a>,
            SessionCallView<'a>,
            HResultView<KeyPair>,
        >(
            match (
                outcome(Function::GenerateKeyPair, replies[0]->KeyPair_0),
                replies[1]->Done_0,
                replies[2]->Done_0,
            ) {
                (Err(e), _, _) => Err(e),
                (Ok(_), Err(e), _) => Err(e@),
                (Ok(_), Ok(_), Err(e)) => Err(e@),
                (Ok(handles), Ok(_), Ok(_)) => Ok((handles.private_key, handles.public_key)),
            },
        ),
{
    reveal_with_fuel(run, 4);
}

/// A private key can be extracted exactly where it is not sensitive. It is private, its public key
/// is not, and both have the key type and the parameter set of the algorithm.
pub proof fn law_key_pair_attributes<'a>(
    sk_id: &'a [u8],
    pk_id: &'a [u8],
    algorithm: PqcKeypairAlgorithm,
    sensitive: bool,
)
    ensures
        ({
            let private = private_key_attributes(algorithm, sk_id, sensitive);
            let public = public_key_attributes(algorithm, pk_id);
            let key_type = Attribute {
                type_: CKA_KEY_TYPE,
                value: AttributeValue::Ulong(algorithm.type_of_keys()),
            };
            let parameter_set = Attribute {
                type_: algorithm.parameter_attribute(),
                value: AttributeValue::Ulong(algorithm.set_number()),
            };
            &&& private.contains(
                Attribute { type_: CKA_SENSITIVE, value: AttributeValue::Bool(flag(sensitive)) },
            )
            &&& private.contains(
                Attribute { type_: CKA_EXTRACTABLE, value: AttributeValue::Bool(flag(!sensitive)) },
            )
            &&& private.contains(
                Attribute { type_: CKA_PRIVATE, value: AttributeValue::Bool(CK_TRUE) },
            )
            &&& public.contains(
                Attribute { type_: CKA_PRIVATE, value: AttributeValue::Bool(CK_FALSE) },
            )
            &&& private.contains(key_type) && public.contains(key_type)
            &&& private.contains(parameter_set) && public.contains(parameter_set)
            &&& forall|i: int, j: int|
                0 <= i < j < private.len() ==> private[i].type_ != private[j].type_
            &&& forall|i: int, j: int|
                0 <= i < j < public.len() ==> public[i].type_ != public[j].type_
        }),
{
    let private = private_key_attributes(algorithm, sk_id, sensitive);
    let public = public_key_attributes(algorithm, pk_id);
    assert(private[0].type_ == CKA_KEY_TYPE && public[0].type_ == CKA_KEY_TYPE);
    assert(private[2].type_ == CKA_PRIVATE && public[2].type_ == CKA_PRIVATE);
    assert(private[5].type_ == CKA_SENSITIVE);
    assert(private[6].type_ == CKA_EXTRACTABLE);
    assert(private[7].type_ == algorithm.parameter_attribute());
    assert(public[5].type_ == algorithm.parameter_attribute());
}

/// Where the reading of the value of a secret object stands after some replies.
pub open spec fn reading_run<'a>(
    session: Session,
    secret: CK_OBJECT_HANDLE,
    replies: Seq<SessionReplyView>,
) -> Step<SecretReading, SessionCallView<'a>, HResultView<Seq<u8>>> {
    run(
        |machine: SecretReading, reply: SessionReplyView| machine.next(reply),
        reading_start(session.handle(), secret),
        replies,
    )
}

/// The value of a secret object has exactly as many bytes as the length that was read first. Where
/// one of the two reads fails, or the length does not fit in memory, there is no value.
pub proof fn law_secret_reading<'a>(
    session: Session,
    secret: CK_OBJECT_HANDLE,
    replies: Seq<SessionReplyView>,
)
    requires
        replies.len() >= 2,
        expected(
            |machine: SecretReading, reply: SessionReplyView| machine.expects(reply),
            |machine: SecretReading, reply: SessionReplyView| machine.next::<'a>(reply),
            reading_start(session.handle(), secret),
            replies,
        ),
    ensures
        reading_run::<'a>(session, secret, replies) == Step::Finish::<
            SecretReading,
            SessionCallView<'a>,
            HResultView<Seq<u8>>,
        >(
            match found(replies[0]->Ulong_0, secret_not_found_text()) {
                Err(e) => Err(e),
                Ok(value_len) => match memory_len(value_len) {
                    Err(e) => Err(e),
                    Ok(_) => found(replies[1]->Bytes_0, secret_not_found_text()),
                },
            },
        ),
        reading_run::<'a>(session, secret, replies)->Finish_0 matches Ok(value) ==> value.len()
            == found(replies[0]->Ulong_0, secret_not_found_text())->Ok_0,
{
    reveal_with_fuel(run, 3);
    reveal_with_fuel(expected, 3);
}

/// Where an encapsulation stands after some replies.
pub open spec fn encapsulation_run<'a>(
    session: Session,
    public_key: CK_OBJECT_HANDLE,
    replies: Seq<SessionReplyView>,
) -> Step<Encapsulation<Seq<u8>>, SessionCallView<'a>, HResultView<(Seq<u8>, Seq<u8>)>> {
    run(
        |machine: Encapsulation<Seq<u8>>, reply: SessionReplyView| machine.next(reply),
        encapsulation_start(session, public_key),
        replies,
    )
}

/// The calls that an encapsulation makes.
pub open spec fn encapsulation_calls<'a>(
    session: Session,
    public_key: CK_OBJECT_HANDLE,
    replies: Seq<SessionReplyView>,
) -> Seq<SessionCallView<'a>> {
    calls(
        |machine: Encapsulation<Seq<u8>>, reply: SessionReplyView| machine.next(reply),
        encapsulation_start(session, public_key),
        replies,
    )
}

/// Whether every call of an encapsulation succeeds, and gives this secret and this ciphertext.
pub open spec fn encapsulates(
    replies: Seq<SessionReplyView>,
    secret: Seq<u8>,
    ciphertext: Seq<u8>,
) -> bool {
    &&& replies.len() >= 5
    &&& found(replies[0]->Ulong_0, key_not_found_text()) matches Ok(parameter_set)
    &&& ciphertext_len(parameter_set) is Ok
    &&& outcome(Function::EncapsulateKey, replies[1]->Encapsulated_0) matches Ok(output)
    &&& memory_len(output.ciphertext_len) matches Ok(len)
    &&& found(replies[2]->Ulong_0, secret_not_found_text()) matches Ok(value_len)
    &&& memory_len(value_len) is Ok
    &&& found(replies[3]->Bytes_0, secret_not_found_text()) == Ok::<Seq<u8>, HErrorView>(secret)
    &&& replies[4]->Done_0 is Ok
    &&& ciphertext == written(output.ciphertext, len)
}

/// A shared secret comes out of an encapsulation exactly where every call succeeds, and so only
/// after the object that held it has been destroyed. It is the value that was read of that object,
/// and the ciphertext is what was written of the buffer that was lent, which is as long as the
/// parameter set of the key asks for.
pub proof fn law_encapsulated_secret_is_destroyed<'a>(
    session: Session,
    public_key: CK_OBJECT_HANDLE,
    replies: Seq<SessionReplyView>,
    secret: Seq<u8>,
    ciphertext: Seq<u8>,
)
    ensures
        encapsulation_run::<'a>(session, public_key, replies) == Step::Finish::<
            Encapsulation<Seq<u8>>,
            SessionCallView<'a>,
            HResultView<(Seq<u8>, Seq<u8>)>,
        >(Ok((secret, ciphertext))) <==> encapsulates(replies, secret, ciphertext),
        encapsulates(replies, secret, ciphertext) ==> ({
            let parameter_set = found(replies[0]->Ulong_0, key_not_found_text())->Ok_0;
            let buffer_len = ciphertext_len(parameter_set)->Ok_0;
            let object = outcome(
                Function::EncapsulateKey,
                replies[1]->Encapsulated_0,
            )->Ok_0.secret;
            let value_len = found(replies[2]->Ulong_0, secret_not_found_text())->Ok_0;
            encapsulation_calls::<'a>(session, public_key, replies) == seq![
                SessionCallView::ReadUlong {
                    session: session.handle(),
                    object: public_key,
                    attribute: CKA_PARAMETER_SET,
                },
                SessionCall::EncapsulateKey {
                    session: session.handle(),
                    mechanism: CKM_ML_KEM,
                    public_key,
                    secret_template: shared_secret_attributes(),
                    buffer: zeros(buffer_len as nat),
                },
                SessionCall::ReadLen { session: session.handle(), object, attribute: CKA_VALUE },
                SessionCall::ReadBytes {
                    session: session.handle(),
                    object,
                    attribute: CKA_VALUE,
                    buffer: zeros(value_len as nat),
                },
                SessionCall::DestroyObject { session: session.handle(), object },
            ]
        }),
{
    reveal_with_fuel(run, 7);
    reveal_with_fuel(calls, 7);
}

/// A shared secret that is encapsulated is as long as its object says, and its ciphertext is as long
/// as the library says, but no longer than the parameter set of the key asks for.
pub proof fn law_encapsulated_lengths<'a>(
    session: Session,
    public_key: CK_OBJECT_HANDLE,
    replies: Seq<SessionReplyView>,
    secret: Seq<u8>,
    ciphertext: Seq<u8>,
)
    requires
        expected(
            |machine: Encapsulation<Seq<u8>>, reply: SessionReplyView| machine.expects(reply),
            |machine: Encapsulation<Seq<u8>>, reply: SessionReplyView| machine.next::<'a>(reply),
            encapsulation_start(session, public_key),
            replies,
        ),
        encapsulates(replies, secret, ciphertext),
    ensures
        ({
            let parameter_set = found(replies[0]->Ulong_0, key_not_found_text())->Ok_0;
            let output = outcome(Function::EncapsulateKey, replies[1]->Encapsulated_0)->Ok_0;
            let value_len = found(replies[2]->Ulong_0, secret_not_found_text())->Ok_0;
            let most = ciphertext_len(parameter_set)->Ok_0;
            &&& secret.len() == value_len
            &&& ciphertext.len() == if output.ciphertext_len < most {
                output.ciphertext_len as nat
            } else {
                most as nat
            }
        }),
{
    reveal_with_fuel(expected, 5);
}

/// The value of a secret object, where its length and then its bytes can be read and the object is
/// then destroyed.
pub open spec fn secret_read_and_destroyed(
    len_reply: SessionReplyView,
    bytes_reply: SessionReplyView,
    destroy_reply: SessionReplyView,
) -> HResultView<Seq<u8>> {
    match found(len_reply->Ulong_0, secret_not_found_text()) {
        Err(e) => Err(e),
        Ok(value_len) => match memory_len(value_len) {
            Err(e) => Err(e),
            Ok(_) => match found(bytes_reply->Bytes_0, secret_not_found_text()) {
                Err(e) => Err(e),
                Ok(secret) => match destroy_reply->Done_0 {
                    Err(e) => Err(e@),
                    Ok(_) => Ok(secret),
                },
            },
        },
    }
}

/// An encapsulation ends with the error of the first of its calls that fails, or that gives a
/// number it cannot go on with.
pub proof fn law_encapsulation_result<'a>(
    session: Session,
    public_key: CK_OBJECT_HANDLE,
    replies: Seq<SessionReplyView>,
)
    requires
        replies.len() >= 5,
    ensures
        encapsulation_run::<'a>(session, public_key, replies) == Step::Finish::<
            Encapsulation<Seq<u8>>,
            SessionCallView<'a>,
            HResultView<(Seq<u8>, Seq<u8>)>,
        >(
            match found(replies[0]->Ulong_0, key_not_found_text()) {
                Err(e) => Err(e),
                Ok(parameter_set) => match ciphertext_len(parameter_set) {
                    Err(e) => Err(e),
                    Ok(_) => match outcome(Function::EncapsulateKey, replies[1]->Encapsulated_0) {
                        Err(e) => Err(e),
                        Ok(output) => match memory_len(output.ciphertext_len) {
                            Err(e) => Err(e),
                            Ok(len) => match secret_read_and_destroyed(
                                replies[2],
                                replies[3],
                                replies[4],
                            ) {
                                Err(e) => Err(e),
                                Ok(secret) => Ok((secret, written(output.ciphertext, len))),
                            },
                        },
                    },
                },
            },
        ),
{
    reveal_with_fuel(run, 6);
}

/// Where a decapsulation stands after some replies.
pub open spec fn decapsulation_run<'a>(
    session: Session,
    private_key: CK_OBJECT_HANDLE,
    ciphertext: &'a [u8],
    replies: Seq<SessionReplyView>,
) -> Step<Decapsulation<Seq<u8>>, SessionCallView<'a>, HResultView<Seq<u8>>> {
    run(
        |machine: Decapsulation<Seq<u8>>, reply: SessionReplyView| machine.next(reply),
        decapsulation_start(session, private_key, ciphertext),
        replies,
    )
}

/// The calls that a decapsulation makes.
pub open spec fn decapsulation_calls<'a>(
    session: Session,
    private_key: CK_OBJECT_HANDLE,
    ciphertext: &'a [u8],
    replies: Seq<SessionReplyView>,
) -> Seq<SessionCallView<'a>> {
    calls(
        |machine: Decapsulation<Seq<u8>>, reply: SessionReplyView| machine.next(reply),
        decapsulation_start(session, private_key, ciphertext),
        replies,
    )
}

/// Whether every call of a decapsulation succeeds, and gives this secret.
pub open spec fn decapsulates(replies: Seq<SessionReplyView>, secret: Seq<u8>) -> bool {
    &&& replies.len() >= 4
    &&& outcome(Function::DecapsulateKey, replies[0]->Decapsulated_0) is Ok
    &&& found(replies[1]->Ulong_0, secret_not_found_text()) matches Ok(value_len)
    &&& memory_len(value_len) is Ok
    &&& found(replies[2]->Bytes_0, secret_not_found_text()) == Ok::<Seq<u8>, HErrorView>(secret)
    &&& replies[3]->Done_0 is Ok
}

/// A shared secret comes out of a decapsulation exactly where every call succeeds, and so only
/// after the object that held it has been destroyed. It is the value that was read of that object.
pub proof fn law_decapsulated_secret_is_destroyed<'a>(
    session: Session,
    private_key: CK_OBJECT_HANDLE,
    ciphertext: &'a [u8],
    replies: Seq<SessionReplyView>,
    secret: Seq<u8>,
)
    ensures
        decapsulation_run(session, private_key, ciphertext, replies) == Step::Finish::<
            Decapsulation<Seq<u8>>,
            SessionCallView<'a>,
            HResultView<Seq<u8>>,
        >(Ok(secret)) <==> decapsulates(replies, secret),
        decapsulates(replies, secret) ==> ({
            let object = outcome(Function::DecapsulateKey, replies[0]->Decapsulated_0)->Ok_0;
            let value_len = found(replies[1]->Ulong_0, secret_not_found_text())->Ok_0;
            decapsulation_calls(session, private_key, ciphertext, replies) == seq![
                SessionCallView::DecapsulateKey {
                    session: session.handle(),
                    mechanism: CKM_ML_KEM,
                    private_key,
                    secret_template: shared_secret_attributes(),
                    ciphertext,
                },
                SessionCall::ReadLen { session: session.handle(), object, attribute: CKA_VALUE },
                SessionCall::ReadBytes {
                    session: session.handle(),
                    object,
                    attribute: CKA_VALUE,
                    buffer: zeros(value_len as nat),
                },
                SessionCall::DestroyObject { session: session.handle(), object },
            ]
        }),
{
    reveal_with_fuel(run, 6);
    reveal_with_fuel(calls, 6);
}

/// A shared secret that is decapsulated is as long as its object says.
pub proof fn law_decapsulated_length<'a>(
    session: Session,
    private_key: CK_OBJECT_HANDLE,
    ciphertext: &'a [u8],
    replies: Seq<SessionReplyView>,
    secret: Seq<u8>,
)
    requires
        expected(
            |machine: Decapsulation<Seq<u8>>, reply: SessionReplyView| machine.expects(reply),
            |machine: Decapsulation<Seq<u8>>, reply: SessionReplyView| machine.next::<'a>(reply),
            decapsulation_start(session, private_key, ciphertext),
            replies,
        ),
        decapsulates(replies, secret),
    ensures
        secret.len() == found(replies[1]->Ulong_0, secret_not_found_text())->Ok_0,
{
    reveal_with_fuel(expected, 4);
}

/// A decapsulation ends with the error of the first of its calls that fails, or that gives a number
/// it cannot go on with.
pub proof fn law_decapsulation_result<'a>(
    session: Session,
    private_key: CK_OBJECT_HANDLE,
    ciphertext: &'a [u8],
    replies: Seq<SessionReplyView>,
)
    requires
        replies.len() >= 4,
    ensures
        decapsulation_run(session, private_key, ciphertext, replies) == Step::Finish::<
            Decapsulation<Seq<u8>>,
            SessionCallView<'a>,
            HResultView<Seq<u8>>,
        >(
            match outcome(Function::DecapsulateKey, replies[0]->Decapsulated_0) {
                Err(e) => Err(e),
                Ok(_) => secret_read_and_destroyed(replies[1], replies[2], replies[3]),
            },
        ),
{
    reveal_with_fuel(run, 5);
}

/// Where the verification of a signature stands after some replies.
pub open spec fn verification_run<'a>(
    session: Session,
    public_key: CK_OBJECT_HANDLE,
    data: &'a [u8],
    signature: &'a [u8],
    replies: Seq<SessionReplyView>,
) -> Step<Verification<'a>, SessionCallView<'a>, HResultView<bool>> {
    run(
        |machine: Verification<'a>, reply: SessionReplyView| machine.next(reply),
        verification_start(session, public_key, data, signature),
        replies,
    )
}

/// A verdict on a signature is that of `C_Verify` on the same data and signature, after a
/// verification with the same key was set up; without the set-up there is none.
pub proof fn law_verdict_follows_setup<'a>(
    session: Session,
    public_key: CK_OBJECT_HANDLE,
    data: &'a [u8],
    signature: &'a [u8],
    replies: Seq<SessionReplyView>,
)
    requires
        replies.len() >= 2,
    ensures
        verification_run(session, public_key, data, signature, replies) == Step::Finish::<
            Verification<'a>,
            SessionCallView<'a>,
            HResultView<bool>,
        >(
            match outcome(Function::VerifyInit, replies[0]->Status_0) {
                Err(e) => Err(e),
                Ok(_) => verdict(replies[1]->Status_0),
            },
        ),
        outcome(Function::VerifyInit, replies[0]->Status_0) is Ok ==> calls(
            |machine: Verification<'a>, reply: SessionReplyView| machine.next(reply),
            verification_start(session, public_key, data, signature),
            replies,
        ) == seq![
            SessionCallView::VerifyInit {
                session: session.handle(),
                mechanism: CKM_ML_DSA,
                public_key,
            },
            SessionCall::Verify { session: session.handle(), data, signature },
        ],
{
    reveal_with_fuel(run, 4);
    reveal_with_fuel(calls, 4);
}

} // verus!
