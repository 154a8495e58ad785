//! What each operation of the HSM asks and gives, for every sequence of replies.

use pkcs11_sys::CK_OBJECT_HANDLE;
use vstd::prelude::*;

use super::create::aes_key_size;
use super::create::rsa_key_size;
use super::create::AesKeySize;
use super::create::GenerateAesKey;
use super::create::HsmKeypairAlgorithm;
use super::create::KeyCreation;
use super::create::KeyCreationReply;
use super::create::KeyPairCall;
use super::create::KeyPairCreation;
use super::create::KeyPairCreationReplyView;
use super::create::KeyPairReply;
use super::create::KeyPairRequest;
use super::create::KeyRequest;
use super::create::RsaKeySize;
use super::delete::Deletion;
use super::delete::DeletionCall;
use super::delete::DeletionReply;
use super::find::search_start;
use super::find::FindReplyView;
use super::find::Search;
use super::find::SearchCall;
use super::find::SearchReply;
use super::find::SearchView;
use super::laws::deletion_calls;
use super::laws::deletion_run;
use super::laws::key_creation_calls;
use super::laws::key_creation_run;
use super::laws::key_pair_creation_calls;
use super::laws::key_pair_creation_run;
use super::laws::operation_calls;
use super::laws::operation_run;
use super::laws::search_next;
use super::operation::Operation;
use super::operation::Request;
use super::HsmCall;
use super::HsmReply;
use crate::cryptoki::Called;
use crate::cryptoki::SessionCall;
use crate::cryptoki::SessionCallExec;
use crate::cryptoki::SessionCallView;
use crate::cryptoki::SessionReply;
use crate::cryptoki::SessionReplyExec;
use crate::error::HError;
use crate::error::InterfaceError;
use crate::error::InterfaceResult;
use crate::session::laws::generation_calls;
use crate::session::pqc::PqcKeypairAlgorithm;
use crate::step::calls;
use crate::step::run;
use crate::step::Step;
use crate::text::decimal;

verus! {

/// An operation, reply by reply. The slot is got and a session is opened on it for reading and
/// writing. Where the operation is on a key, the key is looked up by its own identifier, and the
/// session is asked for the request as it stands with the handle that was found; else without one.
/// What the session gives comes out. The first call that fails ends the operation with its error,
/// and nothing more is asked.
pub proof fn law_operation_protocol<'a, Q, T>(
    slot_id: usize,
    key_id: Option<&'a [u8]>,
    request: Q,
    replies: Seq<HsmReply<InterfaceResult<T>>>,
)
    requires
        replies.len() >= 4,
    ensures
        ({
            let end = operation_run(slot_id, key_id, request, replies);
            let made = operation_calls(slot_id, key_id, request, replies);
            &&& made.len() >= 1
            &&& made[0] matches HsmCall::GetSlot { slot_id: slot } && slot == slot_id
            &&& match replies[0] {
                HsmReply::Slot(Err(e)) => {
                    &&& end matches Step::Finish(Err(error)) && error == e
                    &&& made.len() == 1
                },
                HsmReply::Slot(Ok(_)) => {
                    &&& made.len() >= 2
                    &&& made[1] matches HsmCall::OpenSession { read_write } && read_write
                    &&& match (replies[1], key_id) {
                        (HsmReply::Session(Err(e)), _) => {
                            &&& end matches Step::Finish(Err(error)) && error == e
                            &&& made.len() == 2
                        },
                        (HsmReply::Session(Ok(_)), None) => {
                            &&& made.len() == 3
                            &&& made[2] == HsmCall::Perform(Request { handle: None, request })
                            &&& replies[2] matches HsmReply::Performed(given) ==> end
                                matches Step::Finish(result) && result == given
                        },
                        (HsmReply::Session(Ok(_)), Some(id)) => {
                            &&& made.len() >= 3
                            &&& made[2] matches HsmCall::GetObjectHandle { id: looked_up } && looked_up == id
                            &&& match replies[2] {
                                HsmReply::Handle(Err(e)) => {
                                    &&& end matches Step::Finish(Err(error)) && error == e
                                    &&& made.len() == 3
                                },
                                HsmReply::Handle(Ok(handle)) => {
                                    &&& made.len() == 4
                                    &&& made[3] == HsmCall::Perform(
                                        Request { handle: Some(handle), request },
                                    )
                                    &&& replies[3] matches HsmReply::Performed(given) ==> end
                                        matches Step::Finish(result) && result == given
                                },
                                _ => true,
                            }
                        },
                        _ => true,
                    }
                },
                _ => true,
            }
        }),
{
    reveal_with_fuel(run, 5);
    reveal_with_fuel(calls, 5);
}

/// AES keys have 128 or 256 bits, and RSA keys 1024, 2048, 3072 or 4096. There is no other size.
pub proof fn law_key_sizes(bits: usize)
    ensures
        match aes_key_size(bits) {
            Some(AesKeySize::Aes128) => bits == 128,
            Some(AesKeySize::Aes256) => bits == 256,
            None => bits != 128 && bits != 256,
        },
        match rsa_key_size(bits) {
            Some(RsaKeySize::Rsa1024) => bits == 1024,
            Some(RsaKeySize::Rsa2048) => bits == 2048,
            Some(RsaKeySize::Rsa3072) => bits == 3072,
            Some(RsaKeySize::Rsa4096) => bits == 4096,
            None => bits != 1024 && bits != 2048 && bits != 3072 && bits != 4096,
        },
{
}

/// The post-quantum algorithm of a key pair is the one with its name, and RSA is none.
pub proof fn law_post_quantum(algorithm: HsmKeypairAlgorithm)
    ensures
        match algorithm {
            HsmKeypairAlgorithm::RSA => algorithm.post_quantum() is None,
            HsmKeypairAlgorithm::MlKem512 => algorithm.post_quantum() == Some(
                PqcKeypairAlgorithm::MlKem512,
            ),
            HsmKeypairAlgorithm::MlKem768 => algorithm.post_quantum() == Some(
                PqcKeypairAlgorithm::MlKem768,
            ),
            HsmKeypairAlgorithm::MlKem1024 => algorithm.post_quantum() == Some(
                PqcKeypairAlgorithm::MlKem1024,
            ),
            HsmKeypairAlgorithm::MlDsa44 => algorithm.post_quantum() == Some(
                PqcKeypairAlgorithm::MlDsa44,
            ),
            HsmKeypairAlgorithm::MlDsa65 => algorithm.post_quantum() == Some(
                PqcKeypairAlgorithm::MlDsa65,
            ),
            HsmKeypairAlgorithm::MlDsa87 => algorithm.post_quantum() == Some(
                PqcKeypairAlgorithm::MlDsa87,
            ),
        },
{
}

/// The creation of a secret key, reply by reply. Its identifier is looked up, and a key is generated
/// only where nothing is found: an AES key of 128 or 256 bits, under that identifier and as
/// sensitive as asked for. Any other length is refused, and the message names it.
pub proof fn law_key_creation_protocol<'a>(
    slot_id: usize,
    request: KeyRequest<'a>,
    replies: Seq<KeyCreationReply>,
)
    requires
        replies.len() >= 4,
    ensures
        ({
            let end = key_creation_run(slot_id, request, replies);
            let made = key_creation_calls(slot_id, request, replies);
            let bits = request.key_length_in_bits;
            &&& made.len() >= 1
            &&& made[0] matches HsmCall::GetSlot { slot_id: slot } && slot == slot_id
            &&& match replies[0] {
                HsmReply::Slot(Err(e)) => {
                    &&& end matches Step::Finish(Err(error)) && error == e@
                    &&& made.len() == 1
                },
                HsmReply::Slot(Ok(_)) => {
                    &&& made.len() >= 2
                    &&& made[1] matches HsmCall::OpenSession { read_write } && read_write
                    &&& match replies[1] {
                        HsmReply::Session(Err(e)) => {
                            &&& end matches Step::Finish(Err(error)) && error == e@
                            &&& made.len() == 2
                        },
                        HsmReply::Session(Ok(_)) => {
                            &&& made.len() >= 3
                            &&& made[2] matches HsmCall::GetObjectHandle { id: looked_up } && looked_up == request.id
                            &&& match replies[2] {
                                HsmReply::Handle(Ok(_)) => {
                                    &&& end matches Step::Finish(
                                        Err(InterfaceError::Default(message)),
                                    )
                                    &&& message == "A secret key with this id already exists"@
                                    &&& made.len() == 3
                                },
                                HsmReply::Handle(Err(_)) => if bits != 128 && bits != 256 {
                                    &&& end matches Step::Finish(
                                        Err(InterfaceError::Default(message)),
                                    )
                                    &&& message == "Invalid key length: "@ + decimal(bits as nat)
                                        + " bits, for and HSM AES key"@
                                    &&& made.len() == 3
                                } else {
                                    &&& made.len() == 4
                                    &&& made[3] matches HsmCall::Perform(key)
                                    &&& key.id == request.id
                                    &&& key.sensitive == request.sensitive
                                    &&& key.size == if bits == 128 {
                                        AesKeySize::Aes128
                                    } else {
                                        AesKeySize::Aes256
                                    }
                                    &&& match replies[3] {
                                        HsmReply::Performed(Ok(_)) => {
                                            end matches Step::Finish(Ok(_))
                                        },
                                        HsmReply::Performed(Err(e)) => {
                                            end matches Step::Finish(Err(error)) && error == e@
                                        },
                                        _ => true,
                                    }
                                },
                                _ => true,
                            }
                        },
                        _ => true,
                    }
                },
                _ => true,
            }
        }),
{
    reveal_with_fuel(run, 5);
    reveal_with_fuel(calls, 5);
}

/// The creation of a key pair, up to its generation. Both identifiers are looked up, that of the
/// private key first, and a key pair is generated only where neither is found. An RSA key pair has
/// 1024, 2048, 3072 or 4096 bits, and any other length is refused, with a message that names it. A
/// post-quantum key pair is generated whatever the length is.
pub proof fn law_key_pair_creation_protocol<'a>(
    slot_id: usize,
    request: KeyPairRequest<'a>,
    replies: Seq<KeyPairCreationReplyView>,
)
    requires
        replies.len() >= 5,
    ensures
        ({
            let end = key_pair_creation_run(slot_id, request, replies);
            let made = key_pair_creation_calls(slot_id, request, replies);
            let bits = request.key_length_in_bits;
            &&& made.len() >= 1
            &&& made[0] matches HsmCall::GetSlot { slot_id: slot } && slot == slot_id
            &&& match replies[0] {
                HsmReply::Slot(Err(e)) => {
                    &&& end matches Step::Finish(Err(error)) && error == e@
                    &&& made.len() == 1
                },
                HsmReply::Slot(Ok(_)) => {
                    &&& made.len() >= 2
                    &&& made[1] matches HsmCall::OpenSession { read_write } && read_write
                    &&& match replies[1] {
                        HsmReply::Session(Err(e)) => {
                            &&& end matches Step::Finish(Err(error)) && error == e@
                            &&& made.len() == 2
                        },
                        HsmReply::Session(Ok(session)) => {
                            &&& made.len() >= 3
                            &&& made[2] matches HsmCall::GetObjectHandle { id: looked_up } && looked_up == request.sk_id
                            &&& match (replies[2], replies[3]) {
                                (HsmReply::Handle(Ok(_)), _) => {
                                    &&& end matches Step::Finish(
                                        Err(InterfaceError::Default(message)),
                                    )
                                    &&& message == "A private key with this ID already exists"@
                                    &&& made.len() == 3
                                },
                                (HsmReply::Handle(Err(_)), HsmReply::Handle(Ok(_))) => {
                                    &&& made.len() == 4
                                    &&& made[3] matches HsmCall::GetObjectHandle { id: looked_up } && looked_up == request.pk_id
                                    &&& end matches Step::Finish(
                                        Err(InterfaceError::Default(message)),
                                    )
                                    &&& message
                                        == "A public key with this ID and the '_pk' suffix already exists"@
                                },
                                (HsmReply::Handle(Err(_)), HsmReply::Handle(Err(_))) => {
                                    &&& made.len() >= 4
                                    &&& made[3] matches HsmCall::GetObjectHandle { id: looked_up } && looked_up == request.pk_id
                                    &&& match request.algorithm {
                                        HsmKeypairAlgorithm::RSA => if bits != 1024 && bits != 2048
                                            && bits != 3072 && bits != 4096 {
                                            &&& end matches Step::Finish(
                                                Err(InterfaceError::Default(message)),
                                            )
                                            &&& message == "Invalid key length: "@ + decimal(
                                                bits as nat,
                                            )
                                                + " bits, for and HSM RSA key (valid values are 1024, 2048, 3072, 4096)"@
                                            &&& made.len() == 4
                                        } else {
                                            &&& made.len() == 5
                                            &&& made[4] matches HsmCall::Perform(
                                                KeyPairCall::GenerateRsa {
                                                    sk_id,
                                                    pk_id,
                                                    size,
                                                    sensitive,
                                                },
                                            )
                                            &&& sk_id == request.sk_id
                                            &&& pk_id == request.pk_id
                                            &&& sensitive == request.sensitive
                                            &&& size == if bits == 1024 {
                                                RsaKeySize::Rsa1024
                                            } else if bits == 2048 {
                                                RsaKeySize::Rsa2048
                                            } else if bits == 3072 {
                                                RsaKeySize::Rsa3072
                                            } else {
                                                RsaKeySize::Rsa4096
                                            }
                                            &&& match replies[4] {
                                                HsmReply::Performed(KeyPairReply::Rsa(Ok(_))) => {
                                                    end matches Step::Finish(Ok(_))
                                                },
                                                HsmReply::Performed(KeyPairReply::Rsa(Err(e))) => {
                                                    end matches Step::Finish(Err(error)) && error
                                                        == e@
                                                },
                                                _ => true,
                                            }
                                        },
                                        HsmKeypairAlgorithm::MlKem512 => generates(
                                            made,
                                            session,
                                            request,
                                            PqcKeypairAlgorithm::MlKem512,
                                        ),
                                        HsmKeypairAlgorithm::MlKem768 => generates(
                                            made,
                                            session,
                                            request,
                                            PqcKeypairAlgorithm::MlKem768,
                                        ),
                                        HsmKeypairAlgorithm::MlKem1024 => generates(
                                            made,
                                            session,
                                            request,
                                            PqcKeypairAlgorithm::MlKem1024,
                                        ),
                                        HsmKeypairAlgorithm::MlDsa44 => generates(
                                            made,
                                            session,
                                            request,
                                            PqcKeypairAlgorithm::MlDsa44,
                                        ),
                                        HsmKeypairAlgorithm::MlDsa65 => generates(
                                            made,
                                            session,
                                            request,
                                            PqcKeypairAlgorithm::MlDsa65,
                                        ),
                                        HsmKeypairAlgorithm::MlDsa87 => generates(
                                            made,
                                            session,
                                            request,
                                            PqcKeypairAlgorithm::MlDsa87,
                                        ),
                                    }
                                },
                                _ => true,
                            }
                        },
                        _ => true,
                    }
                },
                _ => true,
            }
        }),
{
    reveal_with_fuel(run, 6);
    reveal_with_fuel(calls, 6);
    if let HsmReply::Session(Ok(session)) = replies[1] {
        if let Some(algorithm) = request.algorithm.post_quantum() {
            assert(generation_calls(
                session,
                request.sk_id,
                request.pk_id,
                algorithm,
                request.sensitive,
                seq![],
            ).len() == 1);
        }
    }
}

/// Whether the fifth call of a creation is the first of the generation of a key pair with this
/// algorithm, on this session, under the identifiers of the request and as sensitive as it asks for.
pub open spec fn generates<'a>(
    made: Seq<HsmCall<'a, KeyPairCall<'a, SessionCallView<'a>>>>,
    session: crate::session::Session,
    request: KeyPairRequest<'a>,
    algorithm: PqcKeypairAlgorithm,
) -> bool {
    &&& made.len() >= 5
    &&& made[4] == HsmCall::Perform(
        KeyPairCall::Pqc(
            generation_calls(
                session,
                request.sk_id,
                request.pk_id,
                algorithm,
                request.sensitive,
                seq![],
            )[0],
        ),
    )
}

/// The generation of a post-quantum key pair that is created, reply by reply: a failure ends it with
/// its message, and else the private key is remembered under its identifier and then the public key
/// under its own.
pub proof fn law_pqc_generation_protocol<'a>(
    slot_id: usize,
    request: KeyPairRequest<'a>,
    replies: Seq<KeyPairCreationReplyView>,
)
    requires
        replies.len() >= 7,
        request.algorithm != HsmKeypairAlgorithm::RSA,
        replies[0] matches HsmReply::Slot(Ok(_)),
        replies[1] matches HsmReply::Session(Ok(_)),
        replies[2] matches HsmReply::Handle(Err(_)),
        replies[3] matches HsmReply::Handle(Err(_)),
    ensures
        ({
            let end = key_pair_creation_run(slot_id, request, replies);
            let made = key_pair_creation_calls(slot_id, request, replies);
            match replies[4] {
                HsmReply::Performed(
                    KeyPairReply::Pqc(SessionReply::KeyPair(Called::NotAvailable)),
                ) => {
                    &&& end matches Step::Finish(
                        Err(InterfaceError::Session(HError::Default(message))),
                    )
                    &&& message == "C_GenerateKeyPair"@ + " not available on library"@
                    &&& made.len() == 5
                },
                HsmReply::Performed(
                    KeyPairReply::Pqc(SessionReply::KeyPair(Called::Returned(rv, handles))),
                ) => if rv != 0 {
                    &&& end matches Step::Finish(
                        Err(InterfaceError::Session(HError::Default(message))),
                    )
                    &&& message == "Failed generating PQC key pair"@ + ". Return code: "@ + decimal(
                        rv as nat,
                    )
                    &&& made.len() == 5
                } else {
                    &&& made.len() >= 6
                    &&& made[5] matches HsmCall::Perform(
                        KeyPairCall::Pqc(SessionCall::CacheObjectHandle { id, handle }),
                    )
                    &&& id == request.sk_id
                    &&& handle == handles.private_key
                    &&& match replies[5] {
                        HsmReply::Performed(KeyPairReply::Pqc(SessionReply::Done(Err(e)))) => {
                            &&& end matches Step::Finish(Err(InterfaceError::Session(error)))
                            &&& error == e@
                            &&& made.len() == 6
                        },
                        HsmReply::Performed(KeyPairReply::Pqc(SessionReply::Done(Ok(_)))) => {
                            &&& made.len() == 7
                            &&& made[6] matches HsmCall::Perform(
                                KeyPairCall::Pqc(SessionCall::CacheObjectHandle { id, handle }),
                            )
                            &&& id == request.pk_id
                            &&& handle == handles.public_key
                            &&& match replies[6] {
                                HsmReply::Performed(
                                    KeyPairReply::Pqc(SessionReply::Done(Err(e))),
                                ) => {
                                    &&& end matches Step::Finish(
                                        Err(InterfaceError::Session(error)),
                                    )
                                    &&& error == e@
                                },
                                HsmReply::Performed(
                                    KeyPairReply::Pqc(SessionReply::Done(Ok(_))),
                                ) => end matches Step::Finish(Ok(_)),
                                _ => true,
                            }
                        },
                        _ => true,
                    }
                },
                _ => true,
            }
        }),
{
    reveal_with_fuel(run, 8);
    reveal_with_fuel(calls, 8);
}

/// The deletion of an object, reply by reply. The object is looked up by its identifier, the object
/// with the handle that was found is destroyed, and then the handle under the identifier is
/// forgotten. The first call that fails ends the deletion with its error, and nothing more is asked.
pub proof fn law_deletion_protocol<'a>(
    slot_id: usize,
    object_id: &'a [u8],
    replies: Seq<DeletionReply>,
)
    requires
        replies.len() >= 5,
    ensures
        ({
            let end = deletion_run(slot_id, object_id, replies);
            let made = deletion_calls(slot_id, object_id, replies);
            &&& made.len() >= 1
            &&& made[0] matches HsmCall::GetSlot { slot_id: slot } && slot == slot_id
            &&& match replies[0] {
                HsmReply::Slot(Err(e)) => {
                    &&& end matches Step::Finish(Err(error)) && error == e
                    &&& made.len() == 1
                },
                HsmReply::Slot(Ok(_)) => {
                    &&& made.len() >= 2
                    &&& made[1] matches HsmCall::OpenSession { read_write } && read_write
                    &&& match replies[1] {
                        HsmReply::Session(Err(e)) => {
                            &&& end matches Step::Finish(Err(error)) && error == e
                            &&& made.len() == 2
                        },
                        HsmReply::Session(Ok(_)) => {
                            &&& made.len() >= 3
                            &&& made[2] matches HsmCall::GetObjectHandle { id: looked_up } && looked_up == object_id
                            &&& match replies[2] {
                                HsmReply::Handle(Err(e)) => {
                                    &&& end matches Step::Finish(Err(error)) && error == e
                                    &&& made.len() == 3
                                },
                                HsmReply::Handle(Ok(handle)) => {
                                    &&& made.len() >= 4
                                    &&& made[3] == HsmCall::Perform(
                                        DeletionCall::DestroyObject { handle },
                                    )
                                    &&& match replies[3] {
                                        HsmReply::Performed(Err(e)) => {
                                            &&& end matches Step::Finish(Err(error)) && error == e
                                            &&& made.len() == 4
                                        },
                                        HsmReply::Performed(Ok(_)) => {
                                            &&& made.len() == 5
                                            &&& made[4] == HsmCall::Perform(
                                                DeletionCall::DeleteObjectHandle { id: object_id },
                                            )
                                            &&& replies[4] matches HsmReply::Performed(given) ==> end
                                                matches Step::Finish(result) && result == given
                                        },
                                        _ => true,
                                    }
                                },
                                _ => true,
                            }
                        },
                        _ => true,
                    }
                },
                _ => true,
            }
        }),
{
    reveal_with_fuel(run, 6);
    reveal_with_fuel(calls, 6);
}

/// The beginning of a search, reply by reply: the objects that pass the filter are listed on a
/// session on the slot. A failure ends the search with its error, and nothing more is asked; where
/// nothing is listed, nothing is found.
pub proof fn law_search_protocol<'a, F>(slot_id: usize, filter: F, replies: Seq<FindReplyView>)
    requires
        replies.len() >= 3,
    ensures
        ({
            let start = search_start::<'a, F>(slot_id, filter);
            let end = run(search_next(), start, replies);
            let made = calls(search_next(), start, replies);
            &&& made.len() >= 1
            &&& made[0] matches HsmCall::GetSlot { slot_id: slot } && slot == slot_id
            &&& match replies[0] {
                HsmReply::Slot(Err(e)) => {
                    &&& end matches Step::Finish(Err(error)) && error == e@
                    &&& made.len() == 1
                },
                HsmReply::Slot(Ok(_)) => {
                    &&& made.len() >= 2
                    &&& made[1] matches HsmCall::OpenSession { read_write } && read_write
                    &&& match replies[1] {
                        HsmReply::Session(Err(e)) => {
                            &&& end matches Step::Finish(Err(error)) && error == e@
                            &&& made.len() == 2
                        },
                        HsmReply::Session(Ok(_)) => {
                            &&& made.len() >= 3
                            &&& made[2] matches HsmCall::Perform(SearchCall::ListObjects { filter: f })
                            &&& f == filter
                            &&& match replies[2] {
                                HsmReply::Performed(SearchReply::Objects(Err(e))) => {
                                    &&& end matches Step::Finish(Err(error)) && error == e@
                                    &&& made.len() == 3
                                },
                                HsmReply::Performed(SearchReply::Objects(Ok(handles))) => {
                                    if handles.len() == 0 {
                                        &&& end matches Step::Finish(Ok(ids)) && ids.len() == 0
                                        &&& made.len() == 3
                                    } else {
                                        &&& made.len() >= 4
                                        &&& made[3] matches HsmCall::Perform(
                                            SearchCall::GetObjectId { handle },
                                        )
                                        &&& handle == handles[0]
                                    }
                                },
                                _ => true,
                            }
                        },
                        _ => true,
                    }
                },
                _ => true,
            }
        }),
{
    reveal_with_fuel(run, 4);
    reveal_with_fuel(calls, 4);
}

/// How a search goes on with an object that was listed. An identifier that can be read is kept, and
/// the handle of this very object is remembered under it; an object without one is passed over.
/// Whether the handle could be remembered or not, the next object follows, and after the last the
/// identifiers that were kept come out, in the order in which they were read.
pub proof fn law_search_step<'a, F>(search: SearchView<F>, reply: FindReplyView)
    requires
        search.valid(),
        search.expects(reply),
    ensures
        ({
            let after = search.next::<'a>(reply);
            match (search, reply) {
                (
                    Search::Reading { handles, position, object_ids },
                    HsmReply::Performed(SearchReply::ObjectId(Ok(Some(name)))),
                ) => {
                    &&& after matches Step::Call(
                        Search::Caching { handles: h, position: p, object_ids: kept },
                        HsmCall::Perform(SearchCall::CacheObjectHandle { id, handle }),
                    )
                    &&& h == handles
                    &&& p == position
                    &&& kept == object_ids.push(name)
                    &&& id == name@
                    &&& handle == handles[position as int]
                },
                (
                    Search::Reading { handles, position, object_ids },
                    HsmReply::Performed(SearchReply::ObjectId(_)),
                ) => goes_on(after, handles, position, object_ids),
                (
                    Search::Caching { handles, position, object_ids },
                    HsmReply::Performed(SearchReply::Cached(_)),
                ) => goes_on(after, handles, position, object_ids),
                _ => true,
            }
        }),
{
}

/// Whether a search goes on with the object behind the one at `position`, or ends there.
pub open spec fn goes_on<'a, F>(
    after: super::find::SearchStepView<'a, F>,
    handles: Seq<CK_OBJECT_HANDLE>,
    position: usize,
    object_ids: Seq<Vec<u8>>,
) -> bool {
    if position + 1 < handles.len() {
        &&& after matches Step::Call(
            Search::Reading { handles: h, position: p, object_ids: kept },
            HsmCall::Perform(SearchCall::GetObjectId { handle }),
        )
        &&& h == handles
        &&& p == position + 1
        &&& kept == object_ids
        &&& handle == handles[position + 1]
    } else {
        after matches Step::Finish(Ok(ids)) && ids == object_ids
    }
}

/// Contracts speak of a call of an operation as it is made.
pub proof fn law_hsm_call_is_seen_whole<'a, Q: View>(call: HsmCall<'a, Q>)
    ensures
        match (call, call@) {
            (HsmCall::GetSlot { slot_id: s }, HsmCall::GetSlot { slot_id }) => s == slot_id,
            (HsmCall::OpenSession { read_write: r }, HsmCall::OpenSession { read_write }) => r
                == read_write,
            (HsmCall::GetObjectHandle { id: i }, HsmCall::GetObjectHandle { id }) => i == id,
            (HsmCall::Perform(q), HsmCall::Perform(request)) => q@ == request,
            _ => false,
        },
{
}

/// Contracts speak of a reply to an operation as it is received.
pub proof fn law_hsm_reply_is_seen_whole<T: View>(reply: HsmReply<T>)
    ensures
        match (reply, reply@) {
            (HsmReply::Slot(received), HsmReply::Slot(seen)) => received == seen,
            (HsmReply::Session(received), HsmReply::Session(seen)) => received == seen,
            (HsmReply::Handle(received), HsmReply::Handle(seen)) => received == seen,
            (HsmReply::Performed(received), HsmReply::Performed(seen)) => received@ == seen,
            _ => false,
        },
{
}

/// Contracts speak of what is asked to create keys, and of the replies, as they are.
pub proof fn law_creation_is_seen_whole<'a>(
    key: GenerateAesKey<'a>,
    call: KeyPairCall<'a, SessionCallExec<'a>>,
    reply: KeyPairReply<SessionReplyExec>,
)
    ensures
        key@ == key,
        match (call, call@) {
            (
                KeyPairCall::GenerateRsa { sk_id: a, pk_id: b, size: c, sensitive: d },
                KeyPairCall::GenerateRsa { sk_id, pk_id, size, sensitive },
            ) => a == sk_id && b == pk_id && c == size && d == sensitive,
            (KeyPairCall::Pqc(made), KeyPairCall::Pqc(seen)) => made@ == seen,
            _ => false,
        },
        match (reply, reply@) {
            (KeyPairReply::Rsa(received), KeyPairReply::Rsa(seen)) => received == seen,
            (KeyPairReply::Pqc(received), KeyPairReply::Pqc(seen)) => received@ == seen,
            _ => false,
        },
{
}

/// Contracts speak of what a search asks, and of the replies, as they are.
pub proof fn law_search_is_seen_whole<F>(
    call: SearchCall<F, Vec<u8>>,
    reply: SearchReply<Vec<CK_OBJECT_HANDLE>>,
)
    ensures
        match (call, call@) {
            (SearchCall::ListObjects { filter: f }, SearchCall::ListObjects { filter }) => f
                == filter,
            (SearchCall::GetObjectId { handle: h }, SearchCall::GetObjectId { handle }) => h
                == handle,
            (
                SearchCall::CacheObjectHandle { id: i, handle: h },
                SearchCall::CacheObjectHandle { id, handle },
            ) => i@ == id && h == handle,
            _ => false,
        },
        match (reply, reply@) {
            (SearchReply::Objects(Ok(received)), SearchReply::Objects(Ok(seen))) => received@
                == seen,
            (SearchReply::Objects(Err(received)), SearchReply::Objects(Err(seen))) => received
                == seen,
            (SearchReply::ObjectId(received), SearchReply::ObjectId(seen)) => received == seen,
            (SearchReply::Cached(received), SearchReply::Cached(seen)) => received == seen,
            _ => false,
        },
{
}

/// Every reply of the kind that a call asks for is one that the operation goes on with.
pub proof fn law_operations_take_every_reply<'a, Q, T, F>(
    operation: Operation<'a, Q>,
    given: HsmReply<InterfaceResult<T>>,
    key: KeyCreation<'a>,
    key_reply: KeyCreationReply,
    pair: KeyPairCreation<'a>,
    pair_reply: KeyPairCreationReplyView,
    deletion: Deletion<'a>,
    deletion_reply: DeletionReply,
    search: SearchView<F>,
    search_reply: FindReplyView,
)
    ensures
        operation.expects(given) == match operation {
            Operation::GettingSlot { .. } => given is Slot,
            Operation::OpeningSession { .. } => given is Session,
            Operation::FindingKey { .. } => given is Handle,
            Operation::Performing => given is Performed,
        },
        key.expects(key_reply) == match key {
            KeyCreation::GettingSlot(_) => key_reply is Slot,
            KeyCreation::OpeningSession(_) => key_reply is Session,
            KeyCreation::Checking(_) => key_reply is Handle,
            KeyCreation::Generating => key_reply is Performed,
        },
        pair.expects(pair_reply) == match pair {
            KeyPairCreation::GettingSlot(_) => pair_reply is Slot,
            KeyPairCreation::OpeningSession(_) => pair_reply is Session,
            KeyPairCreation::CheckingPrivateKey(_, _) => pair_reply is Handle,
            KeyPairCreation::CheckingPublicKey(_, _) => pair_reply is Handle,
            KeyPairCreation::GeneratingRsa => pair_reply matches HsmReply::Performed(
                KeyPairReply::Rsa(_),
            ),
            KeyPairCreation::GeneratingPqc(generation) => match pair_reply {
                HsmReply::Performed(KeyPairReply::Pqc(reply)) => generation.expects(reply),
                _ => false,
            },
        },
        deletion.expects(deletion_reply) == match deletion {
            Deletion::GettingSlot { .. } => deletion_reply is Slot,
            Deletion::OpeningSession { .. } => deletion_reply is Session,
            Deletion::FindingObject { .. } => deletion_reply is Handle,
            Deletion::Destroying { .. } => deletion_reply is Performed,
            Deletion::Forgetting => deletion_reply is Performed,
        },
        search.expects(search_reply) == match search {
            Search::GettingSlot { .. } => search_reply is Slot,
            Search::OpeningSession { .. } => search_reply is Session,
            Search::Listing => search_reply matches HsmReply::Performed(SearchReply::Objects(_)),
            Search::Reading { .. } => search_reply matches HsmReply::Performed(
                SearchReply::ObjectId(_),
            ),
            Search::Caching { .. } => search_reply matches HsmReply::Performed(
                SearchReply::Cached(_),
            ),
        },
{
}

} // verus!
