//! What holds of whole operations.

use pkcs11_sys::CK_OBJECT_HANDLE;
use vstd::prelude::*;

use super::create::aes_key_size;
use super::create::key_creation_start;
use super::create::key_pair_creation_start;
use super::create::rsa_key_size;
use super::create::GenerateAesKey;
use super::create::KeyCreation;
use super::create::KeyCreationReply;
use super::create::KeyCreationStepView;
use super::create::KeyPairCall;
use super::create::KeyPairCreation;
use super::create::KeyPairCreationReplyView;
use super::create::KeyPairCreationStepView;
use super::create::KeyPairRequest;
use super::create::KeyRequest;
use super::delete::deletion_start;
use super::delete::Deletion;
use super::delete::DeletionCall;
use super::delete::DeletionReply;
use super::delete::DeletionStep;
use super::find::reading;
use super::find::search_start;
use super::find::FindReplyView;
use super::find::Search;
use super::find::SearchCall;
use super::find::SearchStepView;
use super::find::SearchView;
use super::operation::operation_start;
use super::operation::Operation;
use super::operation::OperationStep;
use super::operation::Request;
use super::HsmCall;
use super::HsmReply;
use crate::cryptoki::SessionCall;
use crate::cryptoki::SessionCallView;
use crate::error::invalid_aes_key_length_text;
use crate::error::invalid_rsa_key_length_text;
use crate::error::private_key_exists_text;
use crate::error::public_key_exists_text;
use crate::error::secret_key_exists_text;
use crate::error::Function;
use crate::error::InterfaceError;
use crate::error::InterfaceErrorView;
use crate::error::InterfaceResult;
use crate::error::InterfaceResultView;
use crate::session::keypair::private_key_attributes;
use crate::session::keypair::public_key_attributes;
use crate::session::outcome;
use crate::step::calls;
use crate::step::run;
use crate::step::Step;

verus! {

/// Where an operation stands after some replies.
pub open spec fn operation_run<'a, Q, T>(
    slot_id: usize,
    key_id: Option<&'a [u8]>,
    request: Q,
    replies: Seq<HsmReply<InterfaceResult<T>>>,
) -> OperationStep<'a, Q, T> {
    run(
        |operation: Operation<'a, Q>, reply: HsmReply<InterfaceResult<T>>| operation.next(reply),
        operation_start(slot_id, key_id, request),
        replies,
    )
}

/// The calls that an operation makes.
pub open spec fn operation_calls<'a, Q, T>(
    slot_id: usize,
    key_id: Option<&'a [u8]>,
    request: Q,
    replies: Seq<HsmReply<InterfaceResult<T>>>,
) -> Seq<HsmCall<'a, Request<Q>>> {
    calls(
        |operation: Operation<'a, Q>, reply: HsmReply<InterfaceResult<T>>| operation.next(reply),
        operation_start::<Q, T>(slot_id, key_id, request),
        replies,
    )
}

/// An operation on a key gives what the session gives for the key that the identifier names, or the
/// error of the first call that fails.
pub proof fn law_operation_on_key<'a, Q, T>(
    slot_id: usize,
    key_id: &'a [u8],
    request: Q,
    replies: Seq<HsmReply<InterfaceResult<T>>>,
)
    requires
        replies.len() >= 4,
    ensures
        operation_run(slot_id, Some(key_id), request, replies) == Step::Finish::<
            Operation<'a, Q>,
            HsmCall<'a, Request<Q>>,
            InterfaceResult<T>,
        >(
            match (replies[0]->Slot_0, replies[1]->Session_0, replies[2]->Handle_0) {
                (Err(e), _, _) => Err(e),
                (Ok(_), Err(e), _) => Err(e),
                (Ok(_), Ok(_), Err(e)) => Err(e),
                (Ok(_), Ok(_), Ok(_)) => replies[3]->Performed_0,
            },
        ),
        replies[0]->Slot_0 is Ok && replies[1]->Session_0 is Ok && replies[2]->Handle_0 is Ok ==> operation_calls(
            slot_id,
            Some(key_id),
            request,
            replies,
        ) == seq![
            HsmCall::GetSlot { slot_id },
            HsmCall::OpenSession { read_write: true },
            HsmCall::GetObjectHandle { id: key_id },
            HsmCall::Perform(Request { handle: Some(replies[2]->Handle_0->Ok_0), request }),
        ],
{
    reveal_with_fuel(run, 5);
    reveal_with_fuel(calls, 5);
}

/// An operation on no key gives what the session gives, or the error of the first call that fails.
pub proof fn law_operation_on_session<'a, Q, T>(
    slot_id: usize,
    request: Q,
    replies: Seq<HsmReply<InterfaceResult<T>>>,
)
    requires
        replies.len() >= 3,
    ensures
        operation_run(slot_id, None::<&'a [u8]>, request, replies) == Step::Finish::<
            Operation<'a, Q>,
            HsmCall<'a, Request<Q>>,
            InterfaceResult<T>,
        >(
            match (replies[0]->Slot_0, replies[1]->Session_0) {
                (Err(e), _) => Err(e),
                (Ok(_), Err(e)) => Err(e),
                (Ok(_), Ok(_)) => replies[2]->Performed_0,
            },
        ),
        replies[0]->Slot_0 is Ok && replies[1]->Session_0 is Ok ==> operation_calls(
            slot_id,
            None::<&'a [u8]>,
            request,
            replies,
        ) == seq![
            HsmCall::GetSlot { slot_id },
            HsmCall::OpenSession { read_write: true },
            HsmCall::Perform(Request { handle: None, request }),
        ],
{
    reveal_with_fuel(run, 4);
    reveal_with_fuel(calls, 4);
}

/// Where the creation of a secret key stands after some replies.
pub open spec fn key_creation_run<'a>(
    slot_id: usize,
    request: KeyRequest<'a>,
    replies: Seq<KeyCreationReply>,
) -> KeyCreationStepView<'a> {
    run(
        |creation: KeyCreation<'a>, reply: KeyCreationReply| creation.next(reply),
        key_creation_start(slot_id, request),
        replies,
    )
}

/// The calls that the creation of a secret key makes.
pub open spec fn key_creation_calls<'a>(
    slot_id: usize,
    request: KeyRequest<'a>,
    replies: Seq<KeyCreationReply>,
) -> Seq<HsmCall<'a, GenerateAesKey<'a>>> {
    calls(
        |creation: KeyCreation<'a>, reply: KeyCreationReply| creation.next(reply),
        key_creation_start(slot_id, request),
        replies,
    )
}

/// A secret key is created where its identifier is free and its length is one that AES keys have. A
/// taken identifier is refused whatever the length is.
pub proof fn law_key_creation<'a>(
    slot_id: usize,
    request: KeyRequest<'a>,
    replies: Seq<KeyCreationReply>,
)
    requires
        replies.len() >= 4,
    ensures
        key_creation_run(slot_id, request, replies) == Step::Finish::<
            KeyCreation<'a>,
            HsmCall<'a, GenerateAesKey<'a>>,
            InterfaceResultView<()>,
        >(
            match (replies[0]->Slot_0, replies[1]->Session_0, replies[2]->Handle_0) {
                (Err(e), _, _) => Err(e@),
                (Ok(_), Err(e), _) => Err(e@),
                (Ok(_), Ok(_), Ok(_)) => Err(InterfaceError::Default(secret_key_exists_text())),
                (Ok(_), Ok(_), Err(_)) => match aes_key_size(request.key_length_in_bits) {
                    Some(_) => match replies[3]->Performed_0 {
                        Ok(_) => Ok(()),
                        Err(e) => Err(e@),
                    },
                    None => Err(
                        InterfaceError::Default(
                            invalid_aes_key_length_text(request.key_length_in_bits),
                        ),
                    ),
                },
            },
        ),
{
    reveal_with_fuel(run, 5);
}

/// The creation of a secret key asks for a key to be generated only where the identifier was looked
/// up and is free, and the key is then generated as requested.
pub proof fn law_key_generated_only_if_free<'a>(
    slot_id: usize,
    request: KeyRequest<'a>,
    replies: Seq<KeyCreationReply>,
    i: int,
)
    requires
        0 <= i < key_creation_calls(slot_id, request, replies).len(),
        key_creation_calls(slot_id, request, replies)[i] is Perform,
    ensures
        replies[2]->Handle_0 is Err,
        aes_key_size(request.key_length_in_bits) is Some,
        key_creation_calls(slot_id, request, replies) == seq![
            HsmCall::GetSlot { slot_id },
            HsmCall::OpenSession { read_write: true },
            HsmCall::GetObjectHandle { id: request.id },
            HsmCall::Perform(
                GenerateAesKey {
                    id: request.id,
                    size: aes_key_size(request.key_length_in_bits)->0,
                    sensitive: request.sensitive,
                },
            ),
        ],
{
    reveal_with_fuel(calls, 6);
}

/// Where the creation of a key pair stands after some replies.
pub open spec fn key_pair_creation_run<'a>(
    slot_id: usize,
    request: KeyPairRequest<'a>,
    replies: Seq<KeyPairCreationReplyView>,
) -> KeyPairCreationStepView<'a> {
    run(
        |creation: KeyPairCreation<'a>, reply: KeyPairCreationReplyView| creation.next(reply),
        key_pair_creation_start(slot_id, request),
        replies,
    )
}

/// The calls that the creation of a key pair makes.
pub open spec fn key_pair_creation_calls<'a>(
    slot_id: usize,
    request: KeyPairRequest<'a>,
    replies: Seq<KeyPairCreationReplyView>,
) -> Seq<HsmCall<'a, KeyPairCall<'a, SessionCallView<'a>>>> {
    calls(
        |creation: KeyPairCreation<'a>, reply: KeyPairCreationReplyView| creation.next(reply),
        key_pair_creation_start(slot_id, request),
        replies,
    )
}

/// The error with which the creation of a key pair is refused before anything is generated.
pub open spec fn key_pair_refusal(
    request: KeyPairRequest,
    replies: Seq<KeyPairCreationReplyView>,
) -> Option<InterfaceErrorView> {
    match (
        replies[0]->Slot_0,
        replies[1]->Session_0,
        replies[2]->Handle_0,
        replies[3]->Handle_0,
    ) {
        (Err(e), _, _, _) => Some(e@),
        (Ok(_), Err(e), _, _) => Some(e@),
        (Ok(_), Ok(_), Ok(_), _) => Some(InterfaceError::Default(private_key_exists_text())),
        (Ok(_), Ok(_), Err(_), Ok(_)) => Some(InterfaceError::Default(public_key_exists_text())),
        (Ok(_), Ok(_), Err(_), Err(_)) => if request.algorithm is RSA && rsa_key_size(
            request.key_length_in_bits,
        ) is None {
            Some(InterfaceError::Default(invalid_rsa_key_length_text(request.key_length_in_bits)))
        } else {
            None
        },
    }
}

/// A key pair that is refused is not generated: a taken identifier is refused whatever the length
/// is, that of the private key before that of the public key, and a length that no RSA key has is
/// refused.
pub proof fn law_refused_key_pair_is_not_generated<'a>(
    slot_id: usize,
    request: KeyPairRequest<'a>,
    replies: Seq<KeyPairCreationReplyView>,
)
    requires
        replies.len() >= 4,
        key_pair_refusal(request, replies) is Some,
    ensures
        key_pair_creation_run(slot_id, request, replies) == Step::Finish::<
            KeyPairCreation<'a>,
            HsmCall<'a, KeyPairCall<'a, SessionCallView<'a>>>,
            InterfaceResultView<()>,
        >(Err(key_pair_refusal(request, replies)->0)),
        forall|i: int|
            0 <= i < key_pair_creation_calls(slot_id, request, replies).len()
                ==> !(#[trigger] key_pair_creation_calls(slot_id, request, replies)[i] is Perform),
{
    reveal_with_fuel(run, 5);
    reveal_with_fuel(calls, 5);
}

/// The calls that every creation of a key pair begins with.
pub open spec fn key_pair_checks<'a>(slot_id: usize, request: KeyPairRequest<'a>) -> Seq<
    HsmCall<'a, KeyPairCall<'a, SessionCallView<'a>>>,
> {
    seq![
        HsmCall::GetSlot { slot_id },
        HsmCall::OpenSession { read_write: true },
        HsmCall::GetObjectHandle { id: request.sk_id },
        HsmCall::GetObjectHandle { id: request.pk_id },
    ]
}

/// An RSA key pair that is not refused is generated as requested.
pub proof fn law_rsa_key_pair_creation<'a>(
    slot_id: usize,
    request: KeyPairRequest<'a>,
    replies: Seq<KeyPairCreationReplyView>,
)
    requires
        replies.len() >= 5,
        key_pair_refusal(request, replies) is None,
        request.algorithm is RSA,
    ensures
        key_pair_creation_run(slot_id, request, replies) == Step::Finish::<
            KeyPairCreation<'a>,
            HsmCall<'a, KeyPairCall<'a, SessionCallView<'a>>>,
            InterfaceResultView<()>,
        >(
            match replies[4]->Performed_0->Rsa_0 {
                Ok(_) => Ok(()),
                Err(e) => Err(e@),
            },
        ),
        key_pair_creation_calls(slot_id, request, replies) == key_pair_checks(
            slot_id,
            request,
        ).push(
            HsmCall::Perform(
                KeyPairCall::GenerateRsa {
                    sk_id: request.sk_id,
                    pk_id: request.pk_id,
                    size: rsa_key_size(request.key_length_in_bits)->0,
                    sensitive: request.sensitive,
                },
            ),
        ),
{
    reveal_with_fuel(run, 6);
    reveal_with_fuel(calls, 6);
}

/// A post-quantum key pair that is not refused is generated as requested, whatever the length is,
/// and the handles of both keys are then remembered.
pub proof fn law_pqc_key_pair_creation<'a>(
    slot_id: usize,
    request: KeyPairRequest<'a>,
    replies: Seq<KeyPairCreationReplyView>,
)
    requires
        replies.len() >= 7,
        key_pair_refusal(request, replies) is None,
        request.algorithm.post_quantum() is Some,
    ensures
        key_pair_creation_run(slot_id, request, replies) == Step::Finish::<
            KeyPairCreation<'a>,
            HsmCall<'a, KeyPairCall<'a, SessionCallView<'a>>>,
            InterfaceResultView<()>,
        >(
            match (
                outcome(Function::GenerateKeyPair, replies[4]->Performed_0->Pqc_0->KeyPair_0),
                replies[5]->Performed_0->Pqc_0->Done_0,
                replies[6]->Performed_0->Pqc_0->Done_0,
            ) {
                (Err(e), _, _) => Err(InterfaceError::Session(e)),
                (Ok(_), Err(e), _) => Err(InterfaceError::Session(e@)),
                (Ok(_), Ok(_), Err(e)) => Err(InterfaceError::Session(e@)),
                (Ok(_), Ok(_), Ok(_)) => Ok(()),
            },
        ),
        key_pair_creation_run(slot_id, request, replies)->Finish_0 is Ok ==> ({
            let session = replies[1]->Session_0->Ok_0;
            let algorithm = request.algorithm.post_quantum()->0;
            let handles = outcome(
                Function::GenerateKeyPair,
                replies[4]->Performed_0->Pqc_0->KeyPair_0,
            )->Ok_0;
            key_pair_creation_calls(slot_id, request, replies) == key_pair_checks(slot_id, request)
                + seq![
                HsmCall::Perform(
                    KeyPairCall::Pqc(
                        SessionCallView::GenerateKeyPair {
                            session: session.handle(),
                            mechanism: algorithm.generation_mechanism(),
                            public_template: public_key_attributes(algorithm, request.pk_id),
                            private_template: private_key_attributes(
                                algorithm,
                                request.sk_id,
                                request.sensitive,
                            ),
                        },
                    ),
                ),
                HsmCall::Perform(
                    KeyPairCall::Pqc(
                        SessionCall::CacheObjectHandle {
                            id: request.sk_id,
                            handle: handles.private_key,
                        },
                    ),
                ),
                HsmCall::Perform(
                    KeyPairCall::Pqc(
                        SessionCall::CacheObjectHandle {
                            id: request.pk_id,
                            handle: handles.public_key,
                        },
                    ),
                ),
            ]
        }),
{
    reveal_with_fuel(run, 8);
    reveal_with_fuel(calls, 8);
}

/// Where the deletion of an object stands after some replies.
pub open spec fn deletion_run<'a>(
    slot_id: usize,
    object_id: &'a [u8],
    replies: Seq<DeletionReply>,
) -> DeletionStep<'a> {
    run(
        |deletion: Deletion<'a>, reply: DeletionReply| deletion.next(reply),
        deletion_start(slot_id, object_id),
        replies,
    )
}

/// The calls that the deletion of an object makes.
pub open spec fn deletion_calls<'a>(
    slot_id: usize,
    object_id: &'a [u8],
    replies: Seq<DeletionReply>,
) -> Seq<HsmCall<'a, DeletionCall<'a>>> {
    calls(
        |deletion: Deletion<'a>, reply: DeletionReply| deletion.next(reply),
        deletion_start(slot_id, object_id),
        replies,
    )
}

/// An object is deleted where every call succeeds: the object that the identifier names is
/// destroyed, and then its handle is forgotten. The first call that fails ends the deletion, so the
/// handle of an object that could not be destroyed is kept.
pub proof fn law_deletion<'a>(slot_id: usize, object_id: &'a [u8], replies: Seq<DeletionReply>)
    requires
        replies.len() >= 5,
    ensures
        deletion_run(slot_id, object_id, replies) == Step::Finish::<
            Deletion<'a>,
            HsmCall<'a, DeletionCall<'a>>,
            InterfaceResult<()>,
        >(
            match (
                replies[0]->Slot_0,
                replies[1]->Session_0,
                replies[2]->Handle_0,
                replies[3]->Performed_0,
            ) {
                (Err(e), _, _, _) => Err(e),
                (Ok(_), Err(e), _, _) => Err(e),
                (Ok(_), Ok(_), Err(e), _) => Err(e),
                (Ok(_), Ok(_), Ok(_), Err(e)) => Err(e),
                (Ok(_), Ok(_), Ok(_), Ok(_)) => replies[4]->Performed_0,
            },
        ),
        replies[0]->Slot_0 is Ok && replies[1]->Session_0 is Ok && replies[2]->Handle_0 is Ok ==> ({
            let begun = seq![
                HsmCall::GetSlot { slot_id },
                HsmCall::OpenSession { read_write: true },
                HsmCall::GetObjectHandle { id: object_id },
                HsmCall::Perform(
                    DeletionCall::DestroyObject { handle: replies[2]->Handle_0->Ok_0 },
                ),
            ];
            deletion_calls(slot_id, object_id, replies) == if replies[3]->Performed_0 is Ok {
                begun.push(HsmCall::Perform(DeletionCall::DeleteObjectHandle { id: object_id }))
            } else {
                begun
            }
        }),
{
    reveal_with_fuel(run, 6);
    reveal_with_fuel(calls, 6);
}

/// The step of a search, as a function.
pub open spec fn search_next<'a, F>() -> spec_fn(SearchView<F>, FindReplyView) -> SearchStepView<
    'a,
    F,
> {
    |search: SearchView<F>, reply: FindReplyView| search.next(reply)
}

/// Whether every reply is one to the call that was made before it, and the identifier of each
/// object, where it is read, is the one that `id_of` gives.
pub open spec fn search_answers<'a, F>(
    step: SearchStepView<'a, F>,
    replies: Seq<FindReplyView>,
    id_of: spec_fn(CK_OBJECT_HANDLE) -> InterfaceResult<Option<Vec<u8>>>,
) -> bool
    decreases replies.len(),
{
    match step {
        Step::Call(search, _) => replies.len() > 0 ==> {
            &&& search.expects(replies[0])
            &&& search matches Search::Reading { handles, position, .. }
                ==> replies[0]->Performed_0->ObjectId_0 == id_of(handles[position as int])
            &&& search_answers(search.next::<'a>(replies[0]), replies.drop_first(), id_of)
        },
        Step::Finish(_) => true,
    }
}

/// The identifier of an object, where it can be read and the object has one.
pub open spec fn name_of(
    id_of: spec_fn(CK_OBJECT_HANDLE) -> InterfaceResult<Option<Vec<u8>>>,
) -> spec_fn(CK_OBJECT_HANDLE) -> Option<Vec<u8>> {
    |handle: CK_OBJECT_HANDLE|
        match id_of(handle) {
            Ok(name) => name,
            Err(_) => None,
        }
}

/// The calls that a search makes for the objects that were listed, starting at the position `from`:
/// the identifier of each is read, and where there is one the handle is remembered under it.
pub open spec fn search_object_calls<'a, F>(
    handles: Seq<CK_OBJECT_HANDLE>,
    id_of: spec_fn(CK_OBJECT_HANDLE) -> InterfaceResult<Option<Vec<u8>>>,
    from: int,
) -> Seq<HsmCall<'a, SearchCall<F, Seq<u8>>>>
    decreases handles.len() - from,
{
    if 0 <= from < handles.len() {
        let handle = handles[from];
        let read = seq![HsmCall::Perform(SearchCall::GetObjectId { handle })];
        let later = search_object_calls(handles, id_of, from + 1);
        match name_of(id_of)(handle) {
            Some(id) => read + seq![
                HsmCall::Perform(SearchCall::CacheObjectHandle { id: id@, handle }),
            ] + later,
            None => read + later,
        }
    } else {
        seq![]
    }
}

proof fn lemma_search<'a, F>(
    handles: Seq<CK_OBJECT_HANDLE>,
    position: nat,
    object_ids: Seq<Vec<u8>>,
    replies: Seq<FindReplyView>,
    id_of: spec_fn(CK_OBJECT_HANDLE) -> InterfaceResult<Option<Vec<u8>>>,
)
    requires
        position <= handles.len() <= usize::MAX,
        object_ids == handles.take(position as int).filter_map(name_of(id_of)),
        search_answers(reading::<'a, F>(handles, position, object_ids), replies, id_of),
        replies.len() >= 2 * (handles.len() - position),
    ensures
        run(search_next(), reading::<'a, F>(handles, position, object_ids), replies)
            == Step::Finish::<
            SearchView<F>,
            HsmCall<'a, SearchCall<F, Seq<u8>>>,
            InterfaceResultView<Seq<Vec<u8>>>,
        >(Ok(handles.filter_map(name_of(id_of)))),
        calls(search_next(), reading::<'a, F>(handles, position, object_ids), replies)
            == search_object_calls::<'a, F>(handles, id_of, position as int),
    decreases handles.len() - position,
{
    reveal_with_fuel(run, 3);
    reveal_with_fuel(calls, 3);
    reveal_with_fuel(search_answers, 3);
    if position < handles.len() {
        let handle = handles[position as int];
        let longer = handles.take(position as int + 1);
        assert(longer.drop_last() =~= handles.take(position as int));
        assert(longer.last() == handle);
        match name_of(id_of)(handle) {
            Some(id) => {
                assert(object_ids.push(id) =~= longer.filter_map(name_of(id_of)));
                lemma_search::<F>(
                    handles,
                    position + 1,
                    object_ids.push(id),
                    replies.drop_first().drop_first(),
                    id_of,
                );
            },
            None => {
                lemma_search::<F>(handles, position + 1, object_ids, replies.drop_first(), id_of);
            },
        }
    } else {
        assert(handles.take(position as int) =~= handles);
    }
}

/// A search gives the identifiers of the objects that were listed and that have one, in the order
/// in which they were listed. Each is remembered with the handle of its object, and neither an
/// object without an identifier nor a handle that cannot be remembered is an error.
pub proof fn law_search<'a, F>(
    slot_id: usize,
    filter: F,
    handles: Seq<CK_OBJECT_HANDLE>,
    replies: Seq<FindReplyView>,
    id_of: spec_fn(CK_OBJECT_HANDLE) -> InterfaceResult<Option<Vec<u8>>>,
)
    requires
        handles.len() <= usize::MAX,
        replies.len() >= 3 + 2 * handles.len(),
        search_answers(search_start::<'a, F>(slot_id, filter), replies, id_of),
        replies[0]->Slot_0 is Ok,
        replies[1]->Session_0 is Ok,
        replies[2]->Performed_0->Objects_0 == Ok::<Seq<CK_OBJECT_HANDLE>, InterfaceError>(handles),
    ensures
        run(search_next(), search_start::<'a, F>(slot_id, filter), replies) == Step::Finish::<
            SearchView<F>,
            HsmCall<'a, SearchCall<F, Seq<u8>>>,
            InterfaceResultView<Seq<Vec<u8>>>,
        >(Ok(handles.filter_map(name_of(id_of)))),
        calls(search_next(), search_start::<'a, F>(slot_id, filter), replies) == seq![
            HsmCall::GetSlot { slot_id },
            HsmCall::OpenSession { read_write: true },
            HsmCall::Perform(SearchCall::ListObjects { filter }),
        ] + search_object_calls::<'a, F>(handles, id_of, 0),
{
    reveal_with_fuel(run, 4);
    reveal_with_fuel(calls, 4);
    reveal_with_fuel(search_answers, 4);
    assert(handles.take(0).filter_map(name_of(id_of)) =~= seq![]);
    lemma_search::<F>(
        handles,
        0,
        seq![],
        replies.drop_first().drop_first().drop_first(),
        id_of,
    );
}

/// A search that cannot get the slot, open the session or list the objects gives the error of the
/// first of these calls that fails.
pub proof fn law_search_failure<'a, F>(slot_id: usize, filter: F, replies: Seq<FindReplyView>)
    requires
        replies.len() >= 3,
        replies[0]->Slot_0 is Err || replies[1]->Session_0 is Err
            || replies[2]->Performed_0->Objects_0 is Err,
    ensures
        run(search_next(), search_start::<'a, F>(slot_id, filter), replies) == Step::Finish::<
            SearchView<F>,
            HsmCall<'a, SearchCall<F, Seq<u8>>>,
            InterfaceResultView<Seq<Vec<u8>>>,
        >(
            match (replies[0]->Slot_0, replies[1]->Session_0) {
                (Err(e), _) => Err(e@),
                (Ok(_), Err(e)) => Err(e@),
                (Ok(_), Ok(_)) => Err(replies[2]->Performed_0->Objects_0->Err_0@),
            },
        ),
{
    reveal_with_fuel(run, 4);
}

} // verus!
