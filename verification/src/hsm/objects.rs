//! What operations leave behind for the look-ups of later ones.
//!
//! A slot is seen here through its look-ups alone, as a map from the identifiers that a look-up
//! finds to the handles that it gives. An operation changes the map by those of its calls that
//! succeed.

use pkcs11_sys::CK_OBJECT_HANDLE;
use vstd::prelude::*;

use super::create::key_creation_start;
use super::create::key_pair_creation_start;
use super::create::GenerateAesKey;
use super::create::KeyCreation;
use super::create::KeyCreationReply;
use super::create::KeyPairCall;
use super::create::KeyPairCreation;
use super::create::KeyPairCreationReplyView;
use super::create::KeyPairReply;
use super::create::KeyPairRequest;
use super::create::KeyRequest;
use super::delete::deletion_start;
use super::delete::Deletion;
use super::delete::DeletionCall;
use super::delete::DeletionReply;
use super::find::reading;
use super::find::search_start;
use super::find::FindReplyView;
use super::find::SearchCall;
use super::find::SearchReply;
use super::laws::deletion_calls;
use super::laws::deletion_run;
use super::laws::key_creation_calls;
use super::laws::key_creation_run;
use super::laws::key_pair_creation_calls;
use super::laws::key_pair_creation_run;
use super::laws::law_key_creation;
use super::laws::law_operation_on_key;
use super::laws::law_refused_key_pair_is_not_generated;
use super::laws::name_of;
use super::laws::operation_calls;
use super::laws::operation_run;
use super::laws::search_answers;
use super::laws::search_next;
use super::operation::ExportKey;
use super::operation::Operation;
use super::operation::Request;
use super::HsmCall;
use super::HsmReply;
use crate::cryptoki::SessionCall;
use crate::cryptoki::SessionCallView;
use crate::cryptoki::SessionReply;
use crate::error::private_key_exists_text;
use crate::error::public_key_exists_text;
use crate::error::secret_key_exists_text;
use crate::error::Function;
use crate::error::InterfaceError;
use crate::error::InterfaceResult;
use crate::error::InterfaceResultView;
use crate::session::outcome;
use crate::step::calls;
use crate::step::expected;
use crate::step::run;
use crate::step::Step;

verus! {

/// The identifiers that a look-up finds, each with the handle that it gives.
pub type Objects = Map<Seq<u8>, CK_OBJECT_HANDLE>;

/// What is there after some calls, where `effect` says what one call and its reply change.
pub open spec fn objects_after<C, R>(
    effect: spec_fn(Objects, C, R) -> Objects,
    objects: Objects,
    calls: Seq<C>,
    replies: Seq<R>,
) -> Objects
    decreases calls.len(),
{
    if calls.len() == 0 || replies.len() == 0 {
        objects
    } else {
        objects_after(
            effect,
            effect(objects, calls[0], replies[0]),
            calls.drop_first(),
            replies.drop_first(),
        )
    }
}

/// Whether every look-up finds what is there, and nothing else.
pub open spec fn look_ups_find<Q, T>(
    objects: Objects,
    calls: Seq<HsmCall<Q>>,
    replies: Seq<HsmReply<T>>,
) -> bool {
    forall|i: int|
        0 <= i < calls.len() && i < replies.len() ==> (#[trigger] calls[i] matches HsmCall::GetObjectHandle {
            id,
        } ==> match replies[i]->Handle_0 {
            Ok(handle) => objects.contains_key(id@) && objects[id@] == handle,
            Err(_) => !objects.contains_key(id@),
        })
}

/// What a call of the creation of a key pair changes: a handle that is remembered under an
/// identifier is found there, and so are both keys of an RSA key pair that is generated.
pub open spec fn key_pair_effect<'a>() -> spec_fn(
    Objects,
    HsmCall<'a, KeyPairCall<'a, SessionCallView<'a>>>,
    KeyPairCreationReplyView,
) -> Objects {
    |
        objects: Objects,
        call: HsmCall<'a, KeyPairCall<'a, SessionCallView<'a>>>,
        reply: KeyPairCreationReplyView,
    |
        match (call, reply) {
            (
                HsmCall::Perform(KeyPairCall::Pqc(SessionCall::CacheObjectHandle { id, handle })),
                HsmReply::Performed(KeyPairReply::Pqc(SessionReply::Done(Ok(_)))),
            ) => objects.insert(id@, handle),
            (
                HsmCall::Perform(KeyPairCall::GenerateRsa { sk_id, pk_id, .. }),
                HsmReply::Performed(KeyPairReply::Rsa(Ok((private_key, public_key)))),
            ) => objects.insert(sk_id@, private_key).insert(pk_id@, public_key),
            _ => objects,
        }
}

/// What is there after the creation of a key pair.
pub open spec fn after_key_pair<'a>(
    objects: Objects,
    slot_id: usize,
    request: KeyPairRequest<'a>,
    replies: Seq<KeyPairCreationReplyView>,
) -> Objects {
    objects_after(
        key_pair_effect(),
        objects,
        key_pair_creation_calls(slot_id, request, replies),
        replies,
    )
}

/// Whether a key pair is created.
pub open spec fn key_pair_created<'a>(
    slot_id: usize,
    request: KeyPairRequest<'a>,
    replies: Seq<KeyPairCreationReplyView>,
) -> bool {
    key_pair_creation_run(slot_id, request, replies) == Step::Finish::<
        KeyPairCreation<'a>,
        HsmCall<'a, KeyPairCall<'a, SessionCallView<'a>>>,
        InterfaceResultView<()>,
    >(Ok(()))
}

/// Whether every reply to the creation of a key pair is one to the call that was made before it.
pub open spec fn key_pair_replies<'a>(
    slot_id: usize,
    request: KeyPairRequest<'a>,
    replies: Seq<KeyPairCreationReplyView>,
) -> bool {
    expected(
        |creation: KeyPairCreation<'a>, reply: KeyPairCreationReplyView| creation.expects(reply),
        |creation: KeyPairCreation<'a>, reply: KeyPairCreationReplyView| creation.next(reply),
        key_pair_creation_start(slot_id, request),
        replies,
    )
}

/// Both keys of a key pair that was created are found, under their own identifiers and with the
/// handles that the generation gave, and what else was there stays.
pub proof fn law_created_key_pair_is_found<'a>(
    objects: Objects,
    slot_id: usize,
    request: KeyPairRequest<'a>,
    replies: Seq<KeyPairCreationReplyView>,
)
    requires
        key_pair_replies(slot_id, request, replies),
        key_pair_created(slot_id, request, replies),
    ensures
        ({
            let (private_key, public_key) = if request.algorithm is RSA {
                replies[4]->Performed_0->Rsa_0->Ok_0
            } else {
                let handles = outcome(
                    Function::GenerateKeyPair,
                    replies[4]->Performed_0->Pqc_0->KeyPair_0,
                )->Ok_0;
                (handles.private_key, handles.public_key)
            };
            after_key_pair(objects, slot_id, request, replies) == objects.insert(
                request.sk_id@,
                private_key,
            ).insert(request.pk_id@, public_key)
        }),
{
    reveal_with_fuel(run, 8);
    reveal_with_fuel(calls, 8);
    reveal_with_fuel(expected, 8);
    reveal_with_fuel(objects_after, 8);
}

/// A key pair cannot be created where the identifier of its private key is taken: the creation is
/// refused, nothing is generated, and what was there stays. The same holds where the identifier of
/// its public key alone is taken.
pub proof fn law_taken_key_pair_is_refused<'a>(
    objects: Objects,
    slot_id: usize,
    request: KeyPairRequest<'a>,
    replies: Seq<KeyPairCreationReplyView>,
)
    requires
        replies.len() >= 4,
        replies[0]->Slot_0 is Ok,
        replies[1]->Session_0 is Ok,
        look_ups_find(objects, key_pair_creation_calls(slot_id, request, replies), replies),
        objects.contains_key(request.sk_id@) || objects.contains_key(request.pk_id@),
    ensures
        key_pair_creation_run(slot_id, request, replies) == Step::Finish::<
            KeyPairCreation<'a>,
            HsmCall<'a, KeyPairCall<'a, SessionCallView<'a>>>,
            InterfaceResultView<()>,
        >(
            Err(
                InterfaceError::Default(
                    if objects.contains_key(request.sk_id@) {
                        private_key_exists_text()
                    } else {
                        public_key_exists_text()
                    },
                ),
            ),
        ),
        forall|i: int|
            0 <= i < key_pair_creation_calls(slot_id, request, replies).len()
                ==> !(#[trigger] key_pair_creation_calls(slot_id, request, replies)[i] is Perform),
        after_key_pair(objects, slot_id, request, replies) == objects,
{
    reveal_with_fuel(run, 5);
    reveal_with_fuel(calls, 5);
    reveal_with_fuel(objects_after, 5);
    let made = key_pair_creation_calls(slot_id, request, replies);
    assert(made[2] matches HsmCall::GetObjectHandle { id } && id == request.sk_id);
    if replies[2]->Handle_0 is Err {
        assert(made[3] matches HsmCall::GetObjectHandle { id } && id == request.pk_id);
    }
    law_refused_key_pair_is_not_generated(slot_id, request, replies);
}

/// Once a key pair has been created, and nothing has been deleted since, another one with the
/// identifier of its private key is refused as such, whatever the rest of the request is: nothing is
/// generated, and the first key pair stays in place. One with the identifier of its public key is
/// refused too.
pub proof fn law_created_key_pair_is_not_replaced<'a>(
    objects: Objects,
    slot_id: usize,
    first: KeyPairRequest<'a>,
    first_replies: Seq<KeyPairCreationReplyView>,
    second: KeyPairRequest<'a>,
    second_replies: Seq<KeyPairCreationReplyView>,
)
    requires
        key_pair_replies(slot_id, first, first_replies),
        key_pair_created(slot_id, first, first_replies),
        second.sk_id@ == first.sk_id@ || second.pk_id@ == first.pk_id@,
        second_replies.len() >= 4,
        second_replies[0]->Slot_0 is Ok,
        second_replies[1]->Session_0 is Ok,
        look_ups_find(
            after_key_pair(objects, slot_id, first, first_replies),
            key_pair_creation_calls(slot_id, second, second_replies),
            second_replies,
        ),
    ensures
        second.sk_id@ == first.sk_id@ ==> key_pair_creation_run(slot_id, second, second_replies)
            == Step::Finish::<
            KeyPairCreation<'a>,
            HsmCall<'a, KeyPairCall<'a, SessionCallView<'a>>>,
            InterfaceResultView<()>,
        >(Err(InterfaceError::Default(private_key_exists_text()))),
        key_pair_creation_run(slot_id, second, second_replies) matches Step::Finish(Err(_)),
        forall|i: int|
            0 <= i < key_pair_creation_calls(slot_id, second, second_replies).len() ==> !(
            #[trigger] key_pair_creation_calls(slot_id, second, second_replies)[i] is Perform),
        after_key_pair(
            after_key_pair(objects, slot_id, first, first_replies),
            slot_id,
            second,
            second_replies,
        ) == after_key_pair(objects, slot_id, first, first_replies),
{
    law_created_key_pair_is_found(objects, slot_id, first, first_replies);
    law_taken_key_pair_is_refused(
        after_key_pair(objects, slot_id, first, first_replies),
        slot_id,
        second,
        second_replies,
    );
}

/// What a call of the creation of a secret key changes: a key that is generated is found.
pub open spec fn key_effect<'a>() -> spec_fn(
    Objects,
    HsmCall<'a, GenerateAesKey<'a>>,
    KeyCreationReply,
) -> Objects {
    |objects: Objects, call: HsmCall<'a, GenerateAesKey<'a>>, reply: KeyCreationReply|
        match (call, reply) {
            (HsmCall::Perform(request), HsmReply::Performed(Ok(handle))) => objects.insert(
                request.id@,
                handle,
            ),
            _ => objects,
        }
}

/// What is there after the creation of a secret key.
pub open spec fn after_key<'a>(
    objects: Objects,
    slot_id: usize,
    request: KeyRequest<'a>,
    replies: Seq<KeyCreationReply>,
) -> Objects {
    objects_after(key_effect(), objects, key_creation_calls(slot_id, request, replies), replies)
}

/// Once a secret key has been created, and nothing has been deleted since, another one with its
/// identifier is refused, whatever the rest of the request is, and the first stays in place.
pub proof fn law_created_key_is_not_replaced<'a>(
    objects: Objects,
    slot_id: usize,
    first: KeyRequest<'a>,
    first_replies: Seq<KeyCreationReply>,
    second: KeyRequest<'a>,
    second_replies: Seq<KeyCreationReply>,
)
    requires
        expected(
            |creation: KeyCreation<'a>, reply: KeyCreationReply| creation.expects(reply),
            |creation: KeyCreation<'a>, reply: KeyCreationReply| creation.next(reply),
            key_creation_start(slot_id, first),
            first_replies,
        ),
        key_creation_run(slot_id, first, first_replies) == Step::Finish::<
            KeyCreation<'a>,
            HsmCall<'a, GenerateAesKey<'a>>,
            InterfaceResultView<()>,
        >(Ok(())),
        second.id@ == first.id@,
        second_replies.len() >= 4,
        second_replies[0]->Slot_0 is Ok,
        second_replies[1]->Session_0 is Ok,
        look_ups_find(
            after_key(objects, slot_id, first, first_replies),
            key_creation_calls(slot_id, second, second_replies),
            second_replies,
        ),
    ensures
        key_creation_run(slot_id, second, second_replies) == Step::Finish::<
            KeyCreation<'a>,
            HsmCall<'a, GenerateAesKey<'a>>,
            InterfaceResultView<()>,
        >(Err(InterfaceError::Default(secret_key_exists_text()))),
        forall|i: int|
            0 <= i < key_creation_calls(slot_id, second, second_replies).len() ==> !(
            #[trigger] key_creation_calls(slot_id, second, second_replies)[i] is Perform),
        after_key(
            after_key(objects, slot_id, first, first_replies),
            slot_id,
            second,
            second_replies,
        ) == after_key(objects, slot_id, first, first_replies),
{
    reveal_with_fuel(run, 5);
    reveal_with_fuel(calls, 5);
    reveal_with_fuel(expected, 5);
    reveal_with_fuel(objects_after, 5);
    let made = key_creation_calls(slot_id, second, second_replies);
    assert(made[2] matches HsmCall::GetObjectHandle { id } && id == second.id);
    law_key_creation(slot_id, second, second_replies);
}

/// What a call of the deletion of an object changes: once the handle of the object is forgotten,
/// nothing is found under its identifier.
pub open spec fn deletion_effect<'a>() -> spec_fn(
    Objects,
    HsmCall<'a, DeletionCall<'a>>,
    DeletionReply,
) -> Objects {
    |objects: Objects, call: HsmCall<'a, DeletionCall<'a>>, reply: DeletionReply|
        match (call, reply) {
            (
                HsmCall::Perform(DeletionCall::DeleteObjectHandle { id }),
                HsmReply::Performed(Ok(_)),
            ) => objects.remove(id@),
            _ => objects,
        }
}

/// What is there after the deletion of an object.
pub open spec fn after_deletion<'a>(
    objects: Objects,
    slot_id: usize,
    object_id: &'a [u8],
    replies: Seq<DeletionReply>,
) -> Objects {
    objects_after(
        deletion_effect(),
        objects,
        deletion_calls(slot_id, object_id, replies),
        replies,
    )
}

/// Whether an object is deleted.
pub open spec fn object_deleted<'a>(
    slot_id: usize,
    object_id: &'a [u8],
    replies: Seq<DeletionReply>,
) -> bool {
    &&& expected(
        |deletion: Deletion<'a>, reply: DeletionReply| deletion.expects(reply),
        |deletion: Deletion<'a>, reply: DeletionReply| deletion.next(reply),
        deletion_start(slot_id, object_id),
        replies,
    )
    &&& deletion_run(slot_id, object_id, replies) matches Step::Finish(Ok(_))
}

/// An object that was deleted is not found any more, and what else was there stays. Where the
/// deletion does not end well, no handle is forgotten.
pub proof fn law_deleted_object_is_gone<'a>(
    objects: Objects,
    slot_id: usize,
    object_id: &'a [u8],
    replies: Seq<DeletionReply>,
)
    requires
        expected(
            |deletion: Deletion<'a>, reply: DeletionReply| deletion.expects(reply),
            |deletion: Deletion<'a>, reply: DeletionReply| deletion.next(reply),
            deletion_start(slot_id, object_id),
            replies,
        ),
    ensures
        after_deletion(objects, slot_id, object_id, replies) == if object_deleted(
            slot_id,
            object_id,
            replies,
        ) {
            objects.remove(object_id@)
        } else {
            objects
        },
{
    reveal_with_fuel(run, 6);
    reveal_with_fuel(calls, 6);
    reveal_with_fuel(expected, 6);
    reveal_with_fuel(objects_after, 6);
}

/// An operation on a key whose identifier is not there, be it that it never was, gives the error of
/// the look-up, and asks nothing of the session.
pub proof fn law_unknown_key_is_refused<'a, Q, T>(
    objects: Objects,
    slot_id: usize,
    key_id: &'a [u8],
    request: Q,
    replies: Seq<HsmReply<InterfaceResult<T>>>,
)
    requires
        !objects.contains_key(key_id@),
        replies.len() >= 4,
        replies[0]->Slot_0 is Ok,
        replies[1]->Session_0 is Ok,
        look_ups_find(objects, operation_calls(slot_id, Some(key_id), request, replies), replies),
    ensures
        replies[2]->Handle_0 is Err,
        operation_run(slot_id, Some(key_id), request, replies) == Step::Finish::<
            Operation<'a, Q>,
            HsmCall<'a, Request<Q>>,
            InterfaceResult<T>,
        >(Err(replies[2]->Handle_0->Err_0)),
        forall|i: int|
            0 <= i < operation_calls(slot_id, Some(key_id), request, replies).len() ==> !(
            #[trigger] operation_calls(slot_id, Some(key_id), request, replies)[i] is Perform),
{
    reveal_with_fuel(calls, 5);
    let made = operation_calls(slot_id, Some(key_id), request, replies);
    assert(made[2] matches HsmCall::GetObjectHandle { id } && id == key_id);
    law_operation_on_key(slot_id, key_id, request, replies);
}

/// An operation on a key that is there is made on the handle that is found under its identifier.
pub proof fn law_known_key_is_used<'a, Q, T>(
    objects: Objects,
    slot_id: usize,
    key_id: &'a [u8],
    request: Q,
    replies: Seq<HsmReply<InterfaceResult<T>>>,
)
    requires
        objects.contains_key(key_id@),
        replies.len() >= 4,
        replies[0]->Slot_0 is Ok,
        replies[1]->Session_0 is Ok,
        look_ups_find(objects, operation_calls(slot_id, Some(key_id), request, replies), replies),
    ensures
        operation_calls(slot_id, Some(key_id), request, replies).last() == HsmCall::Perform(
            Request { handle: Some(objects[key_id@]), request },
        ),
        operation_run(slot_id, Some(key_id), request, replies) == Step::Finish::<
            Operation<'a, Q>,
            HsmCall<'a, Request<Q>>,
            InterfaceResult<T>,
        >(replies[3]->Performed_0),
{
    reveal_with_fuel(calls, 5);
    let made = operation_calls(slot_id, Some(key_id), request, replies);
    assert(made[2] matches HsmCall::GetObjectHandle { id } && id == key_id);
    law_operation_on_key(slot_id, key_id, request, replies);
}

/// Once an object has been deleted, and none was created under its identifier since, an export under
/// that identifier is the error of the look-up: neither nothing nor a stale object is exported.
pub proof fn law_deleted_object_is_not_exported<'a, O>(
    objects: Objects,
    slot_id: usize,
    object_id: &'a [u8],
    deletion_replies: Seq<DeletionReply>,
    export_replies: Seq<HsmReply<InterfaceResult<Option<O>>>>,
)
    requires
        object_deleted(slot_id, object_id, deletion_replies),
        export_replies.len() >= 4,
        export_replies[0]->Slot_0 is Ok,
        export_replies[1]->Session_0 is Ok,
        look_ups_find(
            after_deletion(objects, slot_id, object_id, deletion_replies),
            operation_calls(slot_id, Some(object_id), ExportKey, export_replies),
            export_replies,
        ),
    ensures
        export_replies[2]->Handle_0 is Err,
        operation_run(slot_id, Some(object_id), ExportKey, export_replies) == Step::Finish::<
            Operation<'a, ExportKey>,
            HsmCall<'a, Request<ExportKey>>,
            InterfaceResult<Option<O>>,
        >(Err(export_replies[2]->Handle_0->Err_0)),
        forall|i: int|
            0 <= i < operation_calls(slot_id, Some(object_id), ExportKey, export_replies).len()
                ==> !(#[trigger] operation_calls(
                slot_id,
                Some(object_id),
                ExportKey,
                export_replies,
            )[i] is Perform),
{
    law_deleted_object_is_gone(objects, slot_id, object_id, deletion_replies);
    law_unknown_key_is_refused(
        after_deletion(objects, slot_id, object_id, deletion_replies),
        slot_id,
        object_id,
        ExportKey,
        export_replies,
    );
}

/// What a call of a search changes: a handle that is remembered under an identifier is found there.
pub open spec fn search_effect<'a, F>() -> spec_fn(
    Objects,
    HsmCall<'a, SearchCall<F, Seq<u8>>>,
    FindReplyView,
) -> Objects {
    |objects: Objects, call: HsmCall<'a, SearchCall<F, Seq<u8>>>, reply: FindReplyView|
        match (call, reply) {
            (
                HsmCall::Perform(SearchCall::CacheObjectHandle { id, handle }),
                HsmReply::Performed(SearchReply::Cached(Ok(_))),
            ) => objects.insert(id, handle),
            _ => objects,
        }
}

/// Whether every handle that is to be remembered can be.
pub open spec fn all_cached(replies: Seq<FindReplyView>) -> bool {
    forall|i: int|
        0 <= i < replies.len() ==> (#[trigger] replies[i] matches HsmReply::Performed(
            SearchReply::Cached(result),
        ) ==> result is Ok)
}

/// What is there once the objects from the position `from` on have been remembered by their names.
pub open spec fn with_names(
    objects: Objects,
    handles: Seq<CK_OBJECT_HANDLE>,
    id_of: spec_fn(CK_OBJECT_HANDLE) -> InterfaceResult<Option<Vec<u8>>>,
    from: int,
) -> Objects
    decreases handles.len() - from,
{
    if 0 <= from < handles.len() {
        match name_of(id_of)(handles[from]) {
            Some(id) => with_names(objects.insert(id@, handles[from]), handles, id_of, from + 1),
            None => with_names(objects, handles, id_of, from + 1),
        }
    } else {
        objects
    }
}

proof fn lemma_search_objects<'a, F>(
    objects: Objects,
    handles: Seq<CK_OBJECT_HANDLE>,
    position: nat,
    object_ids: Seq<Vec<u8>>,
    replies: Seq<FindReplyView>,
    id_of: spec_fn(CK_OBJECT_HANDLE) -> InterfaceResult<Option<Vec<u8>>>,
)
    requires
        position <= handles.len() <= usize::MAX,
        search_answers(reading::<'a, F>(handles, position, object_ids), replies, id_of),
        all_cached(replies),
        replies.len() >= 2 * (handles.len() - position),
    ensures
        objects_after(
            search_effect(),
            objects,
            calls(search_next(), reading::<'a, F>(handles, position, object_ids), replies),
            replies,
        ) == with_names(objects, handles, id_of, position as int),
    decreases handles.len() - position,
{
    reveal_with_fuel(calls, 3);
    reveal_with_fuel(search_answers, 3);
    reveal_with_fuel(objects_after, 3);
    if position < handles.len() {
        let handle = handles[position as int];
        let start = reading::<'a, F>(handles, position, object_ids);
        let made = calls(search_next(), start, replies);
        let rest = replies.drop_first();
        match name_of(id_of)(handle) {
            Some(id) => {
                let ids = object_ids.push(id);
                let later = calls(
                    search_next(),
                    reading::<'a, F>(handles, position + 1, ids),
                    rest.drop_first(),
                );
                assert(replies[1] == rest[0]);
                assert forall|i: int| 0 <= i < rest.drop_first().len() implies (
                #[trigger] rest.drop_first()[i] matches HsmReply::Performed(
                    SearchReply::Cached(result),
                ) ==> result is Ok) by {
                    assert(rest.drop_first()[i] == replies[i + 2]);
                }
                lemma_search_objects::<F>(
                    objects.insert(id@, handle),
                    handles,
                    position + 1,
                    ids,
                    rest.drop_first(),
                    id_of,
                );
                assert(made.drop_first().drop_first() =~= later);
            },
            None => {
                let later = calls(
                    search_next(),
                    reading::<'a, F>(handles, position + 1, object_ids),
                    rest,
                );
                assert forall|i: int| 0 <= i < rest.len() implies (
                #[trigger] rest[i] matches HsmReply::Performed(SearchReply::Cached(result))
                    ==> result is Ok) by {
                    assert(rest[i] == replies[i + 1]);
                }
                lemma_search_objects::<F>(
                    objects,
                    handles,
                    position + 1,
                    object_ids,
                    rest,
                    id_of,
                );
                assert(made.drop_first() =~= later);
            },
        }
    }
}

/// Whether an object has an identifier that can be read, and it is this one.
pub open spec fn has_name(
    id_of: spec_fn(CK_OBJECT_HANDLE) -> InterfaceResult<Option<Vec<u8>>>,
    handle: CK_OBJECT_HANDLE,
    id: Seq<u8>,
) -> bool {
    name_of(id_of)(handle) matches Some(name) && name@ == id
}

proof fn lemma_with_names(
    objects: Objects,
    handles: Seq<CK_OBJECT_HANDLE>,
    id_of: spec_fn(CK_OBJECT_HANDLE) -> InterfaceResult<Option<Vec<u8>>>,
    from: int,
    id: Seq<u8>,
)
    requires
        0 <= from <= handles.len(),
    ensures
        ({
            let after = with_names(objects, handles, id_of, from);
            if exists|i: int| from <= i < handles.len() && has_name(id_of, #[trigger] handles[i], id) {
                after.contains_key(id) && exists|i: int|
                    from <= i < handles.len() && has_name(id_of, #[trigger] handles[i], id)
                        && after[id] == handles[i]
            } else {
                after.contains_key(id) == objects.contains_key(id) && after[id] == objects[id]
            }
        }),
    decreases handles.len() - from,
{
    if from < handles.len() {
        let handle = handles[from];
        match name_of(id_of)(handle) {
            Some(name) => lemma_with_names(
                objects.insert(name@, handle),
                handles,
                id_of,
                from + 1,
                id,
            ),
            None => lemma_with_names(objects, handles, id_of, from + 1, id),
        }
    }
}

/// After a search whose handles could all be remembered, every object that has an identifier is
/// found under it: the look-up gives the handle of an object that was listed with that identifier.
/// Under any other identifier a look-up gives what it gave before.
pub proof fn law_found_objects_are_looked_up<'a, F>(
    objects: Objects,
    slot_id: usize,
    filter: F,
    handles: Seq<CK_OBJECT_HANDLE>,
    replies: Seq<FindReplyView>,
    id_of: spec_fn(CK_OBJECT_HANDLE) -> InterfaceResult<Option<Vec<u8>>>,
    id: Seq<u8>,
)
    requires
        handles.len() <= usize::MAX,
        replies.len() >= 3 + 2 * handles.len(),
        search_answers(search_start::<'a, F>(slot_id, filter), replies, id_of),
        replies[0]->Slot_0 is Ok,
        replies[1]->Session_0 is Ok,
        replies[2]->Performed_0->Objects_0 == Ok::<Seq<CK_OBJECT_HANDLE>, InterfaceError>(handles),
        all_cached(replies),
    ensures
        ({
            let after = objects_after(
                search_effect(),
                objects,
                calls(search_next(), search_start::<'a, F>(slot_id, filter), replies),
                replies,
            );
            if exists|i: int| 0 <= i < handles.len() && has_name(id_of, #[trigger] handles[i], id) {
                after.contains_key(id) && exists|i: int|
                    0 <= i < handles.len() && has_name(id_of, #[trigger] handles[i], id)
                        && after[id] == handles[i]
            } else {
                after.contains_key(id) == objects.contains_key(id) && after[id] == objects[id]
            }
        }),
{
    reveal_with_fuel(calls, 4);
    reveal_with_fuel(search_answers, 4);
    reveal_with_fuel(objects_after, 4);
    let rest = replies.drop_first().drop_first().drop_first();
    assert forall|i: int| 0 <= i < rest.len() implies (#[trigger] rest[i] matches HsmReply::Performed(
        SearchReply::Cached(result),
    ) ==> result is Ok) by {
        assert(rest[i] == replies[i + 3]);
    }
    let made = calls(search_next(), search_start::<'a, F>(slot_id, filter), replies);
    let later = calls(search_next(), reading::<'a, F>(handles, 0, seq![]), rest);
    assert(made.drop_first().drop_first().drop_first() =~= later);
    lemma_search_objects::<F>(objects, handles, 0, seq![], rest, id_of);
    lemma_with_names(objects, handles, id_of, 0, id);
}

} // verus!
