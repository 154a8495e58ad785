//! What an onlooker sees of a batch: its calls and their replies, one after the other.

use pkcs11_sys::CK_OBJECT_HANDLE;
use vstd::prelude::*;

use super::job::crypt_call;
use super::job::BatchJob;
use super::job::JobCall;
use super::job::JobReply;
use super::job::JobRun;
use super::laws::batch_next;
use super::laws::batch_replies;
use super::laws::batch_start;
use super::laws::call_fits;
use super::laws::job_calls;
use super::laws::job_run;
use super::laws::pool_next;
use super::laws::pool_replies;
use super::pool::collected;
use super::pool::pool_start;
use super::pool::PoolCall;
use super::pool::PoolReply;
use super::pool::PoolState;
use super::request::law_segment;
use super::request::law_segment_fields;
use super::request::CryptoAlgorithm;
use super::request::HsmBatchRequest;
use super::run::known_len;
use super::run::BatchCall;
use super::run::BatchReply;
use super::run::BatchState;
use super::run::Phase;
use super::settings::BatchSettings;
use crate::error::Direction;
use crate::error::InterfaceError;
use crate::error::InterfaceResult;
use crate::error::InterfaceResultView;
use crate::step::calls;
use crate::step::expected;
use crate::step::run;
use crate::step::Step;

verus! {

/// What was asked to be done with some data.
pub ghost struct Handled {
    pub direction: Direction,
    pub algorithm: CryptoAlgorithm,
    pub data: Seq<u8>,
    pub additional_data: Seq<u8>,
}

/// What has been seen of a batch.
pub ghost struct Trace<R> {
    /// The slot that was got last.
    pub slot: Option<usize>,
    /// The slot on which a session was opened last, since the slot was got.
    pub session: Option<usize>,
    /// The key that was looked up last on that session, and the handle that the look-up gave.
    pub key: Option<(Seq<u8>, CK_OBJECT_HANDLE)>,
    /// The length that was read last, since the slot was got.
    pub len: Option<usize>,
    /// How many requests had been taken up when the slot was got.
    pub base: nat,
    /// What was asked to be done, in order: on a session, or as a job.
    pub handled: Seq<Handled>,
    /// The output that came for each position.
    pub outputs: Map<int, R>,
}

/// What is to be seen before the first call.
pub open spec fn nothing_seen<R>() -> Trace<R> {
    Trace {
        slot: None,
        session: None,
        key: None,
        len: None,
        base: 0,
        handled: seq![],
        outputs: Map::empty(),
    }
}

/// What a job asks to be done.
pub open spec fn handled_by_job(job: BatchJob) -> Handled {
    Handled {
        direction: job.direction,
        algorithm: job.request.algorithm,
        data: job.request.data@,
        additional_data: job.request.authenticated_encryption_additional_data@,
    }
}

/// What has been seen after one more call and its reply. The position of a result that is received
/// or joined counts from the first request that was taken up since the slot was got.
pub open spec fn observe<'a, R>(seen: Trace<R>, call: BatchCall<'a>, reply: BatchReply<R>) -> Trace<
    R,
> {
    match (call, reply) {
        (BatchCall::GetSlot { slot_id }, BatchReply::Slot(Ok(_))) => Trace {
            slot: Some(slot_id),
            session: None,
            key: None,
            len: None,
            base: seen.handled.len(),
            ..seen
        },
        (
            BatchCall::Session(JobCall::OpenSession { slot_id, .. }),
            BatchReply::Session(JobReply::Opened(Ok(_))),
        ) => Trace { session: Some(slot_id), key: None, ..seen },
        (
            BatchCall::Session(JobCall::GetObjectHandle { key_id }),
            BatchReply::Session(JobReply::Handle(Ok(handle))),
        ) => Trace { key: Some((key_id@, handle)), ..seen },
        (
            BatchCall::Session(
                JobCall::Crypt { direction, algorithm, data, additional_data, .. },
            ),
            BatchReply::Session(JobReply::Output(Ok(output))),
        ) => Trace {
            handled: seen.handled.push(
                Handled { direction, algorithm, data: data@, additional_data: additional_data@ },
            ),
            outputs: seen.outputs.insert(seen.handled.len() as int, output),
            ..seen
        },
        (BatchCall::RsaModulusLen { .. }, BatchReply::ModulusLen(Ok(len))) => Trace { len, ..seen },
        (BatchCall::RsaModulusLen { .. }, BatchReply::ModulusLen(Err(_))) => Trace {
            len: None,
            ..seen
        },
        (BatchCall::SubmitJob { job, .. }, BatchReply::Pool(PoolReply::Submitted(true))) => Trace {
            handled: seen.handled.push(handled_by_job(job)),
            ..seen
        },
        (
            BatchCall::ReceiveResult,
            BatchReply::Pool(PoolReply::Received(Some((position, Ok(output))))),
        ) => Trace { outputs: seen.outputs.insert(seen.base + position, output), ..seen },
        (BatchCall::SpawnJob { job, .. }, BatchReply::Spawned) => Trace {
            handled: seen.handled.push(handled_by_job(job)),
            ..seen
        },
        (BatchCall::JoinJob { position }, BatchReply::Joined(Some(Ok(output)))) => Trace {
            outputs: seen.outputs.insert(seen.base + position, output),
            ..seen
        },
        _ => seen,
    }
}

/// What has been seen after some calls and their replies.
pub open spec fn observed<'a, R>(
    seen: Trace<R>,
    made: Seq<BatchCall<'a>>,
    replies: Seq<(BatchSettings, BatchReply<R>)>,
) -> Trace<R>
    decreases replies.len(),
{
    if made.len() == 0 || replies.len() == 0 {
        seen
    } else {
        observed(
            observe(seen, made[0], replies[0].1),
            made.drop_first(),
            replies.drop_first(),
        )
    }
}

/// What is to be done with a request.
pub open spec fn asked_for(direction: Direction, request: HsmBatchRequest) -> Handled {
    Handled {
        direction,
        algorithm: request.algorithm,
        data: request.data@,
        additional_data: request.authenticated_encryption_additional_data@,
    }
}

/// Whether an output is the one that came for a position.
pub open spec fn came<R>(seen: Trace<R>, position: int, output: R) -> bool {
    seen.outputs.contains_key(position) && seen.outputs[position] == output
}

/// Whether every output is the one that came for its position.
pub open spec fn delivered<R>(seen: Trace<R>, outputs: Seq<R>) -> bool {
    forall|i: int| 0 <= i < outputs.len() ==> came(seen, i, #[trigger] outputs[i])
}

spec fn agrees<'a, R>(batch: BatchState<'a, R>, seen: Trace<R>) -> bool {
    let requests = batch.requests@;
    let first = requests[batch.start as int];
    let done = batch.responses.len();
    let taken = seen.handled.len();
    &&& taken <= requests.len()
    &&& forall|i: int|
        0 <= i < taken ==> #[trigger] seen.handled[i] == asked_for(batch.direction, requests[i])
    &&& delivered(seen, batch.responses)
    &&& batch.phase !is Slot ==> seen.slot == Some(first.slot_id) && seen.base == batch.start
    &&& match batch.phase {
        Phase::Slot => taken == batch.start,
        Phase::ProbeSession | Phase::Session => taken == batch.start && seen.len is None,
        Phase::ProbeHandle | Phase::Handle => {
            &&& taken == batch.start
            &&& seen.len is None
            &&& seen.session == Some(first.slot_id)
        },
        Phase::ProbeModulusLen { handle } | Phase::ModulusLen { handle } => {
            &&& taken == batch.start
            &&& seen.len is None
            &&& seen.session == Some(first.slot_id)
            &&& seen.key == Some((first.key_id@, handle))
        },
        Phase::Crypt { handle, output_len } => {
            &&& taken == done
            &&& seen.len == output_len
            &&& seen.session == Some(first.slot_id)
            &&& seen.key == Some((first.key_id@, handle))
        },
        Phase::Pool { jobs, output_len } => {
            &&& taken == batch.start + jobs.submitted
            &&& seen.len == output_len
            &&& forall|p: int|
                0 <= p < jobs.outputs.len() ==> (#[trigger] jobs.outputs[p] matches Some(output)
                    ==> came(seen, batch.start + p, output))
        },
        Phase::Spawning { spawned, output_len } => {
            &&& taken == batch.start + spawned
            &&& seen.len == output_len
        },
        Phase::Joining => taken == batch.end,
    }
}

proof fn lemma_observe<'a, R>(
    batch: BatchState<'a, R>,
    call: BatchCall<'a>,
    seen: Trace<R>,
    settings: BatchSettings,
    reply: BatchReply<R>,
)
    requires
        batch.valid(),
        call_fits(batch, call),
        agrees(batch, seen),
        batch.expects(reply),
    ensures
        match batch.next(settings, reply) {
            Step::Call(next, next_call) => {
                &&& next.valid()
                &&& call_fits(next, next_call)
                &&& agrees(next, observe(seen, call, reply))
                &&& next.requests == batch.requests
                &&& next.direction == batch.direction
            },
            Step::Finish(Ok(outputs)) => {
                let after = observe(seen, call, reply);
                &&& outputs.len() == batch.requests@.len()
                &&& delivered(after, outputs)
                &&& after.handled.len() == batch.requests@.len()
                &&& forall|i: int|
                    0 <= i < after.handled.len() ==> #[trigger] after.handled[i] == asked_for(
                        batch.direction,
                        batch.requests@[i],
                    )
            },
            Step::Finish(Err(_)) => true,
        },
{
    assert(batch.requests@.len() == batch.requests.len());
    law_segment(batch.requests@, batch.start as int);
    law_segment_fields(batch.requests@, batch.start as int);
    if batch.end < batch.requests@.len() {
        law_segment(batch.requests@, batch.end as int);
    }
    let after = observe(seen, call, reply);
    match batch.phase {
        Phase::Pool { jobs, output_len } => {
            if let BatchReply::Pool(PoolReply::Received(Some((position, Ok(output))))) = reply {
                let updated = jobs.outputs.update(position as int, Some(output));
                assert(after.outputs == seen.outputs.insert(batch.start + position, output));
                assert forall|p: int| 0 <= p < updated.len() implies (
                #[trigger] updated[p] matches Some(given) ==> came(after, batch.start + p, given)) by {
                    if p != position {
                        assert(updated[p] == jobs.outputs[p]);
                    }
                }
                if let Step::Finish(Ok(values)) = jobs.next(reply->Pool_0) {
                    let responses = batch.responses + values;
                    assert forall|i: int| 0 <= i < responses.len() implies came(
                        after,
                        i,
                        #[trigger] responses[i],
                    ) by {
                        if i < batch.start {
                            assert(came(seen, i, batch.responses[i]));
                        } else {
                            assert(updated[i - batch.start] == Some(responses[i]));
                        }
                    }
                    assert(delivered(after, responses));
                }
            }
        },
        Phase::Crypt { .. } => {
            if let BatchReply::Session(JobReply::Output(Ok(output))) = reply {
                let responses = batch.responses.push(output);
                assert forall|i: int| 0 <= i < responses.len() implies came(
                    after,
                    i,
                    #[trigger] responses[i],
                ) by {
                    if i < batch.responses.len() {
                        assert(came(seen, i, batch.responses[i]));
                    }
                }
                assert(delivered(after, responses));
            }
        },
        Phase::Joining => {
            if let BatchReply::Joined(Some(Ok(output))) = reply {
                let responses = batch.responses.push(output);
                assert forall|i: int| 0 <= i < responses.len() implies came(
                    after,
                    i,
                    #[trigger] responses[i],
                ) by {
                    if i < batch.responses.len() {
                        assert(came(seen, i, batch.responses[i]));
                    }
                }
                assert(delivered(after, responses));
            }
        },
        _ => {},
    }
}

/// Whether two requests have one slot, one key and one algorithm.
pub open spec fn same_slot_key_algorithm(a: HsmBatchRequest, b: HsmBatchRequest) -> bool {
    a.slot_id == b.slot_id && a.key_id@ == b.key_id@ && a.algorithm == b.algorithm
}

/// Whether an algorithm is one of the three of RSA keys.
pub open spec fn is_rsa(algorithm: CryptoAlgorithm) -> bool {
    algorithm == CryptoAlgorithm::RsaPkcsV15 || algorithm == CryptoAlgorithm::RsaOaepSha256
        || algorithm == CryptoAlgorithm::RsaOaepSha1
}

/// Whether a job is made for a request: it is on the slot that was got for it, asks for the very
/// thing that is to be done with the request, and carries the length that was read.
pub open spec fn job_is_for<R>(
    job: BatchJob,
    position: usize,
    direction: Direction,
    request: HsmBatchRequest,
    seen: Trace<R>,
) -> bool {
    &&& job.direction == direction
    &&& job.request.slot_id == request.slot_id
    &&& job.request.key_id@ == request.key_id@
    &&& job.request.algorithm == request.algorithm
    &&& job.request.data@ == request.data@
    &&& job.request.authenticated_encryption_additional_data@
        == request.authenticated_encryption_additional_data@
    &&& job.output_len == seen.len
    &&& position == seen.handled.len() - seen.base
    &&& seen.slot == Some(request.slot_id)
    &&& is_rsa(request.algorithm)
}

/// Whether a call is one that belongs to what has been seen. The request that comes next is the
/// first that has not been taken up.
///
/// Its slot is got, a session is opened on that slot for reading and writing, and its key is looked
/// up on that session. It is then encrypted or decrypted with the handle that this look-up of this
/// very key gave: its data as the data, its additional data as the additional data, with its own
/// algorithm, and with the length that was read, if any was. A length is read of an RSA key only,
/// from that handle. A job carries the same. Results are received and joined once every request
/// with the same slot, key and algorithm has been taken up.
pub open spec fn call_belongs<'a, R>(
    requests: Seq<HsmBatchRequest>,
    direction: Direction,
    seen: Trace<R>,
    call: BatchCall<'a>,
) -> bool {
    let taken = seen.handled.len() as int;
    let following = requests[taken];
    match call {
        BatchCall::GetSlot { slot_id } => taken < requests.len() && slot_id == following.slot_id,
        BatchCall::Session(JobCall::OpenSession { slot_id, read_write }) => {
            &&& taken < requests.len()
            &&& slot_id == following.slot_id
            &&& seen.slot == Some(following.slot_id)
            &&& read_write
        },
        BatchCall::Session(JobCall::GetObjectHandle { key_id }) => {
            &&& taken < requests.len()
            &&& key_id@ == following.key_id@
            &&& seen.session == Some(following.slot_id)
        },
        BatchCall::Session(
            JobCall::Crypt { direction: d, handle, algorithm, data, additional_data, output_len },
        ) => {
            &&& taken < requests.len()
            &&& d == direction
            &&& algorithm == following.algorithm
            &&& data@ == following.data@
            &&& additional_data@ == following.authenticated_encryption_additional_data@
            &&& seen.session == Some(following.slot_id)
            &&& seen.key == Some((following.key_id@, handle))
            &&& output_len == seen.len
        },
        BatchCall::RsaModulusLen { handle } => {
            &&& taken < requests.len()
            &&& seen.session == Some(following.slot_id)
            &&& seen.key == Some((following.key_id@, handle))
            &&& is_rsa(following.algorithm)
        },
        BatchCall::SubmitJob { position, job } => {
            taken < requests.len() && job_is_for(job, position, direction, following, seen)
        },
        BatchCall::SpawnJob { position, job } => {
            taken < requests.len() && job_is_for(job, position, direction, following, seen)
        },
        BatchCall::ReceiveResult => {
            &&& seen.base + 1 < taken <= requests.len()
            &&& taken < requests.len() ==> !same_slot_key_algorithm(following, requests[taken - 1])
        },
        BatchCall::JoinJob { position } => {
            &&& seen.base + 1 < taken <= requests.len()
            &&& taken < requests.len() ==> !same_slot_key_algorithm(following, requests[taken - 1])
            &&& seen.base + position < taken
            &&& forall|i: int|
                0 <= i < seen.base + position ==> #[trigger] seen.outputs.contains_key(i)
        },
    }
}

proof fn lemma_call_belongs<'a, R>(batch: BatchState<'a, R>, call: BatchCall<'a>, seen: Trace<R>)
    requires
        batch.valid(),
        call_fits(batch, call),
        agrees(batch, seen),
    ensures
        call_belongs(batch.requests@, batch.direction, seen, call),
{
    assert(batch.requests@.len() == batch.requests.len());
    law_segment_fields(batch.requests@, batch.start as int);
    if let BatchCall::JoinJob { position } = call {
        assert forall|i: int| 0 <= i < seen.base + position implies #[trigger] seen.outputs.contains_key(
            i,
        ) by {
            assert(came(seen, i, batch.responses[i]));
        }
    }
}

/// Whether what was taken up is what the requests ask for, each once and in order.
pub open spec fn takes_up_in_order<R>(
    requests: Seq<HsmBatchRequest>,
    direction: Direction,
    seen: Trace<R>,
) -> bool {
    &&& seen.handled.len() <= requests.len()
    &&& forall|i: int|
        0 <= i < seen.handled.len() ==> {
            &&& (#[trigger] seen.handled[i]).direction == direction
            &&& seen.handled[i].algorithm == requests[i].algorithm
            &&& seen.handled[i].data == requests[i].data@
            &&& seen.handled[i].additional_data
                == requests[i].authenticated_encryption_additional_data@
        }
}

proof fn lemma_batch_trace<'a, R>(
    batch: BatchState<'a, R>,
    call: BatchCall<'a>,
    seen: Trace<R>,
    replies: Seq<(BatchSettings, BatchReply<R>)>,
)
    requires
        batch.valid(),
        call_fits(batch, call),
        agrees(batch, seen),
        batch_replies(Step::Call(batch, call), replies),
    ensures
        ({
            let made = calls(batch_next(), Step::Call(batch, call), replies);
            let after = observed(seen, made, replies);
            match run(batch_next(), Step::Call(batch, call), replies) {
                Step::Call(_, pending) => {
                    &&& takes_up_in_order(batch.requests@, batch.direction, after)
                    &&& call_belongs(batch.requests@, batch.direction, after, pending)
                },
                Step::Finish(Ok(outputs)) => {
                    &&& takes_up_in_order(batch.requests@, batch.direction, after)
                    &&& after.handled.len() == batch.requests@.len()
                    &&& outputs.len() == batch.requests@.len()
                    &&& delivered(after, outputs)
                },
                Step::Finish(Err(_)) => true,
            }
        }),
    decreases replies.len(),
{
    reveal_with_fuel(run, 2);
    reveal_with_fuel(calls, 2);
    reveal_with_fuel(expected, 2);
    reveal_with_fuel(observed, 2);
    if replies.len() == 0 {
        lemma_call_belongs(batch, call, seen);
    } else {
        let step = batch.next(replies[0].0, replies[0].1);
        let rest = replies.drop_first();
        let made = calls(batch_next(), Step::Call(batch, call), replies);
        lemma_observe(batch, call, seen, replies[0].0, replies[0].1);
        assert(made[0] == call);
        assert(made.drop_first() =~= calls(batch_next(), step, rest));
        if let Step::Call(next, next_call) = step {
            lemma_batch_trace(next, next_call, observe(seen, call, replies[0].1), rest);
        }
    }
}

/// What an onlooker sees of a batch, whatever the replies and the settings.
///
/// At every moment the requests have been taken up in order, each once, and the next call belongs to
/// what has been seen. A batch that ends well has taken up every request, and gives for each
/// position the output that came for the request there.
pub proof fn law_batch_trace<'a, R>(
    requests: &'a [HsmBatchRequest],
    direction: Direction,
    replies: Seq<(BatchSettings, BatchReply<R>)>,
)
    requires
        batch_replies(batch_start(requests, direction), replies),
    ensures
        ({
            let made = calls(batch_next(), batch_start(requests, direction), replies);
            let seen = observed(nothing_seen(), made, replies);
            match run(batch_next(), batch_start(requests, direction), replies) {
                Step::Call(_, call) => {
                    &&& takes_up_in_order(requests@, direction, seen)
                    &&& call_belongs(requests@, direction, seen, call)
                },
                Step::Finish(Ok(outputs)) => {
                    &&& takes_up_in_order(requests@, direction, seen)
                    &&& seen.handled.len() == requests@.len()
                    &&& outputs.len() == requests@.len()
                    &&& delivered(seen, outputs)
                },
                Step::Finish(Err(_)) => true,
            }
        }),
{
    assert(requests@.len() == requests.len());
    if requests@.len() > 0 {
        law_segment(requests@, 0);
        if let Step::Call(batch, call) = batch_start::<R>(requests, direction) {
            lemma_batch_trace(batch, call, nothing_seen(), replies);
        }
    }
}

/// How the requests of a segment are handled. Where there is more than one with the same slot, key
/// and algorithm, the algorithm is one of RSA keys and the settings ask for it, they are handled at
/// once, by the worker pool where the settings ask for it and else by threads of their own; the
/// length of the outputs is read beforehand where the settings ask for it. Else they are handled on
/// one session, and the length is read beforehand where the settings ask for it and the algorithm is
/// one of RSA keys.
pub proof fn law_batch_mode<'a, R>(
    batch: BatchState<'a, R>,
    settings: BatchSettings,
    reply: BatchReply<R>,
)
    requires
        batch.valid(),
        batch.expects(reply),
    ensures
        ({
            let requests = batch.requests@;
            let start = batch.start as int;
            let rsa = is_rsa(requests[start].algorithm);
            let several = start + 1 < requests.len() && same_slot_key_algorithm(
                requests[start + 1],
                requests[start],
            );
            let call = match batch.next(settings, reply) {
                Step::Call(_, call) => Some(call),
                Step::Finish(_) => None,
            };
            match (batch.phase, reply) {
                (Phase::Slot, BatchReply::Slot(Ok(_))) => {
                    &&& call is Some
                    &&& several && rsa && settings.parallel_rsa && !settings.fixed_output_len ==> {
                        &&& settings.worker_pool ==> call->0 is SubmitJob
                        &&& !settings.worker_pool ==> call->0 is SpawnJob
                    }
                    &&& !(several && rsa && settings.parallel_rsa && !settings.fixed_output_len)
                        ==> call->0 is Session
                    &&& batch.next(settings, reply)->Call_0.phase is ProbeSession == (several && rsa
                        && settings.parallel_rsa && settings.fixed_output_len)
                },
                (Phase::ProbeSession, BatchReply::Session(JobReply::Opened(Ok(_)))) => {
                    call matches Some(BatchCall::Session(JobCall::GetObjectHandle { .. }))
                },
                (Phase::ProbeHandle, BatchReply::Session(JobReply::Handle(Ok(handle)))) => {
                    call == Some(BatchCall::RsaModulusLen { handle })
                },
                (Phase::ProbeModulusLen { .. }, BatchReply::ModulusLen(_)) => {
                    &&& call is Some
                    &&& settings.worker_pool ==> call->0 is SubmitJob
                    &&& !settings.worker_pool ==> call->0 is SpawnJob
                },
                (Phase::Session, BatchReply::Session(JobReply::Opened(Ok(_)))) => {
                    call matches Some(BatchCall::Session(JobCall::GetObjectHandle { .. }))
                },
                (Phase::Handle, BatchReply::Session(JobReply::Handle(Ok(handle)))) => {
                    if settings.fixed_output_len && rsa {
                        call == Some(BatchCall::RsaModulusLen { handle })
                    } else {
                        call matches Some(BatchCall::Session(JobCall::Crypt { .. }))
                    }
                },
                (Phase::ModulusLen { .. }, BatchReply::ModulusLen(_)) => {
                    call matches Some(BatchCall::Session(JobCall::Crypt { .. }))
                },
                _ => true,
            }
        }),
{
    assert(batch.requests@.len() == batch.requests.len());
    law_segment_fields(batch.requests@, batch.start as int);
}

/// While a segment is handled, the next request of it follows at once: on the same session with the
/// same handle, or as the next job. The next segment begins with its slot.
pub proof fn law_segment_goes_on<'a, R>(
    batch: BatchState<'a, R>,
    settings: BatchSettings,
    output: R,
)
    requires
        batch.valid(),
        batch.phase is Crypt,
    ensures
        ({
            let requests = batch.requests@;
            let done = batch.responses.len() as int;
            let reply = BatchReply::Session(JobReply::Output(Ok(output)));
            match batch.next(settings, reply) {
                Step::Call(next, BatchCall::Session(JobCall::Crypt { handle, output_len, .. })) => {
                    &&& done + 1 < requests.len()
                    &&& same_slot_key_algorithm(requests[done + 1], requests[done])
                    &&& handle == batch.phase->Crypt_handle
                    &&& output_len == batch.phase->Crypt_output_len
                },
                Step::Call(next, BatchCall::GetSlot { .. }) => {
                    &&& done + 1 < requests.len()
                    &&& !same_slot_key_algorithm(requests[done + 1], requests[done])
                },
                Step::Finish(Ok(outputs)) => {
                    &&& done + 1 == requests.len()
                    &&& outputs == batch.responses.push(output)
                },
                _ => false,
            }
        }),
{
    assert(batch.requests@.len() == batch.requests.len());
    law_segment_fields(batch.requests@, batch.start as int);
}

/// A job, reply by reply: it opens a session for reading and writing on the slot of its request,
/// looks the key of its request up there, and asks for the data of the request to be encrypted or
/// decrypted as the job says, with the handle that the look-up gave. The first call that fails ends
/// the job with its error, and nothing more is asked.
pub proof fn law_job_protocol<'a, R>(job: BatchJob<'a>, replies: Seq<JobReply<R>>)
    requires
        replies.len() >= 3,
    ensures
        ({
            let end = job_run(job, replies);
            let made = job_calls(job, replies);
            &&& made.len() >= 1
            &&& made[0] == (JobCall::OpenSession {
                slot_id: job.request.slot_id,
                read_write: true,
            })
            &&& match replies[0] {
                JobReply::Opened(Err(e)) => {
                    &&& end matches Step::Finish(Err(error)) && error == e
                    &&& made.len() == 1
                },
                JobReply::Opened(Ok(_)) => {
                    &&& made.len() >= 2
                    &&& made[1] matches JobCall::GetObjectHandle { key_id }
                    &&& key_id@ == job.request.key_id@
                    &&& match replies[1] {
                        JobReply::Handle(Err(e)) => {
                            &&& end matches Step::Finish(Err(error)) && error == e
                            &&& made.len() == 2
                        },
                        JobReply::Handle(Ok(found)) => {
                            &&& made.len() == 3
                            &&& made[2] matches JobCall::Crypt {
                                direction,
                                handle,
                                algorithm,
                                data,
                                additional_data,
                                output_len,
                            }
                            &&& direction == job.direction
                            &&& handle == found
                            &&& algorithm == job.request.algorithm
                            &&& data@ == job.request.data@
                            &&& additional_data@
                                == job.request.authenticated_encryption_additional_data@
                            &&& output_len == job.output_len
                            &&& match replies[2] {
                                JobReply::Output(result) => {
                                    end matches Step::Finish(given) && given == result
                                },
                                _ => true,
                            }
                        },
                        _ => true,
                    }
                },
                _ => true,
            }
        }),
{
    reveal_with_fuel(run, 4);
    reveal_with_fuel(calls, 4);
}

/// The call that handles a request carries, field by field, the direction, the handle and the length
/// that are given, and of the request its algorithm, its data as the data and its additional data as
/// the additional data.
pub proof fn law_crypt_fields<'a>(
    direction: Direction,
    request: &'a HsmBatchRequest,
    handle: CK_OBJECT_HANDLE,
    output_len: Option<usize>,
)
    ensures
        crypt_call(direction, request, handle, output_len) matches JobCall::Crypt {
            direction: d,
            handle: h,
            algorithm,
            data,
            additional_data,
            output_len: len,
        } && d == direction && h == handle && algorithm == request.algorithm && data@
            == request.data@ && additional_data@
            == request.authenticated_encryption_additional_data@ && len == output_len,
{
}

proof fn lemma_pool_calls<T>(
    jobs: PoolState<T>,
    call: PoolCall,
    replies: Seq<PoolReply<T>>,
    before: nat,
)
    requires
        jobs.valid(),
        before == jobs.submitted + jobs.received,
        before < jobs.outputs.len() ==> call == (PoolCall::Submit { position: before as usize }),
        before >= jobs.outputs.len() ==> call is Receive,
        pool_replies(Step::<_, _, InterfaceResultView<Seq<T>>>::Call(jobs, call), replies),
    ensures
        ({
            let job_count = jobs.outputs.len();
            let total = before + replies.len();
            match run(pool_next(), Step::Call(jobs, call), replies) {
                Step::Call(_, PoolCall::Submit { position }) => position == total && total
                    < job_count,
                Step::Call(_, PoolCall::Receive) => job_count <= total < 2 * job_count,
                Step::Finish(Ok(outputs)) => outputs.len() == job_count && total >= 2 * job_count,
                Step::Finish(Err(_)) => true,
            }
        }),
    decreases replies.len(),
{
    reveal_with_fuel(run, 2);
    reveal_with_fuel(expected, 2);
    if replies.len() > 0 {
        if let Step::Call(next, next_call) = jobs.next(replies[0]) {
            lemma_pool_calls(next, next_call, replies.drop_first(), before + 1);
        }
    }
}

/// The pool is handed every job, once each and in order, before a result is received, and as many
/// results are received as there are jobs.
pub proof fn law_pool_calls<T>(job_count: usize, replies: Seq<PoolReply<T>>)
    requires
        pool_replies(pool_start(job_count as nat), replies),
    ensures
        match run(pool_next(), pool_start(job_count as nat), replies) {
            Step::Call(_, PoolCall::Submit { position }) => position == replies.len()
                && replies.len() < job_count,
            Step::Call(_, PoolCall::Receive) => job_count <= replies.len() < 2 * job_count,
            Step::Finish(Ok(outputs)) => outputs.len() == job_count && replies.len() >= 2
                * job_count,
            Step::Finish(Err(_)) => true,
        },
{
    if job_count > 0 {
        if let Step::Call(jobs, call) = pool_start::<T>(job_count as nat) {
            lemma_pool_calls(jobs, call, replies, 0);
        }
    }
}

/// The first failure that the pool reports ends the run, with its error. Without one the run goes on
/// or ends well, unless a result never came because that of another job came twice.
pub proof fn law_pool_failures<T>(jobs: PoolState<T>, reply: PoolReply<T>)
    requires
        jobs.valid(),
        jobs.expects(reply),
    ensures
        match reply {
            PoolReply::Submitted(false) => jobs.next(reply) matches Step::Finish(
                Err(InterfaceError::Default(message)),
            ) && message == "failed to submit HSM batch worker job"@,
            PoolReply::Submitted(true) => jobs.next(reply) is Call,
            PoolReply::Received(None) => jobs.next(reply) matches Step::Finish(
                Err(InterfaceError::Default(message)),
            ) && message == "failed to receive HSM batch worker result"@,
            PoolReply::Received(Some((_, Err(e)))) => jobs.next(reply) matches Step::Finish(
                Err(error),
            ) && error == e@,
            PoolReply::Received(Some((position, Ok(output)))) => match jobs.next(reply) {
                Step::Call(next, _) => {
                    &&& jobs.received + 1 < jobs.outputs.len()
                    &&& next.outputs[position as int] == Some(output)
                    &&& forall|i: int|
                        0 <= i < jobs.outputs.len() && i != position
                            ==> #[trigger] next.outputs[i] == jobs.outputs[i]
                },
                Step::Finish(Ok(outputs)) => {
                    &&& outputs.len() == jobs.outputs.len()
                    &&& outputs[position as int] == output
                    &&& forall|i: int|
                        0 <= i < jobs.outputs.len() && i != position ==> jobs.outputs[i] == Some(
                            #[trigger] outputs[i],
                        )
                },
                Step::Finish(Err(e)) => {
                    &&& e matches InterfaceError::Default(message)
                    &&& message == "missing HSM batch worker result"@
                    &&& exists|i: int|
                        0 <= i < jobs.outputs.len() && i != position && #[trigger] jobs.outputs[i] is None
                },
            },
        },
{
    if let PoolReply::Received(Some((position, Ok(output)))) = reply {
        let updated = jobs.outputs.update(position as int, Some(output));
        if let Step::Finish(Err(_)) = jobs.next(reply) {
            let missing = choose|i: int| 0 <= i < updated.len() && !(#[trigger] updated[i] is Some);
            assert(jobs.outputs[missing] is None);
        }
        if let Step::Finish(Ok(outputs)) = jobs.next(reply) {
            assert forall|i: int| 0 <= i < jobs.outputs.len() && i != position implies jobs.outputs[i]
                == Some(#[trigger] outputs[i]) by {
                assert(updated[i] is Some);
            }
        }
    }
}

/// The failures that end a batch, in their words.
pub proof fn law_batch_failures<'a, R>(
    batch: BatchState<'a, R>,
    settings: BatchSettings,
    reply: BatchReply<R>,
)
    requires
        batch.valid(),
        batch.expects(reply),
    ensures
        ({
            let error = match batch.next(settings, reply) {
                Step::Finish(Err(e)) => Some(e),
                _ => None,
            };
            match reply {
                BatchReply::Slot(Err(e)) => error == Some(e@),
                BatchReply::Session(JobReply::Opened(Err(e))) => error == Some(e@),
                BatchReply::Session(JobReply::Handle(Err(e))) => error == Some(e@),
                BatchReply::Session(JobReply::Output(Err(e))) => error == Some(e@),
                BatchReply::Pool(PoolReply::Submitted(false)) => error == Some(
                    InterfaceError::Default("failed to submit HSM batch worker job"@),
                ),
                BatchReply::Pool(PoolReply::Received(None)) => error == Some(
                    InterfaceError::Default("failed to receive HSM batch worker result"@),
                ),
                BatchReply::Pool(PoolReply::Received(Some((_, Err(e))))) => error == Some(e@),
                BatchReply::Joined(Some(Err(e))) => error == Some(e@),
                BatchReply::Joined(None) => error == Some(
                    InterfaceError::Default(
                        if batch.direction == Direction::Encrypt {
                            "parallel HSM RSA encrypt worker panicked"@
                        } else {
                            "parallel HSM RSA decrypt worker panicked"@
                        },
                    ),
                ),
                BatchReply::Pool(PoolReply::Received(Some((_, Ok(_))))) => error is None || error
                    == Some(InterfaceError::Default("missing HSM batch worker result"@)),
                _ => error is None,
            }
        }),
{
}

/// Every reply of the kind that a call asks for is one that a batch, a job and the pool go on with,
/// save that a result which is received is that of one of the jobs.
pub proof fn law_batches_take_every_reply<'a, R>(
    job: JobRun<'a>,
    job_reply: JobReply<R>,
    pool: PoolState<R>,
    pool_reply: PoolReply<R>,
    batch: BatchState<'a, R>,
    reply: BatchReply<R>,
)
    ensures
        job.expects(job_reply) == match job {
            JobRun::Opening(_) => job_reply is Opened,
            JobRun::Finding(_) => job_reply is Handle,
            JobRun::Crypting => job_reply is Output,
        },
        pool.expects(pool_reply) == match pool_reply {
            PoolReply::Submitted(_) => pool.submitted < pool.outputs.len(),
            PoolReply::Received(Some((position, _))) => pool.submitted >= pool.outputs.len()
                && position < pool.outputs.len(),
            PoolReply::Received(None) => pool.submitted >= pool.outputs.len(),
        },
        batch.expects(reply) == match reply {
            BatchReply::Slot(_) => batch.phase is Slot,
            BatchReply::Session(JobReply::Opened(_)) => batch.phase is ProbeSession
                || batch.phase is Session,
            BatchReply::Session(JobReply::Handle(_)) => batch.phase is ProbeHandle
                || batch.phase is Handle,
            BatchReply::Session(JobReply::Output(_)) => batch.phase is Crypt,
            BatchReply::ModulusLen(_) => batch.phase is ProbeModulusLen
                || batch.phase is ModulusLen,
            BatchReply::Pool(r) => match batch.phase {
                Phase::Pool { jobs, .. } => jobs.expects(r),
                _ => false,
            },
            BatchReply::Spawned => batch.phase is Spawning,
            BatchReply::Joined(_) => batch.phase is Joining,
        },
{
}

/// A length that could not be read, or that is not known, is none; a length that is known stays as
/// it is.
pub proof fn law_known_len(reply: InterfaceResult<Option<usize>>)
    ensures
        match known_len(reply) {
            Some(len) => reply matches Ok(Some(read)) && read == len,
            None => !(reply matches Ok(Some(_))),
        },
{
}

/// The results come out in the order of the jobs, one for each, and only where every job has one.
pub proof fn law_collected<T>(outputs: Seq<Option<T>>)
    ensures
        match collected(outputs) {
            Ok(values) => {
                &&& values.len() == outputs.len()
                &&& forall|i: int|
                    0 <= i < outputs.len() ==> #[trigger] outputs[i] == Some(values[i])
            },
            Err(error) => {
                &&& exists|i: int| 0 <= i < outputs.len() && #[trigger] outputs[i] is None
                &&& error matches InterfaceError::Default(message)
                &&& message == "missing HSM batch worker result"@
            },
        },
{
}

/// Contracts speak of the calls of a batch and of the pool as they are made.
pub proof fn law_batch_calls_are_seen_whole<'a>(call: BatchCall<'a>, pool_call: PoolCall)
    ensures
        call@ == call,
        pool_call@ == pool_call,
{
}

} // verus!
