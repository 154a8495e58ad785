//! What holds of a whole batch.

use pkcs11_sys::CK_OBJECT_HANDLE;
use vstd::prelude::*;

use super::job::crypt_call;
use super::job::BatchJob;
use super::job::JobCall;
use super::job::JobReply;
use super::job::JobRun;
use super::pool::collected;
use super::pool::pool_start;
use super::pool::PoolCall;
use super::pool::PoolReply;
use super::pool::PoolState;
use super::request::law_segment;
use super::request::HsmBatchRequest;
use super::run::segment_start;
use super::run::BatchCall;
use super::run::BatchReply;
use super::run::BatchState;
use super::run::BatchStepView;
use super::run::Phase;
use super::settings::BatchSettings;
use crate::error::job_not_submitted_text;
use crate::error::result_missing_text;
use crate::error::result_not_received_text;
use crate::error::worker_panicked_text;
use crate::error::Direction;
use crate::error::InterfaceError;
use crate::error::InterfaceErrorView;
use crate::error::InterfaceResult;
use crate::error::InterfaceResultView;
use crate::step::calls;
use crate::step::expected;
use crate::step::run;
use crate::step::Step;

verus! {

/// How many of the outputs are there.
pub open spec fn filled<T>(outputs: Seq<Option<T>>) -> nat
    decreases outputs.len(),
{
    if outputs.len() == 0 {
        0
    } else {
        filled(outputs.drop_last()) + if outputs.last() is Some {
            1nat
        } else {
            0nat
        }
    }
}

proof fn lemma_filled_none<T>(outputs: Seq<Option<T>>)
    requires
        forall|i: int| 0 <= i < outputs.len() ==> #[trigger] outputs[i] is None,
    ensures
        filled(outputs) == 0,
    decreases outputs.len(),
{
    if outputs.len() > 0 {
        lemma_filled_none(outputs.drop_last());
    }
}

proof fn lemma_filled_all<T>(outputs: Seq<Option<T>>)
    ensures
        filled(outputs) <= outputs.len(),
        filled(outputs) == outputs.len() ==> forall|i: int|
            0 <= i < outputs.len() ==> #[trigger] outputs[i] is Some,
    decreases outputs.len(),
{
    if outputs.len() > 0 {
        lemma_filled_all(outputs.drop_last());
        assert forall|i: int|
            filled(outputs) == outputs.len() && 0 <= i
                < outputs.len() implies #[trigger] outputs[i] is Some by {
            if i < outputs.len() - 1 {
                assert(outputs.drop_last()[i] is Some);
            }
        }
    }
}

proof fn lemma_filled_some<T>(outputs: Seq<Option<T>>)
    requires
        forall|i: int| 0 <= i < outputs.len() ==> #[trigger] outputs[i] is Some,
    ensures
        filled(outputs) == outputs.len(),
    decreases outputs.len(),
{
    if outputs.len() > 0 {
        let shorter = outputs.drop_last();
        assert forall|i: int| 0 <= i < shorter.len() implies #[trigger] shorter[i] is Some by {
            assert(outputs[i] is Some);
        }
        lemma_filled_some(shorter);
    }
}

proof fn lemma_filled_update<T>(outputs: Seq<Option<T>>, position: int, output: T)
    requires
        0 <= position < outputs.len(),
    ensures
        filled(outputs.update(position, Some(output))) == filled(outputs)
            + if outputs[position] is None {
            1nat
        } else {
            0nat
        },
    decreases outputs.len(),
{
    let updated = outputs.update(position, Some(output));
    if position < outputs.len() - 1 {
        lemma_filled_update(outputs.drop_last(), position, output);
        assert(updated.drop_last() =~= outputs.drop_last().update(position, Some(output)));
    } else {
        assert(updated.drop_last() =~= outputs.drop_last());
    }
}

/// Whether a reply says that the pool takes a job, or gives the output of a job whose output it has
/// not given before. `outputs` holds the output of each job.
pub open spec fn pool_delivers<T>(
    jobs: PoolState<T>,
    reply: PoolReply<T>,
    outputs: Seq<T>,
) -> bool {
    &&& jobs.expects(reply)
    &&& match reply {
        PoolReply::Submitted(queued) => queued,
        PoolReply::Received(Some((position, Ok(output)))) => {
            &&& jobs.outputs[position as int] is None
            &&& output == outputs[position as int]
        },
        PoolReply::Received(_) => false,
    }
}

/// The step of the pool, as a function.
pub open spec fn pool_next<T>() -> spec_fn(PoolState<T>, PoolReply<T>) -> Step<
    PoolState<T>,
    PoolCall,
    InterfaceResultView<Seq<T>>,
> {
    |jobs: PoolState<T>, reply: PoolReply<T>| jobs.next(reply)
}

/// Whether every reply of the pool is one to the call that was made before it.
pub open spec fn pool_replies<T>(
    step: Step<PoolState<T>, PoolCall, InterfaceResultView<Seq<T>>>,
    replies: Seq<PoolReply<T>>,
) -> bool {
    expected(
        |jobs: PoolState<T>, reply: PoolReply<T>| jobs.expects(reply),
        pool_next(),
        step,
        replies,
    )
}

/// Whether the pool takes every job, and gives the output of each job once. `outputs` holds the
/// output of each job.
pub open spec fn pool_always_delivers<T>(
    step: Step<PoolState<T>, PoolCall, InterfaceResultView<Seq<T>>>,
    replies: Seq<PoolReply<T>>,
    outputs: Seq<T>,
) -> bool {
    expected(
        |jobs: PoolState<T>, reply: PoolReply<T>| pool_delivers(jobs, reply, outputs),
        pool_next(),
        step,
        replies,
    )
}

/// Whether the outputs that are there are those of their jobs.
pub open spec fn pool_agrees<T>(jobs: PoolState<T>, outputs: Seq<T>) -> bool {
    forall|i: int|
        0 <= i < jobs.outputs.len() ==> #[trigger] jobs.outputs[i] is None || jobs.outputs[i]
            == Some(outputs[i])
}

/// Whether the outputs that are there are those of their jobs, and as many as have been received.
pub open spec fn pool_faithful<T>(jobs: PoolState<T>, outputs: Seq<T>) -> bool {
    &&& filled(jobs.outputs) == jobs.received
    &&& outputs.len() == jobs.outputs.len()
    &&& pool_agrees(jobs, outputs)
}

proof fn lemma_pool_start<T>(job_count: nat, outputs: Seq<T>)
    requires
        0 < job_count <= usize::MAX,
    ensures
        pool_start::<T>(job_count) matches Step::Call(jobs, _) && jobs.valid() && filled(
            jobs.outputs,
        ) == jobs.received && pool_agrees(jobs, outputs) && jobs.outputs.len() == job_count,
{
    lemma_filled_none(pool_start::<T>(job_count)->Call_0.outputs);
}

proof fn lemma_pool_next<T>(jobs: PoolState<T>, reply: PoolReply<T>, outputs: Seq<T>)
    requires
        jobs.valid(),
        pool_faithful(jobs, outputs),
        pool_delivers(jobs, reply, outputs),
    ensures
        match jobs.next(reply) {
            Step::Call(next, _) => next.valid() && pool_faithful(next, outputs)
                && next.outputs.len() == jobs.outputs.len(),
            Step::Finish(result) => result == Ok::<Seq<T>, InterfaceErrorView>(outputs),
        },
{
    if let PoolReply::Received(Some((position, Ok(output)))) = reply {
        lemma_filled_update(jobs.outputs, position as int, output);
        let updated = jobs.outputs.update(position as int, Some(output));
        lemma_filled_all(updated);
        if jobs.received + 1 == updated.len() {
            assert(collected(updated)->Ok_0 =~= outputs);
        }
    }
}

proof fn lemma_pool_run<T>(
    jobs: PoolState<T>,
    call: PoolCall,
    replies: Seq<PoolReply<T>>,
    outputs: Seq<T>,
)
    requires
        jobs.valid(),
        pool_faithful(jobs, outputs),
        pool_always_delivers(
            Step::<_, _, InterfaceResultView<Seq<T>>>::Call(jobs, call),
            replies,
            outputs,
        ),
        replies.len() >= 2 * jobs.outputs.len() - jobs.submitted - jobs.received,
    ensures
        run(pool_next(), Step::Call(jobs, call), replies) == Step::Finish::<
            PoolState<T>,
            PoolCall,
            InterfaceResultView<Seq<T>>,
        >(Ok(outputs)),
    decreases replies.len(),
{
    reveal_with_fuel(run, 2);
    lemma_pool_next(jobs, replies[0], outputs);
    if let Step::Call(next, next_call) = jobs.next(replies[0]) {
        lemma_pool_run(next, next_call, replies.drop_first(), outputs);
    }
}

/// What follows a reply can still give `outputs` only where the reply delivers one of them.
proof fn lemma_pool_back<T>(jobs: PoolState<T>, reply: PoolReply<T>, outputs: Seq<T>)
    requires
        jobs.valid(),
        jobs.expects(reply),
        filled(jobs.outputs) <= jobs.received,
        match jobs.next(reply) {
            Step::Call(next, _) => filled(next.outputs) <= next.received ==> pool_faithful(
                next,
                outputs,
            ),
            Step::Finish(result) => result == Ok::<Seq<T>, InterfaceErrorView>(outputs),
        },
    ensures
        pool_faithful(jobs, outputs),
        pool_delivers(jobs, reply, outputs),
{
    if let PoolReply::Received(Some((position, Ok(output)))) = reply {
        lemma_filled_update(jobs.outputs, position as int, output);
        let updated = jobs.outputs.update(position as int, Some(output));
        if jobs.received + 1 == updated.len() {
            lemma_filled_some(updated);
            assert(outputs =~= updated.map_values(|output: Option<T>| output->0));
        }
        assert(updated[position as int] is Some);
        assert forall|i: int| 0 <= i < jobs.outputs.len() implies #[trigger] jobs.outputs[i] is None
            || jobs.outputs[i] == Some(outputs[i]) by {
            assert(updated[i] is None || updated[i] == Some(outputs[i]));
        }
    }
}

proof fn lemma_pool_run_back<T>(
    jobs: PoolState<T>,
    call: PoolCall,
    replies: Seq<PoolReply<T>>,
    outputs: Seq<T>,
)
    requires
        jobs.valid(),
        filled(jobs.outputs) <= jobs.received,
        pool_replies(Step::<_, _, InterfaceResultView<Seq<T>>>::Call(jobs, call), replies),
        run(pool_next(), Step::Call(jobs, call), replies) == Step::Finish::<
            PoolState<T>,
            PoolCall,
            InterfaceResultView<Seq<T>>,
        >(Ok(outputs)),
    ensures
        pool_faithful(jobs, outputs),
        pool_always_delivers(
            Step::<_, _, InterfaceResultView<Seq<T>>>::Call(jobs, call),
            replies,
            outputs,
        ),
    decreases replies.len(),
{
    reveal_with_fuel(run, 2);
    reveal_with_fuel(expected, 2);
    if let Step::Call(next, next_call) = jobs.next(replies[0]) {
        if let PoolReply::Received(Some((position, Ok(output)))) = replies[0] {
            lemma_filled_update(jobs.outputs, position as int, output);
        }
        lemma_pool_run_back(next, next_call, replies.drop_first(), outputs);
    }
    lemma_pool_back(jobs, replies[0], outputs);
}

/// The outputs of the jobs come out in the order of the jobs, none missing, in whatever order the
/// pool gives them: the result is `outputs` where the pool takes every job and gives once, for each
/// position, the output that `outputs` has there, and nowhere else. As many submissions and
/// receptions are enough as there are jobs.
pub proof fn law_pool_keeps_order<T>(
    job_count: usize,
    replies: Seq<PoolReply<T>>,
    outputs: Seq<T>,
)
    requires
        pool_replies(pool_start(job_count as nat), replies),
    ensures
        run(pool_next(), pool_start(job_count as nat), replies) == Step::Finish::<
            PoolState<T>,
            PoolCall,
            InterfaceResultView<Seq<T>>,
        >(Ok(outputs)) ==> outputs.len() == job_count && pool_always_delivers(
            pool_start(job_count as nat),
            replies,
            outputs,
        ),
        outputs.len() == job_count && replies.len() >= 2 * job_count && pool_always_delivers(
            pool_start(job_count as nat),
            replies,
            outputs,
        ) ==> run(pool_next(), pool_start(job_count as nat), replies) == Step::Finish::<
            PoolState<T>,
            PoolCall,
            InterfaceResultView<Seq<T>>,
        >(Ok(outputs)),
{
    if job_count > 0 {
        lemma_pool_start(job_count as nat, outputs);
        if let Step::Call(jobs, call) = pool_start::<T>(job_count as nat) {
            if run(pool_next(), pool_start(job_count as nat), replies) == Step::Finish::<
                PoolState<T>,
                PoolCall,
                InterfaceResultView<Seq<T>>,
            >(Ok(outputs)) {
                lemma_pool_run_back(jobs, call, replies, outputs);
            }
            if outputs.len() == job_count && replies.len() >= 2 * job_count
                && pool_always_delivers(pool_start(job_count as nat), replies, outputs) {
                lemma_pool_run(jobs, call, replies, outputs);
            }
        }
    } else if outputs.len() == 0 {
        assert(outputs =~= seq![]);
    }
}

/// The step of a batch, as a function.
pub open spec fn batch_next<'a, R>() -> spec_fn(
    BatchState<'a, R>,
    (BatchSettings, BatchReply<R>),
) -> BatchStepView<'a, R> {
    |batch: BatchState<'a, R>, reply: (BatchSettings, BatchReply<R>)|
        batch.next(reply.0, reply.1)
}

/// The step that a batch begins with.
pub open spec fn batch_start<'a, R>(
    requests: &'a [HsmBatchRequest],
    direction: Direction,
) -> BatchStepView<'a, R> {
    segment_start(requests, direction, 0, Seq::empty())
}

/// Whether every reply is one to the call that was made before it.
pub open spec fn batch_replies<'a, R>(
    step: BatchStepView<'a, R>,
    replies: Seq<(BatchSettings, BatchReply<R>)>,
) -> bool {
    expected(
        |batch: BatchState<'a, R>, reply: (BatchSettings, BatchReply<R>)| batch.expects(reply.1),
        batch_next(),
        step,
        replies,
    )
}

/// The most calls that are left to be made.
pub open spec fn calls_left<'a, R>(batch: BatchState<'a, R>) -> int {
    let len = batch.end - batch.start;
    let later = 5 * (batch.requests@.len() - batch.end);
    later + match batch.phase {
        Phase::Slot => if len > 1 {
            4 + 2 * len
        } else {
            4 + len
        },
        Phase::ProbeSession => 3 + 2 * len,
        Phase::ProbeHandle => 2 + 2 * len,
        Phase::ProbeModulusLen { .. } => 1 + 2 * len,
        Phase::Pool { jobs, .. } => 2 * len - jobs.submitted - jobs.received,
        Phase::Spawning { spawned, .. } => 2 * len - spawned,
        Phase::Session => 3 + len,
        Phase::Handle => 2 + len,
        Phase::ModulusLen { .. } => 1 + len,
        Phase::Joining | Phase::Crypt { .. } => batch.end - batch.responses.len(),
    }
}

proof fn lemma_segment_start<'a, R>(
    requests: &'a [HsmBatchRequest],
    direction: Direction,
    start: usize,
    responses: Seq<R>,
)
    requires
        start < requests@.len(),
        responses.len() == start,
    ensures
        segment_start(requests, direction, start, responses) matches Step::Call(batch, _)
            && batch.valid() && calls_left(batch) <= 5 * (requests@.len() - start)
            && batch.requests == requests && batch.responses == responses,
{
    assert(requests@.len() == requests.len());
    law_segment(requests@, start as int);
}

proof fn lemma_batch_next<'a, R>(
    batch: BatchState<'a, R>,
    settings: BatchSettings,
    reply: BatchReply<R>,
)
    requires
        batch.valid(),
        batch.expects(reply),
    ensures
        batch.next(settings, reply) matches Step::Call(next, _) ==> {
            &&& next.valid()
            &&& calls_left(next) < calls_left(batch)
            &&& next.requests == batch.requests
        },
        calls_left(batch) > 0,
{
    assert(batch.requests@.len() == batch.requests.len());
    law_segment(batch.requests@, batch.start as int);
    if batch.end < batch.requests@.len() {
        law_segment(batch.requests@, batch.end as int);
    }
}

proof fn lemma_batch_ends<'a, R>(
    batch: BatchState<'a, R>,
    call: BatchCall<'a>,
    replies: Seq<(BatchSettings, BatchReply<R>)>,
)
    requires
        batch.valid(),
        batch_replies(Step::Call(batch, call), replies),
        replies.len() >= calls_left(batch),
    ensures
        run(batch_next(), Step::Call(batch, call), replies) is Finish,
    decreases replies.len(),
{
    reveal_with_fuel(run, 2);
    if replies.len() > 0 {
        lemma_batch_next(batch, replies[0].0, replies[0].1);
        if let Step::Call(next, next_call) = batch.next(replies[0].0, replies[0].1) {
            lemma_batch_ends(next, next_call, replies.drop_first());
        }
    } else {
        assert(calls_left(batch) > 0);
    }
}

/// A batch ends after at most five calls for each request, whatever the replies and the settings.
pub proof fn law_batch_ends<'a, R>(
    requests: &'a [HsmBatchRequest],
    direction: Direction,
    replies: Seq<(BatchSettings, BatchReply<R>)>,
)
    requires
        batch_replies(batch_start(requests, direction), replies),
        replies.len() >= 5 * requests@.len(),
    ensures
        run(batch_next(), batch_start(requests, direction), replies) is Finish,
{
    if requests@.len() > 0 {
        lemma_segment_start(requests, direction, 0, Seq::<R>::empty());
        if let Step::Call(batch, call) = batch_start::<R>(requests, direction) {
            lemma_batch_ends(batch, call, replies);
        }
    }
}

/// Whether a reply reports no failure, and carries for each position that it is for the output that
/// `outputs` has there. The pool gives the output of no position twice.
pub open spec fn batch_delivers<'a, R>(
    batch: BatchState<'a, R>,
    reply: BatchReply<R>,
    outputs: Seq<R>,
) -> bool {
    let following = outputs[batch.responses.len() as int];
    &&& batch.expects(reply)
    &&& match reply {
        BatchReply::Slot(result) => result is Ok,
        BatchReply::Session(JobReply::Opened(result)) => result is Ok,
        BatchReply::Session(JobReply::Handle(result)) => result is Ok,
        BatchReply::Session(JobReply::Output(result)) => result == Ok::<R, InterfaceError>(
            following,
        ),
        BatchReply::ModulusLen(_) => true,
        BatchReply::Pool(r) => pool_delivers(
            batch.phase->jobs,
            r,
            outputs.subrange(batch.start as int, batch.end as int),
        ),
        BatchReply::Spawned => true,
        BatchReply::Joined(joined) => joined == Some(Ok::<R, InterfaceError>(following)),
    }
}

/// Whether no reply reports a failure, and the replies carry for each position the output that
/// `outputs` has there.
pub open spec fn batch_always_delivers<'a, R>(
    step: BatchStepView<'a, R>,
    replies: Seq<(BatchSettings, BatchReply<R>)>,
    outputs: Seq<R>,
) -> bool {
    expected(
        |batch: BatchState<'a, R>, reply: (BatchSettings, BatchReply<R>)|
            batch_delivers(batch, reply.1, outputs),
        batch_next(),
        step,
        replies,
    )
}

spec fn batch_faithful<'a, R>(batch: BatchState<'a, R>, outputs: Seq<R>) -> bool {
    &&& outputs.len() == batch.requests@.len()
    &&& batch.responses == outputs.take(batch.responses.len() as int)
    &&& batch.phase matches Phase::Pool { jobs, .. } ==> pool_faithful(
        jobs,
        outputs.subrange(batch.start as int, batch.end as int),
    )
}

/// Whether the pool has given the output of no position twice, as far as can be told.
spec fn batch_counts<'a, R>(batch: BatchState<'a, R>) -> bool {
    batch.phase matches Phase::Pool { jobs, .. } ==> filled(jobs.outputs) <= jobs.received
}

proof fn lemma_batch_delivers<'a, R>(
    batch: BatchState<'a, R>,
    settings: BatchSettings,
    reply: BatchReply<R>,
    outputs: Seq<R>,
)
    requires
        batch.valid(),
        batch_faithful(batch, outputs),
        batch_delivers(batch, reply, outputs),
    ensures
        match batch.next(settings, reply) {
            Step::Call(next, _) => batch_faithful(next, outputs),
            Step::Finish(result) => result == Ok::<Seq<R>, InterfaceErrorView>(outputs),
        },
{
    assert(batch.requests@.len() == batch.requests.len());
    let segment = outputs.subrange(batch.start as int, batch.end as int);
    lemma_pool_start((batch.end - batch.start) as nat, segment);
    assert(batch.responses.len() == batch.start ==> batch.responses + segment =~= outputs.take(
        batch.end as int,
    ));
    assert(batch.responses.push(outputs[batch.responses.len() as int]) =~= outputs.take(
        batch.responses.len() as int + 1,
    ));
    assert(outputs.take(outputs.len() as int) =~= outputs);
    if let BatchReply::Pool(r) = reply {
        lemma_pool_next(batch.phase->jobs, r, segment);
    }
}

proof fn lemma_batch_outputs<'a, R>(
    batch: BatchState<'a, R>,
    call: BatchCall<'a>,
    replies: Seq<(BatchSettings, BatchReply<R>)>,
    outputs: Seq<R>,
)
    requires
        batch.valid(),
        batch_faithful(batch, outputs),
        batch_always_delivers(Step::Call(batch, call), replies, outputs),
        replies.len() >= calls_left(batch),
    ensures
        run(batch_next(), Step::Call(batch, call), replies) == Step::Finish::<
            BatchState<'a, R>,
            BatchCall<'a>,
            InterfaceResultView<Seq<R>>,
        >(Ok(outputs)),
    decreases replies.len(),
{
    reveal_with_fuel(run, 2);
    assert(calls_left(batch) > 0);
    lemma_batch_next(batch, replies[0].0, replies[0].1);
    lemma_batch_delivers(batch, replies[0].0, replies[0].1, outputs);
    if let Step::Call(next, next_call) = batch.next(replies[0].0, replies[0].1) {
        lemma_batch_outputs(next, next_call, replies.drop_first(), outputs);
    }
}

proof fn lemma_batch_counts<'a, R>(
    batch: BatchState<'a, R>,
    settings: BatchSettings,
    reply: BatchReply<R>,
)
    requires
        batch.valid(),
        batch.expects(reply),
        batch_counts(batch),
    ensures
        batch.next(settings, reply) matches Step::Call(next, _) ==> batch_counts(next),
{
    lemma_pool_start((batch.end - batch.start) as nat, Seq::<R>::empty());
    if let BatchReply::Pool(PoolReply::Received(Some((position, Ok(output))))) = reply {
        lemma_filled_update(batch.phase->jobs.outputs, position as int, output);
    }
}

/// What follows a reply can still give `outputs` only where the reply delivers what they hold.
proof fn lemma_batch_back<'a, R>(
    batch: BatchState<'a, R>,
    settings: BatchSettings,
    reply: BatchReply<R>,
    outputs: Seq<R>,
)
    requires
        batch.valid(),
        batch.expects(reply),
        batch_counts(batch),
        match batch.next(settings, reply) {
            Step::Call(next, _) => batch_faithful(next, outputs),
            Step::Finish(result) => result == Ok::<Seq<R>, InterfaceErrorView>(outputs),
        },
    ensures
        batch_faithful(batch, outputs),
        batch_delivers(batch, reply, outputs),
{
    lemma_batch_next(batch, settings, reply);
    let segment = outputs.subrange(batch.start as int, batch.end as int);
    let given = match reply {
        BatchReply::Session(JobReply::Output(Ok(output))) => Some(output),
        BatchReply::Joined(Some(Ok(output))) => Some(output),
        _ => None,
    };
    if let Some(output) = given {
        let pushed = batch.responses.push(output);
        assert(pushed =~= outputs.take(pushed.len() as int));
        assert(batch.responses =~= pushed.drop_last());
        assert(batch.responses =~= outputs.take(batch.responses.len() as int));
        assert(output == pushed.last());
    }
    if let BatchReply::Pool(r) = reply {
        let jobs = batch.phase->jobs;
        if let Step::Finish(Ok(values)) = jobs.next(r) {
            let all = batch.responses + values;
            assert(all =~= outputs.take(batch.end as int));
            assert(batch.responses =~= outputs.take(batch.start as int)) by {
                assert(batch.responses =~= all.take(batch.start as int));
            }
            assert(values =~= segment) by {
                assert(values =~= all.skip(batch.start as int));
            }
        }
        lemma_pool_back(jobs, r, segment);
    }
}

proof fn lemma_batch_outputs_back<'a, R>(
    batch: BatchState<'a, R>,
    call: BatchCall<'a>,
    replies: Seq<(BatchSettings, BatchReply<R>)>,
    outputs: Seq<R>,
)
    requires
        batch.valid(),
        batch_counts(batch),
        batch_replies(Step::Call(batch, call), replies),
        run(batch_next(), Step::Call(batch, call), replies) == Step::Finish::<
            BatchState<'a, R>,
            BatchCall<'a>,
            InterfaceResultView<Seq<R>>,
        >(Ok(outputs)),
    ensures
        batch_faithful(batch, outputs),
        batch_always_delivers(Step::Call(batch, call), replies, outputs),
    decreases replies.len(),
{
    reveal_with_fuel(run, 2);
    reveal_with_fuel(expected, 2);
    lemma_batch_next(batch, replies[0].0, replies[0].1);
    lemma_batch_counts(batch, replies[0].0, replies[0].1);
    if let Step::Call(next, next_call) = batch.next(replies[0].0, replies[0].1) {
        lemma_batch_outputs_back(next, next_call, replies.drop_first(), outputs);
    }
    lemma_batch_back(batch, replies[0].0, replies[0].1, outputs);
}

/// A batch that ends well gives one output for each request, and at each position the output that
/// came for the request at that position, which need not be that of an equal request elsewhere. A
/// batch in which nothing fails, and every output comes, ends well.
///
/// The settings at each moment, and so whether requests go one after the other, to the pool or to
/// threads of their own, make no difference, nor does the order in which the pool gives results.
pub proof fn law_batch_outputs<'a, R>(
    requests: &'a [HsmBatchRequest],
    direction: Direction,
    replies: Seq<(BatchSettings, BatchReply<R>)>,
    outputs: Seq<R>,
)
    requires
        batch_replies(batch_start(requests, direction), replies),
    ensures
        run(batch_next(), batch_start(requests, direction), replies) == Step::Finish::<
            BatchState<'a, R>,
            BatchCall<'a>,
            InterfaceResultView<Seq<R>>,
        >(Ok(outputs)) ==> outputs.len() == requests@.len() && batch_always_delivers(
            batch_start(requests, direction),
            replies,
            outputs,
        ),
        outputs.len() == requests@.len() && replies.len() >= 5 * requests@.len()
            && batch_always_delivers(batch_start(requests, direction), replies, outputs) ==> run(
            batch_next(),
            batch_start(requests, direction),
            replies,
        ) == Step::Finish::<BatchState<'a, R>, BatchCall<'a>, InterfaceResultView<Seq<R>>>(Ok(outputs)),
{
    let start = batch_start::<R>(requests, direction);
    if requests@.len() > 0 {
        lemma_segment_start(requests, direction, 0, Seq::<R>::empty());
        if let Step::Call(batch, call) = start {
            if run(batch_next(), start, replies) == Step::Finish::<
                BatchState<'a, R>,
                BatchCall<'a>,
                InterfaceResultView<Seq<R>>,
            >(Ok(outputs)) {
                lemma_batch_outputs_back(batch, call, replies, outputs);
            }
            if outputs.len() == requests@.len() && replies.len() >= 5 * requests@.len()
                && batch_always_delivers(start, replies, outputs) {
                assert(outputs.take(0) =~= Seq::<R>::empty());
                lemma_batch_outputs(batch, call, replies, outputs);
            }
        }
    } else if outputs.len() == 0 {
        assert(outputs =~= Seq::<R>::empty());
    }
}

/// The failure that a reply reports.
pub open spec fn failure_of<R>(direction: Direction, reply: BatchReply<R>) -> Option<
    InterfaceErrorView,
> {
    match reply {
        BatchReply::Slot(Err(e)) => Some(e@),
        BatchReply::Session(JobReply::Opened(Err(e))) => Some(e@),
        BatchReply::Session(JobReply::Handle(Err(e))) => Some(e@),
        BatchReply::Session(JobReply::Output(Err(e))) => Some(e@),
        BatchReply::Pool(PoolReply::Submitted(false)) => Some(
            InterfaceError::Default(job_not_submitted_text()),
        ),
        BatchReply::Pool(PoolReply::Received(None)) => Some(
            InterfaceError::Default(result_not_received_text()),
        ),
        BatchReply::Pool(PoolReply::Received(Some((_, Err(e))))) => Some(e@),
        BatchReply::Joined(Some(Err(e))) => Some(e@),
        BatchReply::Joined(None) => Some(InterfaceError::Default(worker_panicked_text(direction))),
        _ => None,
    }
}

/// The first failure that is reported ends a batch, with its error. A length that cannot be read
/// is no failure. Without a failure a batch goes on or ends well, unless the pool gives the result
/// of one job twice and so leaves that of another out.
pub proof fn law_first_failure_ends_batch<'a, R>(
    batch: BatchState<'a, R>,
    settings: BatchSettings,
    reply: BatchReply<R>,
)
    requires
        batch.valid(),
        batch.expects(reply),
    ensures
        match failure_of(batch.direction, reply) {
            Some(e) => batch.next(settings, reply) == Step::Finish::<
                BatchState<'a, R>,
                BatchCall<'a>,
                InterfaceResultView<Seq<R>>,
            >(Err(e)),
            None => batch.next(settings, reply) matches Step::Finish(Err(e)) ==> {
                &&& e == InterfaceErrorView::Default(result_missing_text())
                &&& reply matches BatchReply::Pool(PoolReply::Received(Some(_)))
            },
        },
{
}

/// Whether a call is the one that belongs to where a batch stands: each is for the slot, the key,
/// the algorithm and the data of the very request that it handles.
pub open spec fn call_fits<'a, R>(batch: BatchState<'a, R>, call: BatchCall<'a>) -> bool {
    let first = &batch.requests@[batch.start as int];
    let following = &batch.requests@[batch.responses.len() as int];
    match batch.phase {
        Phase::Slot => call == (BatchCall::GetSlot { slot_id: first.slot_id }),
        Phase::ProbeSession | Phase::Session => call == BatchCall::Session(
            JobCall::OpenSession { slot_id: first.slot_id, read_write: true },
        ),
        Phase::ProbeHandle | Phase::Handle => call == BatchCall::Session(
            JobCall::GetObjectHandle { key_id: &first.key_id },
        ),
        Phase::ProbeModulusLen { handle } | Phase::ModulusLen { handle } => call == (
        BatchCall::RsaModulusLen { handle }),
        Phase::Crypt { handle, output_len } => {
            &&& call == BatchCall::Session(
                crypt_call(batch.direction, following, handle, output_len),
            )
            &&& following.same_target(*first)
        },
        Phase::Pool { jobs, output_len } => if jobs.submitted < jobs.outputs.len() {
            call == (BatchCall::SubmitJob {
                position: jobs.submitted as usize,
                job: batch.job(jobs.submitted as int, output_len),
            })
        } else {
            call is ReceiveResult
        },
        Phase::Spawning { spawned, output_len } => call == (BatchCall::SpawnJob {
            position: spawned,
            job: batch.job(spawned as int, output_len),
        }),
        Phase::Joining => call == (BatchCall::JoinJob {
            position: (batch.responses.len() - batch.start) as usize,
        }),
    }
}

/// The handle of the key that is being used, where it has been looked up.
pub open spec fn handle_in_use<P>(phase: Phase<P>) -> Option<CK_OBJECT_HANDLE> {
    match phase {
        Phase::ProbeModulusLen { handle } => Some(handle),
        Phase::ModulusLen { handle } => Some(handle),
        Phase::Crypt { handle, .. } => Some(handle),
        _ => None,
    }
}

/// The handle that the last look-up among the replies gave, or `before` where there is none.
pub open spec fn last_handle<R>(
    before: Option<CK_OBJECT_HANDLE>,
    replies: Seq<(BatchSettings, BatchReply<R>)>,
) -> Option<CK_OBJECT_HANDLE>
    decreases replies.len(),
{
    if replies.len() == 0 {
        before
    } else {
        let given = match replies[0].1 {
            BatchReply::Session(JobReply::Handle(Ok(handle))) => Some(handle),
            _ => before,
        };
        last_handle(given, replies.drop_first())
    }
}

/// Every call of a batch is for the request that it handles, a call on a key has the handle that
/// the last look-up gave, and the requests that share a session and a key handle share the slot, the
/// key and the algorithm.
pub proof fn law_calls_fit<'a, R>(
    requests: &'a [HsmBatchRequest],
    direction: Direction,
    replies: Seq<(BatchSettings, BatchReply<R>)>,
)
    requires
        batch_replies(batch_start(requests, direction), replies),
    ensures
        run(batch_next(), batch_start(requests, direction), replies) matches Step::Call(batch, call)
            ==> {
            &&& batch.valid()
            &&& batch.requests == requests
            &&& batch.direction == direction
            &&& call_fits(batch, call)
            &&& handle_in_use(batch.phase) is Some ==> handle_in_use(batch.phase) == last_handle(
                None,
                replies,
            )
        },
{
    if requests@.len() > 0 {
        lemma_segment_start(requests, direction, 0, Seq::<R>::empty());
        if let Step::Call(batch, call) = batch_start::<R>(requests, direction) {
            lemma_calls_fit(batch, call, None, replies);
        }
    }
}

proof fn lemma_calls_fit<'a, R>(
    batch: BatchState<'a, R>,
    call: BatchCall<'a>,
    before: Option<CK_OBJECT_HANDLE>,
    replies: Seq<(BatchSettings, BatchReply<R>)>,
)
    requires
        batch.valid(),
        call_fits(batch, call),
        batch_replies(Step::Call(batch, call), replies),
        handle_in_use(batch.phase) is Some ==> handle_in_use(batch.phase) == before,
    ensures
        run(batch_next(), Step::Call(batch, call), replies) matches Step::Call(last, last_call)
            ==> {
            &&& last.valid()
            &&& last.requests == batch.requests
            &&& last.direction == batch.direction
            &&& call_fits(last, last_call)
            &&& handle_in_use(last.phase) is Some ==> handle_in_use(last.phase) == last_handle(
                before,
                replies,
            )
        },
    decreases replies.len(),
{
    reveal_with_fuel(run, 2);
    if replies.len() > 0 {
        lemma_batch_next(batch, replies[0].0, replies[0].1);
        law_segment(batch.requests@, batch.start as int);
        if let Step::Call(next, next_call) = batch.next(replies[0].0, replies[0].1) {
            let given = match replies[0].1 {
                BatchReply::Session(JobReply::Handle(Ok(handle))) => Some(handle),
                _ => before,
            };
            assert(call_fits(next, next_call));
            lemma_calls_fit(next, next_call, given, replies.drop_first());
        }
    }
}

/// Where a job stands after some replies.
pub open spec fn job_run<'a, R>(job: BatchJob<'a>, replies: Seq<JobReply<R>>) -> Step<
    JobRun<'a>,
    JobCall<'a>,
    InterfaceResult<R>,
> {
    run(|job: JobRun<'a>, reply: JobReply<R>| job.next(reply), job.first(), replies)
}

/// The calls that a job makes.
pub open spec fn job_calls<'a, R>(job: BatchJob<'a>, replies: Seq<JobReply<R>>) -> Seq<
    JobCall<'a>,
> {
    calls(|job: JobRun<'a>, reply: JobReply<R>| job.next(reply), job.first::<R>(), replies)
}

/// A job opens a session of its own, looks the key of its request up there, and gives what the
/// session gives for the data of the request, or the error of the first call that fails.
pub proof fn law_job<'a, R>(job: BatchJob<'a>, replies: Seq<JobReply<R>>)
    requires
        replies.len() >= 3,
    ensures
        job_run(job, replies) == Step::Finish::<JobRun<'a>, JobCall<'a>, InterfaceResult<R>>(
            match (replies[0]->Opened_0, replies[1]->Handle_0) {
                (Err(e), _) => Err(e),
                (Ok(_), Err(e)) => Err(e),
                (Ok(_), Ok(_)) => replies[2]->Output_0,
            },
        ),
        replies[0]->Opened_0 is Ok && replies[1]->Handle_0 is Ok ==> job_calls(job, replies)
            == seq![
            JobCall::OpenSession { slot_id: job.request.slot_id, read_write: true },
            JobCall::GetObjectHandle { key_id: &job.request.key_id },
            crypt_call(job.direction, job.request, replies[1]->Handle_0->Ok_0, job.output_len),
        ],
{
    reveal_with_fuel(run, 4);
    reveal_with_fuel(calls, 4);
}

} // verus!
