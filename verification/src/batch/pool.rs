//! The worker pool: how many workers it has, what a worker does, and how the results of the jobs
//! that were handed to it come together.

use vstd::prelude::*;

use super::settings::configured_hsm_batch_workers;
use super::settings::workers;
use crate::error::job_not_submitted_text;
use crate::error::result_missing_text;
use crate::error::result_not_received_text;
use crate::error::viewed;
use crate::error::InterfaceError;
use crate::error::InterfaceErrorView;
use crate::error::InterfaceResult;
use crate::error::InterfaceResultView;
use crate::step::Step;
use crate::text::decimal;
use crate::text::decimal_text;

verus! {

/// A pool of worker threads that share one queue of jobs.
#[derive(Debug, Clone, Copy, PartialEq, Eq, Structural)]
pub struct HsmBatchWorkerPool {
    worker_count: usize,
}

/// What a worker that waits for a job gets.
pub enum Delivery<J> {
    /// Another worker panicked while it held the queue.
    Poisoned,
    /// Nobody can submit a job any more.
    Closed,
    /// A job.
    Job(J),
}

/// What a worker does next.
pub enum WorkerAction<J> {
    /// Run the job, then wait for another.
    Run(J),
    /// End.
    Stop,
}

impl HsmBatchWorkerPool {
    /// The number of workers.
    pub closed spec fn size(self) -> usize {
        self.worker_count
    }

    /// A pool of `worker_count` workers.
    pub fn new(worker_count: usize) -> (pool: HsmBatchWorkerPool)
        ensures
            pool.size() == worker_count,
    {
        HsmBatchWorkerPool { worker_count }
    }

    /// The number of workers.
    pub fn worker_count(&self) -> (count: usize)
        ensures
            count == self.size(),
    {
        self.worker_count
    }

    /// The name of the thread of a worker.
    pub fn worker_name(worker_id: usize) -> (name: String)
        ensures
            name@ == "hsm-batch-worker-"@ + decimal(worker_id as nat),
    {
        let mut name = "hsm-batch-worker-".to_owned();
        name.append(decimal_text(worker_id as u64).as_str());
        name
    }

    /// What a worker does with what it got: it runs every job, and ends where there can be none.
    pub fn worker_action<J>(delivery: Delivery<J>) -> (action: WorkerAction<J>)
        ensures
            action == match delivery {
                Delivery::Job(job) => WorkerAction::Run(job),
                _ => WorkerAction::Stop,
            },
    {
        match delivery {
            Delivery::Job(job) => WorkerAction::Run(job),
            Delivery::Poisoned | Delivery::Closed => WorkerAction::Stop,
        }
    }

    /// What the submission of a job amounts to; `queued` says whether the queue took it.
    pub fn submit(queued: bool) -> (result: InterfaceResult<()>)
        ensures
            viewed(result) == if queued {
                Ok::<(), InterfaceErrorView>(())
            } else {
                Err::<(), InterfaceErrorView>(InterfaceError::Default(job_not_submitted_text()))
            },
    {
        if queued {
            Ok(())
        } else {
            Err(InterfaceError::job_not_submitted())
        }
    }
}

/// The pool of the process, which is made on its first use.
///
/// `cell` holds it from then on. Whatever the environment asks for later, the pool stays.
pub fn hsm_batch_worker_pool(
    cell: &mut Option<HsmBatchWorkerPool>,
    value: Option<&str>,
    parallelism: Option<usize>,
) -> (pool: HsmBatchWorkerPool)
    ensures
        *final(cell) == Some(pool),
        *old(cell) is Some ==> *final(cell) == *old(cell),
        *old(cell) is None ==> pool.size() == workers(value, parallelism),
{
    match *cell {
        Some(pool) => pool,
        None => {
            let pool = HsmBatchWorkerPool::new(configured_hsm_batch_workers(value, parallelism));
            *cell = Some(pool);
            pool
        },
    }
}

/// What is asked of the pool.
#[derive(Debug, Clone, Copy)]
pub enum PoolCall {
    /// Submit the job at this position.
    Submit { position: usize },
    /// Wait for the result of some job.
    Receive,
}

impl View for PoolCall {
    type V = PoolCall;

    open spec fn view(&self) -> PoolCall {
        *self
    }
}

/// The reply to a [`PoolCall`].
pub enum PoolReply<T> {
    /// The reply to `Submit`: whether the queue took the job.
    Submitted(bool),
    /// The reply to `Receive`: the position of a job and its result, or `None` where no result can
    /// come any more.
    Received(Option<(usize, InterfaceResult<T>)>),
}

/// Where jobs that were handed to the pool stand.
pub ghost struct PoolState<T> {
    /// How many jobs have been submitted.
    pub submitted: nat,
    /// How many results have been received.
    pub received: nat,
    /// The result of each job, where it has been received.
    pub outputs: Seq<Option<T>>,
}

/// The results in the order of the jobs.
pub open spec fn collected<T>(outputs: Seq<Option<T>>) -> InterfaceResultView<Seq<T>> {
    if forall|i: int| 0 <= i < outputs.len() ==> #[trigger] outputs[i] is Some {
        Ok(outputs.map_values(|output: Option<T>| output->0))
    } else {
        Err(InterfaceError::Default(result_missing_text()))
    }
}

/// How the handling of `job_count` jobs begins.
pub open spec fn pool_start<T>(job_count: nat) -> Step<
    PoolState<T>,
    PoolCall,
    InterfaceResultView<Seq<T>>,
> {
    if job_count == 0 {
        Step::Finish(Ok(seq![]))
    } else {
        Step::Call(
            PoolState {
                submitted: 0,
                received: 0,
                outputs: Seq::new(job_count, |i: int| None),
            },
            PoolCall::Submit { position: 0 },
        )
    }
}

impl<T> PoolState<T> {
    /// What holds at every moment: the jobs are submitted before any result is received, and there
    /// is something left to be done.
    pub open spec fn valid(self) -> bool {
        let job_count = self.outputs.len();
        &&& 0 < job_count <= usize::MAX
        &&& self.submitted <= job_count
        &&& self.received < job_count
        &&& self.submitted < job_count ==> self.received == 0
    }

    /// Whether a reply is one to the call that was made last.
    pub open spec fn expects(self, reply: PoolReply<T>) -> bool {
        if self.submitted < self.outputs.len() {
            reply is Submitted
        } else {
            &&& reply is Received
            &&& reply->Received_0 matches Some((position, _)) ==> position < self.outputs.len()
        }
    }

    /// What follows a reply.
    pub open spec fn next(self, reply: PoolReply<T>) -> Step<
        PoolState<T>,
        PoolCall,
        InterfaceResultView<Seq<T>>,
    > {
        match reply {
            PoolReply::Submitted(queued) => if !queued {
                Step::Finish(Err(InterfaceError::Default(job_not_submitted_text())))
            } else {
                Step::Call(
                    PoolState { submitted: self.submitted + 1, ..self },
                    if self.submitted + 1 < self.outputs.len() {
                        PoolCall::Submit { position: (self.submitted + 1) as usize }
                    } else {
                        PoolCall::Receive
                    },
                )
            },
            PoolReply::Received(None) => Step::Finish(
                Err(InterfaceError::Default(result_not_received_text())),
            ),
            PoolReply::Received(Some((_, Err(e)))) => Step::Finish(Err(e@)),
            PoolReply::Received(Some((position, Ok(output)))) => {
                let outputs = self.outputs.update(position as int, Some(output));
                if self.received + 1 < outputs.len() {
                    Step::Call(
                        PoolState { submitted: self.submitted, received: self.received + 1, outputs },
                        PoolCall::Receive,
                    )
                } else {
                    Step::Finish(collected(outputs))
                }
            },
        }
    }
}

/// Jobs that have been handed to the pool.
///
/// All are submitted, in order. Then as many results are received, in whatever order they come.
pub struct PoolRun<T> {
    submitted: usize,
    received: usize,
    outputs: Vec<Option<T>>,
}

impl<T> View for PoolRun<T> {
    type V = PoolState<T>;

    closed spec fn view(&self) -> PoolState<T> {
        PoolState {
            submitted: self.submitted as nat,
            received: self.received as nat,
            outputs: self.outputs@,
        }
    }
}

/// The outputs in the order of the jobs, if all are there.
fn collect_outputs<T>(outputs: Vec<Option<T>>) -> (result: InterfaceResult<Vec<T>>)
    ensures
        match result {
            Ok(values) => collected(outputs@) == Ok::<Seq<T>, InterfaceErrorView>(values@),
            Err(e) => collected(outputs@) == Err::<Seq<T>, InterfaceErrorView>(e@),
        },
{
    let mut values: Vec<T> = Vec::with_capacity(outputs.len());
    for output in iter: outputs
        invariant
            iter.seq() == outputs@,
            values@.len() == iter.index(),
            forall|i: int| 0 <= i < values@.len() ==> outputs@[i] == Some(#[trigger] values@[i]),
    {
        match output {
            Some(value) => values.push(value),
            None => {
                assert(!(outputs@[iter.index()] is Some));
                return Err(InterfaceError::result_missing());
            },
        }
    }
    assert forall|i: int| 0 <= i < outputs@.len() implies #[trigger] outputs@[i] is Some by {
        assert(outputs@[i] == Some(values@[i]));
    }
    assert(values@ =~= outputs@.map_values(|output: Option<T>| output->0));
    Ok(values)
}

/// Runs `job_count` jobs on the pool.
///
/// The result holds the output of each job, in the order of the jobs. The first submission that
/// fails, and the first result received that is an error, end the operation.
pub fn run_hsm_batch_worker_pool<T>(job_count: usize) -> (step: Step<
    PoolRun<T>,
    PoolCall,
    InterfaceResult<Vec<T>>,
>)
    ensures
        step@ == pool_start::<T>(job_count as nat),
        step matches Step::Call(run, _) ==> run@.valid(),
{
    if job_count == 0 {
        let values: Vec<T> = Vec::new();
        assert(values@ =~= seq![]);
        return Step::Finish(Ok(values));
    }
    let mut outputs: Vec<Option<T>> = Vec::with_capacity(job_count);
    while outputs.len() < job_count
        invariant
            outputs@.len() <= job_count,
            forall|i: int| 0 <= i < outputs@.len() ==> #[trigger] outputs@[i] is None,
        decreases job_count - outputs@.len(),
    {
        outputs.push(None);
    }
    assert(outputs@ =~= Seq::new(job_count as nat, |i: int| None));
    Step::Call(
        PoolRun { submitted: 0, received: 0, outputs },
        PoolCall::Submit { position: 0 },
    )
}

impl<T> PoolRun<T> {
    /// Tells whether a reply is one to the call that was made last.
    pub fn accepts(&self, reply: &PoolReply<T>) -> (accepted: bool)
        ensures
            accepted == self@.expects(*reply),
    {
        match reply {
            PoolReply::Submitted(_) => self.submitted < self.outputs.len(),
            PoolReply::Received(None) => self.submitted >= self.outputs.len(),
            PoolReply::Received(Some((position, _))) => {
                self.submitted >= self.outputs.len() && *position < self.outputs.len()
            },
        }
    }

    /// Goes on with the reply to the call that was made last.
    pub fn resume(self, reply: PoolReply<T>) -> (step: Step<
        PoolRun<T>,
        PoolCall,
        InterfaceResult<Vec<T>>,
    >)
        requires
            self@.valid(),
            self@.expects(reply),
        ensures
            step@ == self@.next(reply),
            step matches Step::Call(run, _) ==> run@.valid(),
    {
        let PoolRun { submitted, received, outputs } = self;
        match reply {
            PoolReply::Submitted(queued) => match HsmBatchWorkerPool::submit(queued) {
                Ok(()) => {
                    let submitted: usize = submitted + 1;
                    let call = if submitted < outputs.len() {
                        PoolCall::Submit { position: submitted }
                    } else {
                        PoolCall::Receive
                    };
                    Step::Call(PoolRun { submitted, received, outputs }, call)
                },
                Err(e) => Step::Finish(Err(e)),
            },
            PoolReply::Received(None) => Step::Finish(Err(InterfaceError::result_not_received())),
            PoolReply::Received(Some((_, Err(e)))) => Step::Finish(Err(e)),
            PoolReply::Received(Some((position, Ok(output)))) => {
                let mut outputs = outputs;
                outputs.set(position, Some(output));
                let received: usize = received + 1;
                if received < outputs.len() {
                    Step::Call(PoolRun { submitted, received, outputs }, PoolCall::Receive)
                } else {
                    Step::Finish(collect_outputs(outputs))
                }
            },
        }
    }
}

} // verus!
