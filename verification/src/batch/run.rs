//! The handling of a batch, segment by segment.
//!
//! The requests of a segment are handled one after the other on one session, or each by a thread of
//! its own: a worker of the pool, or a thread that is spawned for the request and joined.

use pkcs11_sys::CK_OBJECT_HANDLE;
use vstd::prelude::*;

use super::job::crypt;
use super::job::crypt_call;
use super::job::BatchJob;
use super::job::JobCall;
use super::job::JobReply;
use super::pool::pool_start;
use super::pool::run_hsm_batch_worker_pool;
use super::pool::PoolCall;
use super::pool::PoolReply;
use super::pool::PoolRun;
use super::pool::PoolState;
use super::request::end_of_segment;
use super::request::is_rsa_batch_algorithm;
use super::request::segment_end;
use super::request::HsmBatchRequest;
use super::settings::BatchSettings;
use crate::error::worker_panicked_text;
use crate::error::Direction;
use crate::error::InterfaceError;
use crate::error::InterfaceResult;
use crate::error::InterfaceResultView;
use crate::step::Step;

verus! {

/// A call that the handling of a batch makes.
#[derive(Debug, Clone, Copy)]
pub enum BatchCall<'a> {
    /// Get the slot.
    GetSlot { slot_id: usize },
    /// Open a session on the slot, or use the one that was opened last.
    Session(JobCall<'a>),
    /// Read how many bytes the modulus of an RSA key has.
    RsaModulusLen { handle: CK_OBJECT_HANDLE },
    /// Submit a job to the worker pool.
    SubmitJob { position: usize, job: BatchJob<'a> },
    /// Wait for the result of a job that was submitted.
    ReceiveResult,
    /// Spawn a thread for a job.
    SpawnJob { position: usize, job: BatchJob<'a> },
    /// Join the thread of a job.
    JoinJob { position: usize },
}

impl<'a> View for BatchCall<'a> {
    type V = BatchCall<'a>;

    open spec fn view(&self) -> Self::V {
        *self
    }
}

/// The reply to a [`BatchCall`].
pub enum BatchReply<R> {
    /// The reply to `GetSlot`.
    Slot(InterfaceResult<()>),
    /// The reply to `Session`.
    Session(JobReply<R>),
    /// The reply to `RsaModulusLen`: the length where it is known.
    ModulusLen(InterfaceResult<Option<usize>>),
    /// The reply to `SubmitJob` and to `ReceiveResult`.
    Pool(PoolReply<R>),
    /// The reply to `SpawnJob`.
    Spawned,
    /// The reply to `JoinJob`: the result of the job, or `None` where its thread panicked.
    Joined(Option<InterfaceResult<R>>),
}

/// What is being done for a segment. `P` is how the jobs of the pool are held.
pub enum Phase<P> {
    /// The slot is being got.
    Slot,
    /// The session to read the length of the outputs is being opened.
    ProbeSession,
    /// The key to read the length of the outputs from is being looked up.
    ProbeHandle,
    /// The length of the outputs is being read from the key.
    ProbeModulusLen { handle: CK_OBJECT_HANDLE },
    /// The requests are with the worker pool.
    Pool { jobs: P, output_len: Option<usize> },
    /// Threads are being spawned.
    Spawning { spawned: usize, output_len: Option<usize> },
    /// The threads are being joined.
    Joining,
    /// The session is being opened.
    Session,
    /// The key is being looked up.
    Handle,
    /// The length of the outputs is being read.
    ModulusLen { handle: CK_OBJECT_HANDLE },
    /// A request is being handled.
    Crypt { handle: CK_OBJECT_HANDLE, output_len: Option<usize> },
}

/// Where the handling of a batch stands.
pub ghost struct BatchState<'a, R> {
    /// The batch.
    pub requests: &'a [HsmBatchRequest],
    /// What is done with the requests.
    pub direction: Direction,
    /// Where the segment that is being handled begins.
    pub start: usize,
    /// Where the segment that is being handled ends.
    pub end: usize,
    /// The outputs so far.
    pub responses: Seq<R>,
    /// What is being done for the segment.
    pub phase: Phase<PoolState<R>>,
}

/// A batch that is being handled.
pub struct BatchRun<'a, R> {
    requests: &'a [HsmBatchRequest],
    direction: Direction,
    start: usize,
    end: usize,
    responses: Vec<R>,
    phase: Phase<PoolRun<R>>,
}

impl<'a, R> View for BatchRun<'a, R> {
    type V = BatchState<'a, R>;

    closed spec fn view(&self) -> Self::V {
        BatchState {
            requests: self.requests,
            direction: self.direction,
            start: self.start,
            end: self.end,
            responses: self.responses@,
            phase: match self.phase {
                Phase::Slot => Phase::Slot,
                Phase::ProbeSession => Phase::ProbeSession,
                Phase::ProbeHandle => Phase::ProbeHandle,
                Phase::ProbeModulusLen { handle } => Phase::ProbeModulusLen { handle },
                Phase::Pool { jobs, output_len } => Phase::Pool { jobs: jobs@, output_len },
                Phase::Spawning { spawned, output_len } => Phase::Spawning { spawned, output_len },
                Phase::Joining => Phase::Joining,
                Phase::Session => Phase::Session,
                Phase::Handle => Phase::Handle,
                Phase::ModulusLen { handle } => Phase::ModulusLen { handle },
                Phase::Crypt { handle, output_len } => Phase::Crypt { handle, output_len },
            },
        }
    }
}

/// The next step of the handling of a batch, as contracts speak of it.
pub type BatchStepView<'a, R> = Step<BatchState<'a, R>, BatchCall<'a>, InterfaceResultView<Seq<R>>>;

/// The next step of the handling of a batch.
pub type BatchStep<'a, R> = Step<BatchRun<'a, R>, BatchCall<'a>, InterfaceResult<Vec<R>>>;

/// How the segment at `start` begins, if there is one.
pub open spec fn segment_start<'a, R>(
    requests: &'a [HsmBatchRequest],
    direction: Direction,
    start: usize,
    responses: Seq<R>,
) -> BatchStepView<'a, R> {
    if start < requests@.len() {
        Step::Call(
            BatchState {
                requests,
                direction,
                start,
                end: end_of_segment(requests@, start as int) as usize,
                responses,
                phase: Phase::Slot,
            },
            BatchCall::GetSlot { slot_id: requests@[start as int].slot_id },
        )
    } else {
        Step::Finish(Ok(responses))
    }
}

/// The length that a reply gives: none where it could not be read, or where it is not known.
pub open spec fn known_len(reply: InterfaceResult<Option<usize>>) -> Option<usize> {
    match reply {
        Ok(len) => len,
        Err(_) => None,
    }
}

/// The length that a reply gives. A length that cannot be read is not an error.
pub fn readable_len(reply: InterfaceResult<Option<usize>>) -> (len: Option<usize>)
    ensures
        len == known_len(reply),
{
    match reply {
        Ok(len) => len,
        Err(_) => None,
    }
}

impl<'a, R> BatchState<'a, R> {
    /// What holds at every moment: the segment is one of the batch, every request before it has its
    /// output, and a length is given only to RSA requests.
    pub open spec fn valid(self) -> bool {
        let len = (self.end - self.start) as nat;
        let done = self.responses.len();
        let rsa = self.requests@[self.start as int].algorithm.rsa();
        &&& self.start < self.end <= self.requests@.len()
        &&& self.end == end_of_segment(self.requests@, self.start as int)
        &&& self.start <= done < self.end
        &&& match self.phase {
            Phase::Joining => len > 1 && rsa,
            Phase::Crypt { output_len, .. } => output_len is Some ==> rsa,
            Phase::Pool { jobs, .. } => {
                &&& done == self.start
                &&& len > 1 && rsa
                &&& jobs.valid()
                &&& jobs.outputs.len() == len
            },
            Phase::Spawning { spawned, .. } => {
                &&& done == self.start
                &&& len > 1 && rsa
                &&& spawned < len
            },
            Phase::ProbeSession | Phase::ProbeHandle | Phase::ProbeModulusLen { .. } => {
                &&& done == self.start
                &&& len > 1 && rsa
            },
            Phase::ModulusLen { .. } => done == self.start && rsa,
            Phase::Slot | Phase::Session | Phase::Handle => done == self.start,
        }
    }

    /// Whether a reply is one to the call that was made last.
    pub open spec fn expects(self, reply: BatchReply<R>) -> bool {
        match self.phase {
            Phase::Slot => reply is Slot,
            Phase::ProbeSession | Phase::Session => reply matches BatchReply::Session(r)
                && r is Opened,
            Phase::ProbeHandle | Phase::Handle => reply matches BatchReply::Session(r)
                && r is Handle,
            Phase::Crypt { .. } => reply matches BatchReply::Session(r) && r is Output,
            Phase::ProbeModulusLen { .. } | Phase::ModulusLen { .. } => reply is ModulusLen,
            Phase::Pool { jobs, .. } => reply matches BatchReply::Pool(r) && jobs.expects(r),
            Phase::Spawning { .. } => reply is Spawned,
            Phase::Joining => reply is Joined,
        }
    }

    /// The job for the request at a position of the segment.
    pub open spec fn job(self, position: int, output_len: Option<usize>) -> BatchJob<'a> {
        BatchJob {
            direction: self.direction,
            request: &self.requests@[self.start + position],
            output_len,
        }
    }

    /// Goes on with a call of the session.
    pub open spec fn on_session(self, phase: Phase<PoolState<R>>, call: JobCall<'a>) -> BatchStepView<
        'a,
        R,
    > {
        Step::Call(BatchState { phase, ..self }, BatchCall::Session(call))
    }

    /// Goes on with the opening of a session.
    pub open spec fn opening(self, phase: Phase<PoolState<R>>) -> BatchStepView<'a, R> {
        self.on_session(
            phase,
            JobCall::OpenSession {
                slot_id: self.requests@[self.start as int].slot_id,
                read_write: true,
            },
        )
    }

    /// Goes on with the search for the key.
    pub open spec fn finding(self, phase: Phase<PoolState<R>>) -> BatchStepView<'a, R> {
        self.on_session(
            phase,
            JobCall::GetObjectHandle { key_id: &self.requests@[self.start as int].key_id },
        )
    }

    /// Goes on with the next request on the session.
    pub open spec fn crypting(
        self,
        handle: CK_OBJECT_HANDLE,
        output_len: Option<usize>,
    ) -> BatchStepView<'a, R> {
        self.on_session(
            Phase::Crypt { handle, output_len },
            crypt_call(
                self.direction,
                &self.requests@[self.responses.len() as int],
                handle,
                output_len,
            ),
        )
    }

    /// Goes on with what the pool asks for.
    pub open spec fn pooling(
        self,
        step: Step<PoolState<R>, PoolCall, InterfaceResultView<Seq<R>>>,
        output_len: Option<usize>,
    ) -> BatchStepView<'a, R> {
        match step {
            Step::Call(jobs, PoolCall::Submit { position }) => Step::Call(
                BatchState { phase: Phase::Pool { jobs, output_len }, ..self },
                BatchCall::SubmitJob { position, job: self.job(position as int, output_len) },
            ),
            Step::Call(jobs, PoolCall::Receive) => Step::Call(
                BatchState { phase: Phase::Pool { jobs, output_len }, ..self },
                BatchCall::ReceiveResult,
            ),
            Step::Finish(Ok(outputs)) => segment_start(
                self.requests,
                self.direction,
                self.end,
                self.responses + outputs,
            ),
            Step::Finish(Err(e)) => Step::Finish(Err(e)),
        }
    }

    /// Goes on with the spawning of a thread.
    pub open spec fn spawning(self, position: usize, output_len: Option<usize>) -> BatchStepView<
        'a,
        R,
    > {
        Step::Call(
            BatchState { phase: Phase::Spawning { spawned: position, output_len }, ..self },
            BatchCall::SpawnJob { position, job: self.job(position as int, output_len) },
        )
    }

    /// Goes on with the joining of the next thread.
    pub open spec fn joining(self) -> BatchStepView<'a, R> {
        Step::Call(
            BatchState { phase: Phase::Joining, ..self },
            BatchCall::JoinJob { position: (self.responses.len() - self.start) as usize },
        )
    }

    /// Goes on with all the requests of the segment at once.
    pub open spec fn parallel(self, settings: BatchSettings, output_len: Option<usize>) -> BatchStepView<
        'a,
        R,
    > {
        if settings.worker_pool {
            self.pooling(pool_start((self.end - self.start) as nat), output_len)
        } else {
            self.spawning(0, output_len)
        }
    }

    /// Goes on after the slot has been got.
    pub open spec fn handling(self, settings: BatchSettings) -> BatchStepView<'a, R> {
        if self.end - self.start > 1 && settings.parallel_rsa && self.requests@[self.start as int].algorithm.rsa() {
            if settings.fixed_output_len {
                self.opening(Phase::ProbeSession)
            } else {
                self.parallel(settings, None)
            }
        } else {
            self.opening(Phase::Session)
        }
    }

    /// Goes on after the request that comes next has its output: with the request after it, or with
    /// the next segment.
    pub open spec fn with_output(self, output: R) -> BatchStepView<'a, R> {
        let run = BatchState { responses: self.responses.push(output), ..self };
        if run.responses.len() < run.end {
            match self.phase {
                Phase::Crypt { handle, output_len } => run.crypting(handle, output_len),
                _ => run.joining(),
            }
        } else {
            segment_start(run.requests, run.direction, run.end, run.responses)
        }
    }

    /// What follows a reply.
    pub open spec fn next(self, settings: BatchSettings, reply: BatchReply<R>) -> BatchStepView<
        'a,
        R,
    > {
        match (self.phase, reply) {
            (Phase::Slot, BatchReply::Slot(Ok(_))) => self.handling(settings),
            (Phase::Slot, BatchReply::Slot(Err(e))) => Step::Finish(Err(e@)),
            (_, BatchReply::Session(JobReply::Opened(Err(e)))) => Step::Finish(Err(e@)),
            (_, BatchReply::Session(JobReply::Handle(Err(e)))) => Step::Finish(Err(e@)),
            (_, BatchReply::Session(JobReply::Output(Err(e)))) => Step::Finish(Err(e@)),
            (Phase::ProbeSession, _) => self.finding(Phase::ProbeHandle),
            (Phase::ProbeHandle, BatchReply::Session(JobReply::Handle(Ok(handle)))) => Step::Call(
                BatchState { phase: Phase::ProbeModulusLen { handle }, ..self },
                BatchCall::RsaModulusLen { handle },
            ),
            (Phase::ProbeModulusLen { .. }, BatchReply::ModulusLen(result)) => self.parallel(
                settings,
                known_len(result),
            ),
            (Phase::Session, _) => self.finding(Phase::Handle),
            (Phase::Handle, BatchReply::Session(JobReply::Handle(Ok(handle)))) =>
                if settings.fixed_output_len && self.requests@[self.start as int].algorithm.rsa() {
                    Step::Call(
                        BatchState { phase: Phase::ModulusLen { handle }, ..self },
                        BatchCall::RsaModulusLen { handle },
                    )
                } else {
                    self.crypting(handle, None)
                },
            (Phase::ModulusLen { handle }, BatchReply::ModulusLen(result)) => self.crypting(
                handle,
                known_len(result),
            ),
            (Phase::Crypt { .. }, BatchReply::Session(JobReply::Output(Ok(output)))) =>
                self.with_output(output),
            (Phase::Pool { jobs, output_len }, BatchReply::Pool(r)) => self.pooling(
                jobs.next(r),
                output_len,
            ),
            (Phase::Spawning { spawned, output_len }, _) => if spawned + 1 < self.end - self.start {
                self.spawning((spawned + 1) as usize, output_len)
            } else {
                self.joining()
            },
            (Phase::Joining, BatchReply::Joined(Some(Ok(output)))) => self.with_output(output),
            (Phase::Joining, BatchReply::Joined(Some(Err(e)))) => Step::Finish(Err(e@)),
            (Phase::Joining, BatchReply::Joined(None)) => Step::Finish(
                Err(InterfaceError::Default(worker_panicked_text(self.direction))),
            ),
            _ => arbitrary(),
        }
    }
}

/// Begins the segment at `start`, if there is one.
fn begin_segment<'a, R>(
    requests: &'a [HsmBatchRequest],
    direction: Direction,
    start: usize,
    responses: Vec<R>,
) -> (step: BatchStep<'a, R>)
    requires
        start <= requests@.len(),
        responses@.len() == start,
    ensures
        step@ == segment_start(requests, direction, start, responses@),
        step matches Step::Call(run, _) ==> run@.valid(),
{
    if start < requests.len() {
        let end: usize = segment_end(requests, start);
        Step::Call(
            BatchRun { requests, direction, start, end, responses, phase: Phase::Slot },
            BatchCall::GetSlot { slot_id: requests[start].slot_id },
        )
    } else {
        Step::Finish(Ok(responses))
    }
}

impl<'a, R> BatchRun<'a, R> {
    /// Begins the handling of a batch.
    pub fn start(requests: &'a [HsmBatchRequest], direction: Direction) -> (step: BatchStep<'a, R>)
        ensures
            step@ == segment_start(requests, direction, 0, Seq::<R>::empty()),
            step matches Step::Call(run, _) ==> run@.valid(),
    {
        let responses: Vec<R> = Vec::with_capacity(requests.len());
        begin_segment(requests, direction, 0, responses)
    }

    fn open(self, phase: Phase<PoolRun<R>>) -> (step: BatchStep<'a, R>)
        requires
            self.start < self.requests@.len(),
        ensures
            step@ == self@.opening((BatchRun { phase, ..self })@.phase),
            step matches Step::Call(run, _) ==> run == (BatchRun { phase, ..self }),
    {
        let slot_id: usize = self.requests[self.start].slot_id;
        Step::Call(
            BatchRun { phase, ..self },
            BatchCall::Session(JobCall::OpenSession { slot_id, read_write: true }),
        )
    }

    fn find(self, phase: Phase<PoolRun<R>>) -> (step: BatchStep<'a, R>)
        requires
            self.start < self.requests@.len(),
        ensures
            step@ == self@.finding((BatchRun { phase, ..self })@.phase),
            step matches Step::Call(run, _) ==> run == (BatchRun { phase, ..self }),
    {
        let requests = self.requests;
        let key_id = &requests[self.start].key_id;
        Step::Call(
            BatchRun { phase, ..self },
            BatchCall::Session(JobCall::GetObjectHandle { key_id }),
        )
    }

    fn crypt_next(self, handle: CK_OBJECT_HANDLE, output_len: Option<usize>) -> (step: BatchStep<
        'a,
        R,
    >)
        requires
            self.responses@.len() < self.requests@.len(),
        ensures
            step@ == self@.crypting(handle, output_len),
            step matches Step::Call(run, _) ==> run == (BatchRun {
                phase: Phase::Crypt { handle, output_len },
                ..self
            }),
    {
        let requests = self.requests;
        let call = crypt(self.direction, &requests[self.responses.len()], handle, output_len);
        Step::Call(
            BatchRun { phase: Phase::Crypt { handle, output_len }, ..self },
            BatchCall::Session(call),
        )
    }

    fn spawn(self, position: usize, output_len: Option<usize>) -> (step: BatchStep<'a, R>)
        requires
            self.start + position < self.requests@.len(),
        ensures
            step@ == self@.spawning(position, output_len),
            step matches Step::Call(run, _) ==> run == (BatchRun {
                phase: Phase::Spawning { spawned: position, output_len },
                ..self
            }),
    {
        let requests = self.requests;
        let job = BatchJob {
            direction: self.direction,
            request: &requests[self.start + position],
            output_len,
        };
        Step::Call(
            BatchRun { phase: Phase::Spawning { spawned: position, output_len }, ..self },
            BatchCall::SpawnJob { position, job },
        )
    }

    fn join(self) -> (step: BatchStep<'a, R>)
        requires
            self.start <= self.responses@.len(),
        ensures
            step@ == self@.joining(),
            step matches Step::Call(run, _) ==> run == (BatchRun { phase: Phase::Joining, ..self }),
    {
        let position: usize = self.responses.len() - self.start;
        Step::Call(
            BatchRun { phase: Phase::Joining, ..self },
            BatchCall::JoinJob { position },
        )
    }

    fn pool(
        self,
        step: Step<PoolRun<R>, PoolCall, InterfaceResult<Vec<R>>>,
        output_len: Option<usize>,
    ) -> (next: BatchStep<'a, R>)
        requires
            self@.valid(),
            self.responses@.len() == self.start,
            self.end - self.start > 1,
            self.requests@[self.start as int].algorithm.rsa(),
            step matches Step::Call(jobs, call) ==> {
                &&& jobs@.valid()
                &&& jobs@.outputs.len() == self.end - self.start
                &&& call matches PoolCall::Submit { position } ==> position < self.end - self.start
            },
            step matches Step::Finish(Ok(outputs)) ==> outputs@.len() == self.end - self.start,
        ensures
            next@ == self@.pooling(step@, output_len),
            next matches Step::Call(run, _) ==> run@.valid(),
    {
        let requests = self.requests;
        match step {
            Step::Call(jobs, PoolCall::Submit { position }) => {
                let job = BatchJob {
                    direction: self.direction,
                    request: &requests[self.start + position],
                    output_len,
                };
                Step::Call(
                    BatchRun { phase: Phase::Pool { jobs, output_len }, ..self },
                    BatchCall::SubmitJob { position, job },
                )
            },
            Step::Call(jobs, PoolCall::Receive) => Step::Call(
                BatchRun { phase: Phase::Pool { jobs, output_len }, ..self },
                BatchCall::ReceiveResult,
            ),
            Step::Finish(Ok(outputs)) => {
                let mut outputs = outputs;
                let mut responses = self.responses;
                responses.append(&mut outputs);
                begin_segment(requests, self.direction, self.end, responses)
            },
            Step::Finish(Err(e)) => Step::Finish(Err(e)),
        }
    }

    fn all_at_once(self, settings: BatchSettings, output_len: Option<usize>) -> (step: BatchStep<
        'a,
        R,
    >)
        requires
            self@.valid(),
            self.responses@.len() == self.start,
            self.end - self.start > 1,
            self.requests@[self.start as int].algorithm.rsa(),
        ensures
            step@ == self@.parallel(settings, output_len),
            step matches Step::Call(run, _) ==> run@.valid(),
    {
        if settings.worker_pool {
            let jobs = run_hsm_batch_worker_pool(self.end - self.start);
            self.pool(jobs, output_len)
        } else {
            self.spawn(0, output_len)
        }
    }

    fn handle_segment(self, settings: BatchSettings) -> (step: BatchStep<'a, R>)
        requires
            self@.valid(),
            self.responses@.len() == self.start,
        ensures
            step@ == self@.handling(settings),
            step matches Step::Call(run, _) ==> run@.valid(),
    {
        if self.end - self.start > 1 && settings.parallel_rsa && is_rsa_batch_algorithm(
            &self.requests[self.start].algorithm,
        ) {
            if settings.fixed_output_len {
                self.open(Phase::ProbeSession)
            } else {
                self.all_at_once(settings, None)
            }
        } else {
            self.open(Phase::Session)
        }
    }

    fn take_output(self, output: R) -> (step: BatchStep<'a, R>)
        requires
            self@.valid(),
            self.phase is Crypt || self.phase is Joining,
        ensures
            step@ == self@.with_output(output),
            step matches Step::Call(run, _) ==> run@.valid(),
    {
        let BatchRun { requests, direction, start, end, responses, phase } = self;
        let mut responses = responses;
        responses.push(output);
        if responses.len() < end {
            let run = BatchRun { requests, direction, start, end, responses, phase: Phase::Joining };
            match phase {
                Phase::Crypt { handle, output_len } => run.crypt_next(handle, output_len),
                _ => run.join(),
            }
        } else {
            begin_segment(requests, direction, end, responses)
        }
    }

    /// Tells whether a reply is one to the call that was made last.
    pub fn accepts(&self, reply: &BatchReply<R>) -> (accepted: bool)
        ensures
            accepted == self@.expects(*reply),
    {
        match (&self.phase, reply) {
            (Phase::Slot, BatchReply::Slot(_)) => true,
            (
                Phase::ProbeSession | Phase::Session,
                BatchReply::Session(JobReply::Opened(_)),
            ) => true,
            (Phase::ProbeHandle | Phase::Handle, BatchReply::Session(JobReply::Handle(_))) => true,
            (Phase::Crypt { .. }, BatchReply::Session(JobReply::Output(_))) => true,
            (Phase::ProbeModulusLen { .. } | Phase::ModulusLen { .. }, BatchReply::ModulusLen(_)) => true,
            (Phase::Pool { jobs, .. }, BatchReply::Pool(r)) => jobs.accepts(r),
            (Phase::Spawning { .. }, BatchReply::Spawned) => true,
            (Phase::Joining, BatchReply::Joined(_)) => true,
            _ => false,
        }
    }

    /// Goes on with the reply to the call that was made last. `settings` is what the environment
    /// asks for at that moment.
    pub fn resume(self, settings: BatchSettings, reply: BatchReply<R>) -> (step: BatchStep<'a, R>)
        requires
            self@.valid(),
            self@.expects(reply),
        ensures
            step@ == self@.next(settings, reply),
            step matches Step::Call(run, _) ==> run@.valid(),
    {
        let requests = self.requests;
        let direction = self.direction;
        match reply {
            BatchReply::Slot(Ok(())) => self.handle_segment(settings),
            BatchReply::Slot(Err(e)) => Step::Finish(Err(e)),
            BatchReply::Session(JobReply::Opened(Err(e))) => Step::Finish(Err(e)),
            BatchReply::Session(JobReply::Handle(Err(e))) => Step::Finish(Err(e)),
            BatchReply::Session(JobReply::Output(Err(e))) => Step::Finish(Err(e)),
            BatchReply::Session(JobReply::Opened(Ok(()))) => match self.phase {
                Phase::ProbeSession => self.find(Phase::ProbeHandle),
                _ => self.find(Phase::Handle),
            },
            BatchReply::Session(JobReply::Handle(Ok(handle))) => match self.phase {
                Phase::ProbeHandle => Step::Call(
                    BatchRun { phase: Phase::ProbeModulusLen { handle }, ..self },
                    BatchCall::RsaModulusLen { handle },
                ),
                _ => if settings.fixed_output_len && is_rsa_batch_algorithm(
                    &requests[self.start].algorithm,
                ) {
                    Step::Call(
                        BatchRun { phase: Phase::ModulusLen { handle }, ..self },
                        BatchCall::RsaModulusLen { handle },
                    )
                } else {
                    self.crypt_next(handle, None)
                },
            },
            BatchReply::ModulusLen(result) => match self.phase {
                Phase::ModulusLen { handle } => self.crypt_next(handle, readable_len(result)),
                _ => self.all_at_once(settings, readable_len(result)),
            },
            BatchReply::Session(JobReply::Output(Ok(output))) => self.take_output(output),
            BatchReply::Pool(r) => {
                let BatchRun { requests, direction, start, end, responses, phase } = self;
                match phase {
                    Phase::Pool { jobs, output_len } => {
                        let run = BatchRun {
                            requests,
                            direction,
                            start,
                            end,
                            responses,
                            phase: Phase::Slot,
                        };
                        run.pool(jobs.resume(r), output_len)
                    },
                    _ => vstd::pervasive::unreached(),
                }
            },
            BatchReply::Spawned => match self.phase {
                Phase::Spawning { spawned, output_len } => if spawned + 1 < self.end - self.start {
                    self.spawn(spawned + 1, output_len)
                } else {
                    self.join()
                },
                _ => vstd::pervasive::unreached(),
            },
            BatchReply::Joined(Some(Ok(output))) => self.take_output(output),
            BatchReply::Joined(Some(Err(e))) => Step::Finish(Err(e)),
            BatchReply::Joined(None) => Step::Finish(
                Err(InterfaceError::worker_panicked(direction)),
            ),
        }
    }
}

} // verus!
