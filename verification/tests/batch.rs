use base_hsm::batch::job::BatchJob;
use base_hsm::batch::job::JobCall;
use base_hsm::batch::job::JobReply;
use base_hsm::batch::pool::PoolReply;
use base_hsm::batch::request::is_rsa_batch_algorithm;
use base_hsm::batch::request::segment_end;
use base_hsm::batch::request::CryptoAlgorithm;
use base_hsm::batch::request::HsmBatchRequest;
use base_hsm::batch::run::readable_len;
use base_hsm::batch::run::BatchCall;
use base_hsm::batch::run::BatchReply;
use base_hsm::batch::run::BatchRun;
use base_hsm::batch::run::BatchStep;
use base_hsm::batch::settings::BatchSettings;
use base_hsm::error::Direction;
use base_hsm::error::InterfaceError;
use base_hsm::error::InterfaceResult;
use base_hsm::hsm::BaseHsm;
use base_hsm::secret::SecretBytes;
use base_hsm::step::Step;

const OFF: BatchSettings =
    BatchSettings { parallel_rsa: false, fixed_output_len: false, worker_pool: false };

fn request(slot_id: usize, key: u8, algorithm: CryptoAlgorithm, data: u8) -> HsmBatchRequest {
    HsmBatchRequest {
        slot_id,
        key_id: vec![key],
        algorithm,
        data: vec![data],
        authenticated_encryption_additional_data: vec![data + 100],
    }
}

fn rsa_requests(count: u8) -> Vec<HsmBatchRequest> {
    (0..count).map(|data| request(1, 7, CryptoAlgorithm::RsaOaepSha256, data)).collect()
}

/// An HSM that answers every call well. The output for a request is its data, its additional data
/// and the length that was given.
struct Device {
    modulus_len: Option<usize>,
    last_first: bool,
    queue: Vec<(usize, Vec<u8>)>,
    threads: Vec<Vec<u8>>,
    log: Vec<&'static str>,
}

fn output_of(job: &BatchJob) -> Vec<u8> {
    let mut output = job.request.data.clone();
    output.extend(&job.request.authenticated_encryption_additional_data);
    if let Some(len) = job.output_len {
        output.push(len as u8);
    }
    output
}

impl Device {
    fn new(modulus_len: Option<usize>, last_first: bool) -> Device {
        Device { modulus_len, last_first, queue: vec![], threads: vec![], log: vec![] }
    }

    fn session(&mut self, call: JobCall) -> JobReply<Vec<u8>> {
        match call {
            JobCall::OpenSession { read_write, .. } => {
                assert!(read_write);
                self.log.push("session");
                JobReply::Opened(Ok(()))
            }
            JobCall::GetObjectHandle { key_id } => {
                self.log.push("handle");
                JobReply::Handle(Ok(u64::from(key_id[0])))
            }
            JobCall::Crypt { handle, data, additional_data, output_len, .. } => {
                self.log.push("crypt");
                assert!(handle > 0);
                let mut output = data.clone();
                output.extend(additional_data);
                if let Some(len) = output_len {
                    output.push(len as u8);
                }
                JobReply::Output(Ok(output))
            }
        }
    }

    fn answer(&mut self, call: BatchCall) -> BatchReply<Vec<u8>> {
        match call {
            BatchCall::GetSlot { .. } => {
                self.log.push("slot");
                BatchReply::Slot(Ok(()))
            }
            BatchCall::Session(call) => BatchReply::Session(self.session(call)),
            BatchCall::RsaModulusLen { .. } => {
                self.log.push("modulus");
                BatchReply::ModulusLen(Ok(self.modulus_len))
            }
            BatchCall::SubmitJob { position, job } => {
                self.log.push("submit");
                self.queue.push((position, output_of(&job)));
                BatchReply::Pool(PoolReply::Submitted(true))
            }
            BatchCall::ReceiveResult => {
                self.log.push("receive");
                let index = if self.last_first { self.queue.len() - 1 } else { 0 };
                let (position, output) = self.queue.remove(index);
                BatchReply::Pool(PoolReply::Received(Some((position, Ok(output)))))
            }
            BatchCall::SpawnJob { position, job } => {
                self.log.push("spawn");
                assert_eq!(position, self.threads.len());
                self.threads.push(output_of(&job));
                BatchReply::Spawned
            }
            BatchCall::JoinJob { position } => {
                self.log.push("join");
                let output = self.threads[position].clone();
                if position + 1 == self.threads.len() {
                    self.threads.clear();
                }
                BatchReply::Joined(Some(Ok(output)))
            }
        }
    }

    fn run(
        &mut self,
        requests: &[HsmBatchRequest],
        settings: BatchSettings,
    ) -> InterfaceResult<Vec<Vec<u8>>> {
        let mut step: BatchStep<Vec<u8>> = BatchRun::start(requests, Direction::Encrypt);
        loop {
            match step {
                Step::Call(run, call) => {
                    let reply = self.answer(call);
                    assert!(run.accepts(&reply));
                    step = run.resume(settings, reply);
                }
                Step::Finish(result) => return result,
            }
        }
    }
}

fn outputs(result: InterfaceResult<Vec<Vec<u8>>>) -> Vec<Vec<u8>> {
    match result {
        Ok(outputs) => outputs,
        Err(e) => panic!("{}", e.message()),
    }
}

fn after<'a>(
    requests: &'a [HsmBatchRequest],
    settings: BatchSettings,
    replies: Vec<BatchReply<Vec<u8>>>,
) -> BatchStep<'a, Vec<u8>> {
    let mut step: BatchStep<'a, Vec<u8>> = BatchRun::start(requests, Direction::Decrypt);
    for reply in replies {
        step = match step {
            Step::Call(run, _) => {
                assert!(run.accepts(&reply));
                run.resume(settings, reply)
            }
            Step::Finish(_) => panic!("the batch is over"),
        };
    }
    step
}

fn failure(step: BatchStep<Vec<u8>>) -> String {
    match step {
        Step::Finish(Err(e)) => e.message(),
        _ => panic!("a call failed"),
    }
}

fn error(message: &str) -> InterfaceError {
    InterfaceError::Default(message.to_owned())
}

#[test]
fn which_algorithms_are_rsa() {
    assert!(is_rsa_batch_algorithm(&CryptoAlgorithm::RsaPkcsV15));
    assert!(is_rsa_batch_algorithm(&CryptoAlgorithm::RsaOaepSha256));
    assert!(is_rsa_batch_algorithm(&CryptoAlgorithm::RsaOaepSha1));
    assert!(!is_rsa_batch_algorithm(&CryptoAlgorithm::AesCbc));
    assert!(!is_rsa_batch_algorithm(&CryptoAlgorithm::AesGcm));
}

#[test]
fn segments_are_runs_of_one_target() {
    let requests = vec![
        request(1, 1, CryptoAlgorithm::AesGcm, 0),
        request(1, 1, CryptoAlgorithm::AesGcm, 1),
        request(2, 1, CryptoAlgorithm::AesGcm, 2),
        request(2, 2, CryptoAlgorithm::AesGcm, 3),
        request(2, 2, CryptoAlgorithm::AesCbc, 4),
        request(2, 2, CryptoAlgorithm::AesCbc, 5),
    ];
    assert_eq!(segment_end(&requests, 0), 2);
    assert_eq!(segment_end(&requests, 1), 2);
    assert_eq!(segment_end(&requests, 2), 3);
    assert_eq!(segment_end(&requests, 3), 4);
    assert_eq!(segment_end(&requests, 4), 6);
    assert_eq!(segment_end(&requests, 5), 6);
}

#[test]
fn an_empty_batch_gives_nothing() {
    let mut device = Device::new(None, false);
    assert!(outputs(device.run(&[], OFF)).is_empty());
    assert!(device.log.is_empty());
}

#[test]
fn one_session_serves_a_segment() {
    let mut device = Device::new(Some(5), false);
    let result = device.run(&rsa_requests(3), OFF);
    assert_eq!(outputs(result), vec![vec![0, 100], vec![1, 101], vec![2, 102]]);
    assert_eq!(device.log, vec!["slot", "session", "handle", "crypt", "crypt", "crypt"]);
}

#[test]
fn fixed_length_is_read_once_for_a_segment() {
    let mut device = Device::new(Some(5), false);
    let settings = BatchSettings { fixed_output_len: true, ..OFF };
    let result = device.run(&rsa_requests(2), settings);
    assert_eq!(outputs(result), vec![vec![0, 100, 5], vec![1, 101, 5]]);
    assert_eq!(device.log, vec!["slot", "session", "handle", "modulus", "crypt", "crypt"]);
}

#[test]
fn fixed_length_is_for_rsa_only() {
    let mut device = Device::new(Some(5), false);
    let settings = BatchSettings { parallel_rsa: true, fixed_output_len: true, worker_pool: true };
    let requests =
        vec![request(1, 1, CryptoAlgorithm::AesGcm, 0), request(1, 1, CryptoAlgorithm::AesGcm, 1)];
    assert_eq!(outputs(device.run(&requests, settings)), vec![vec![0, 100], vec![1, 101]]);
    assert_eq!(device.log, vec!["slot", "session", "handle", "crypt", "crypt"]);
}

#[test]
fn a_single_request_is_not_handled_in_parallel() {
    let mut device = Device::new(None, false);
    let settings = BatchSettings { parallel_rsa: true, ..OFF };
    assert_eq!(outputs(device.run(&rsa_requests(1), settings)), vec![vec![0, 100]]);
    assert_eq!(device.log, vec!["slot", "session", "handle", "crypt"]);
}

#[test]
fn threads_are_spawned_and_joined_in_order() {
    let mut device = Device::new(None, false);
    let settings = BatchSettings { parallel_rsa: true, ..OFF };
    let result = device.run(&rsa_requests(3), settings);
    assert_eq!(outputs(result), vec![vec![0, 100], vec![1, 101], vec![2, 102]]);
    assert_eq!(device.log, vec!["slot", "spawn", "spawn", "spawn", "join", "join", "join"]);
}

#[test]
fn the_length_is_probed_before_threads_are_spawned() {
    let mut device = Device::new(Some(9), false);
    let settings = BatchSettings { parallel_rsa: true, fixed_output_len: true, worker_pool: false };
    assert_eq!(
        outputs(device.run(&rsa_requests(2), settings)),
        vec![vec![0, 100, 9], vec![1, 101, 9]]
    );
    assert_eq!(
        device.log,
        vec!["slot", "session", "handle", "modulus", "spawn", "spawn", "join", "join"]
    );
}

#[test]
fn the_pool_handles_a_segment() {
    for last_first in [false, true] {
        let mut device = Device::new(Some(9), last_first);
        let settings =
            BatchSettings { parallel_rsa: true, fixed_output_len: false, worker_pool: true };
        assert_eq!(
            outputs(device.run(&rsa_requests(2), settings)),
            vec![vec![0, 100], vec![1, 101]]
        );
        assert_eq!(device.log, vec!["slot", "submit", "submit", "receive", "receive"]);
    }
}

#[test]
fn outputs_do_not_depend_on_the_settings() {
    let requests = vec![
        request(1, 1, CryptoAlgorithm::RsaPkcsV15, 0),
        request(1, 1, CryptoAlgorithm::RsaPkcsV15, 1),
        request(1, 2, CryptoAlgorithm::AesGcm, 2),
        request(1, 2, CryptoAlgorithm::AesGcm, 3),
        request(3, 2, CryptoAlgorithm::RsaOaepSha1, 4),
        request(3, 2, CryptoAlgorithm::RsaOaepSha1, 5),
        request(3, 2, CryptoAlgorithm::RsaOaepSha1, 6),
        request(3, 9, CryptoAlgorithm::RsaOaepSha1, 7),
    ];
    let expected: Vec<Vec<u8>> = (0..8).map(|data| vec![data, data + 100]).collect();
    for parallel_rsa in [false, true] {
        for fixed_output_len in [false, true] {
            for worker_pool in [false, true] {
                for last_first in [false, true] {
                    let mut device = Device::new(None, last_first);
                    let settings = BatchSettings { parallel_rsa, fixed_output_len, worker_pool };
                    assert_eq!(outputs(device.run(&requests, settings)), expected);
                    assert!(device.log.len() <= 5 * requests.len());
                }
            }
        }
    }
}

#[test]
fn equal_requests_keep_their_own_outputs() {
    let requests = vec![
        request(1, 7, CryptoAlgorithm::RsaOaepSha256, 3),
        request(1, 7, CryptoAlgorithm::RsaOaepSha256, 3),
    ];
    let queued = || BatchReply::Pool(PoolReply::Submitted(true));
    let received =
        |position, output| BatchReply::Pool(PoolReply::Received(Some((position, Ok(output)))));
    let pool = BatchSettings { parallel_rsa: true, fixed_output_len: false, worker_pool: true };
    let step = after(
        &requests,
        pool,
        vec![
            BatchReply::Slot(Ok(())),
            queued(),
            queued(),
            received(1, vec![21]),
            received(0, vec![20]),
        ],
    );
    match step {
        Step::Finish(Ok(outputs)) => assert_eq!(outputs, vec![vec![20], vec![21]]),
        _ => panic!("the batch is over"),
    }
}

#[test]
fn encryption_and_decryption_are_told_apart() {
    let requests = rsa_requests(1);
    for (direction, step) in [
        (Direction::Encrypt, BatchRun::start(&requests, Direction::Encrypt)),
        (Direction::Decrypt, BatchRun::start(&requests, Direction::Decrypt)),
    ] {
        let mut step: BatchStep<Vec<u8>> = step;
        for reply in [
            BatchReply::Slot(Ok(())),
            BatchReply::Session(JobReply::Opened(Ok(()))),
            BatchReply::Session(JobReply::Handle(Ok(4))),
        ] {
            step = match step {
                Step::Call(run, _) => run.resume(OFF, reply),
                Step::Finish(_) => panic!("the batch goes on"),
            };
        }
        match step {
            Step::Call(_, BatchCall::Session(JobCall::Crypt { direction: made, .. })) => {
                assert!(made == direction);
            }
            _ => panic!("the request is handled"),
        }
    }
}

#[test]
fn a_length_that_cannot_be_read_is_not_an_error() {
    assert_eq!(readable_len(Ok(Some(256))), Some(256));
    assert_eq!(readable_len(Ok(None)), None);
    assert_eq!(readable_len(Err(error("modulus"))), None);
    let requests = rsa_requests(1);
    let settings = BatchSettings { fixed_output_len: true, ..OFF };
    let step = after(
        &requests,
        settings,
        vec![
            BatchReply::Slot(Ok(())),
            BatchReply::Session(JobReply::Opened(Ok(()))),
            BatchReply::Session(JobReply::Handle(Ok(4))),
            BatchReply::ModulusLen(Err(error("modulus"))),
        ],
    );
    match step {
        Step::Call(_, BatchCall::Session(JobCall::Crypt { direction, handle, output_len, .. })) => {
            assert!(direction == Direction::Decrypt);
            assert_eq!(handle, 4);
            assert_eq!(output_len, None);
        }
        _ => panic!("the request is handled"),
    }
}

#[test]
fn the_first_failure_ends_a_batch() {
    let requests = rsa_requests(2);
    let slot = || BatchReply::Slot(Ok(()));
    let opened = || BatchReply::Session(JobReply::Opened(Ok(())));
    let handle = || BatchReply::Session(JobReply::Handle(Ok(4)));

    let step = after(&requests, OFF, vec![BatchReply::Slot(Err(error("slot")))]);
    assert_eq!(failure(step), "slot");

    let refused = BatchReply::Session(JobReply::Opened(Err(error("session"))));
    assert_eq!(failure(after(&requests, OFF, vec![slot(), refused])), "session");

    let refused = BatchReply::Session(JobReply::Handle(Err(error("handle"))));
    assert_eq!(failure(after(&requests, OFF, vec![slot(), opened(), refused])), "handle");

    let done = BatchReply::Session(JobReply::Output(Ok(vec![1])));
    let refused = BatchReply::Session(JobReply::Output(Err(error("crypt"))));
    assert_eq!(
        failure(after(&requests, OFF, vec![slot(), opened(), handle(), done, refused])),
        "crypt"
    );
}

#[test]
fn a_failure_in_parallel_ends_a_batch() {
    let requests = rsa_requests(2);
    let threads = BatchSettings { parallel_rsa: true, ..OFF };
    let slot = || BatchReply::Slot(Ok(()));
    let spawned =
        |last| vec![slot(), BatchReply::Spawned, BatchReply::Spawned, BatchReply::Joined(last)];
    assert_eq!(failure(after(&requests, threads, spawned(Some(Err(error("job")))))), "job");
    assert_eq!(
        failure(after(&requests, threads, spawned(None))),
        "parallel HSM RSA decrypt worker panicked"
    );

    let pool = BatchSettings { worker_pool: true, ..threads };
    let refused = BatchReply::Pool(PoolReply::Submitted(false));
    assert_eq!(
        failure(after(&requests, pool, vec![slot(), refused])),
        "failed to submit HSM batch worker job"
    );
    let queued = || BatchReply::Pool(PoolReply::Submitted(true));
    let lost = BatchReply::Pool(PoolReply::Received(None));
    assert_eq!(
        failure(after(&requests, pool, vec![slot(), queued(), queued(), lost])),
        "failed to receive HSM batch worker result"
    );
    let failed = BatchReply::Pool(PoolReply::Received(Some((1, Err(error("job"))))));
    assert_eq!(failure(after(&requests, pool, vec![slot(), queued(), queued(), failed])), "job");
}

#[test]
fn a_batch_refuses_replies_to_other_calls() {
    let requests = rsa_requests(1);
    match after(&requests, OFF, vec![]) {
        Step::Call(run, _) => {
            assert!(!run.accepts(&BatchReply::Spawned));
            assert!(!run.accepts(&BatchReply::Session(JobReply::Opened(Ok(())))));
            assert!(run.accepts(&BatchReply::Slot(Ok(()))));
        }
        Step::Finish(_) => panic!("there is a request"),
    }
}

#[test]
fn a_job_opens_a_session_of_its_own() {
    let request = request(6, 7, CryptoAlgorithm::RsaPkcsV15, 1);
    let job = BatchJob { direction: Direction::Encrypt, request: &request, output_len: Some(64) };
    let run = match job.start::<Vec<u8>>() {
        Step::Call(run, JobCall::OpenSession { slot_id, read_write }) => {
            assert_eq!(slot_id, 6);
            assert!(read_write);
            run
        }
        _ => panic!("a session is opened first"),
    };
    let run = match run.resume::<Vec<u8>>(JobReply::Opened(Ok(()))) {
        Step::Call(run, JobCall::GetObjectHandle { key_id }) => {
            assert_eq!(*key_id, vec![7]);
            run
        }
        _ => panic!("the key is looked up"),
    };
    let run = match run.resume::<Vec<u8>>(JobReply::Handle(Ok(30))) {
        Step::Call(
            run,
            JobCall::Crypt { direction, handle, algorithm, data, additional_data, output_len },
        ) => {
            assert!(direction == Direction::Encrypt);
            assert_eq!(handle, 30);
            assert!(algorithm == CryptoAlgorithm::RsaPkcsV15);
            assert_eq!(*data, vec![1]);
            assert_eq!(*additional_data, vec![101]);
            assert_eq!(output_len, Some(64));
            run
        }
        _ => panic!("the data is encrypted"),
    };
    assert!(run.accepts(&JobReply::Output(Ok(vec![9]))));
    assert!(!run.accepts(&JobReply::<Vec<u8>>::Opened(Ok(()))));
    match run.resume(JobReply::Output(Ok(vec![9]))) {
        Step::Finish(Ok(output)) => assert_eq!(output, vec![9]),
        _ => panic!("the job is over"),
    }
    match run.resume(JobReply::<Vec<u8>>::Output(Err(error("crypt")))) {
        Step::Finish(Err(e)) => assert_eq!(e.message(), "crypt"),
        _ => panic!("the job is over"),
    }
}

#[test]
fn the_hsm_encrypts_and_decrypts_batches() {
    let requests = rsa_requests(1);
    match BaseHsm.encrypt_batch(&requests) {
        Step::Call(_, BatchCall::GetSlot { slot_id }) => assert_eq!(slot_id, 1),
        _ => panic!("the slot is got first"),
    }
    let run = match BaseHsm.decrypt_batch(&requests) {
        Step::Call(run, BatchCall::GetSlot { .. }) => run,
        _ => panic!("the slot is got first"),
    };
    let replies = [
        BatchReply::Slot(Ok(())),
        BatchReply::Session(JobReply::Opened(Ok(()))),
        BatchReply::Session(JobReply::Handle(Ok(4))),
    ];
    let mut run = run;
    for reply in replies {
        run = match run.resume(OFF, reply) {
            Step::Call(run, _) => run,
            Step::Finish(_) => panic!("the batch goes on"),
        };
    }
    let plaintext = SecretBytes::new(vec![42]);
    match run.resume(OFF, BatchReply::Session(JobReply::Output(Ok(plaintext)))) {
        Step::Finish(Ok(outputs)) => {
            assert_eq!(outputs.len(), 1);
            assert_eq!(outputs[0].as_slice(), [42]);
        }
        _ => panic!("the batch is over"),
    }
}
