use base_hsm::batch::pool::hsm_batch_worker_pool;
use base_hsm::batch::pool::run_hsm_batch_worker_pool;
use base_hsm::batch::pool::Delivery;
use base_hsm::batch::pool::HsmBatchWorkerPool;
use base_hsm::batch::pool::PoolCall;
use base_hsm::batch::pool::PoolReply;
use base_hsm::batch::pool::PoolRun;
use base_hsm::batch::pool::WorkerAction;
use base_hsm::batch::settings::configured_hsm_batch_workers;
use base_hsm::batch::settings::hsm_batch_parallel_rsa_enabled;
use base_hsm::batch::settings::hsm_batch_rsa_fixed_output_len_enabled;
use base_hsm::batch::settings::hsm_batch_worker_pool_enabled;
use base_hsm::error::InterfaceError;
use base_hsm::error::InterfaceResult;
use base_hsm::step::Step;

type PoolStep = Step<PoolRun<u32>, PoolCall, InterfaceResult<Vec<u32>>>;

fn resume_pool(step: PoolStep, reply: PoolReply<u32>) -> PoolStep {
    match step {
        Step::Call(run, _) => {
            assert!(run.accepts(&reply));
            run.resume(reply)
        }
        Step::Finish(_) => panic!("the pool is done"),
    }
}

fn submit_all(job_count: usize) -> PoolStep {
    let mut step: PoolStep = run_hsm_batch_worker_pool(job_count);
    for i in 0..job_count {
        match &step {
            Step::Call(_, PoolCall::Submit { position }) => assert_eq!(*position, i),
            _ => panic!("a submission is missing"),
        }
        step = resume_pool(step, PoolReply::Submitted(true));
    }
    step
}

#[test]
fn what_switches_on() {
    for text in ["1", "true", "TRUE", "yes", "YES", "on", "ON"] {
        assert!(hsm_batch_worker_pool_enabled(Some(text)));
        assert!(hsm_batch_parallel_rsa_enabled(Some(text), None));
        assert!(hsm_batch_parallel_rsa_enabled(None, Some(text)));
        assert!(hsm_batch_rsa_fixed_output_len_enabled(Some(text)));
    }
    for text in ["", "0", "True", "Yes", "On", "1 ", "false", "off", "2"] {
        assert!(!hsm_batch_worker_pool_enabled(Some(text)));
        assert!(!hsm_batch_parallel_rsa_enabled(Some(text), Some("1")));
        assert!(!hsm_batch_parallel_rsa_enabled(None, Some(text)));
        assert!(!hsm_batch_rsa_fixed_output_len_enabled(Some(text)));
    }
    assert!(!hsm_batch_worker_pool_enabled(None));
    assert!(!hsm_batch_parallel_rsa_enabled(None, None));
    assert!(!hsm_batch_rsa_fixed_output_len_enabled(None));
}

#[test]
fn how_many_workers() {
    assert_eq!(configured_hsm_batch_workers(Some("1"), Some(16)), 1);
    assert_eq!(configured_hsm_batch_workers(Some("+12"), Some(16)), 12);
    assert_eq!(configured_hsm_batch_workers(Some("1024"), Some(16)), 1024);
    assert_eq!(configured_hsm_batch_workers(Some("1025"), Some(16)), 16);
    assert_eq!(configured_hsm_batch_workers(Some("0"), Some(16)), 16);
    assert_eq!(configured_hsm_batch_workers(Some("many"), Some(16)), 16);
    assert_eq!(configured_hsm_batch_workers(None, Some(1)), 2);
    assert_eq!(configured_hsm_batch_workers(None, Some(2)), 2);
    assert_eq!(configured_hsm_batch_workers(None, Some(64)), 64);
    assert_eq!(configured_hsm_batch_workers(None, Some(65)), 64);
    assert_eq!(configured_hsm_batch_workers(None, None), 8);
}

#[test]
fn the_pool_is_made_once() {
    let mut cell = None;
    let first = hsm_batch_worker_pool(&mut cell, Some("3"), Some(16));
    assert_eq!(first.worker_count(), 3);
    let second = hsm_batch_worker_pool(&mut cell, Some("5"), Some(32));
    assert_eq!(second.worker_count(), 3);
    assert!(first == second);
}

#[test]
fn workers_have_names() {
    assert_eq!(HsmBatchWorkerPool::worker_name(0), "hsm-batch-worker-0");
    assert_eq!(HsmBatchWorkerPool::worker_name(1023), "hsm-batch-worker-1023");
    assert_eq!(HsmBatchWorkerPool::new(4).worker_count(), 4);
}

#[test]
fn workers_run_jobs_until_the_queue_closes() {
    assert!(matches!(HsmBatchWorkerPool::worker_action(Delivery::Job(9)), WorkerAction::Run(9)));
    assert!(matches!(
        HsmBatchWorkerPool::worker_action::<u32>(Delivery::Closed),
        WorkerAction::Stop
    ));
    assert!(matches!(
        HsmBatchWorkerPool::worker_action::<u32>(Delivery::Poisoned),
        WorkerAction::Stop
    ));
}

#[test]
fn a_job_that_is_not_queued_is_an_error() {
    assert!(HsmBatchWorkerPool::submit(true).is_ok());
    assert!(matches!(
        HsmBatchWorkerPool::submit(false),
        Err(InterfaceError::Default(message)) if message == "failed to submit HSM batch worker job"
    ));
}

#[test]
fn no_jobs_give_no_results() {
    match run_hsm_batch_worker_pool::<u32>(0) {
        Step::Finish(Ok(outputs)) => assert!(outputs.is_empty()),
        _ => panic!("there is nothing to be done"),
    }
}

#[test]
fn results_come_out_in_the_order_of_the_jobs() {
    for order in [[0, 1, 2], [2, 1, 0], [1, 2, 0]] {
        let mut step = submit_all(3);
        for position in order {
            assert!(matches!(step, Step::Call(_, PoolCall::Receive)));
            let output = 10 + position as u32;
            step = resume_pool(step, PoolReply::Received(Some((position, Ok(output)))));
        }
        match step {
            Step::Finish(Ok(outputs)) => assert_eq!(outputs, vec![10, 11, 12]),
            _ => panic!("all results are there"),
        }
    }
}

#[test]
fn a_failed_submission_ends_the_run() {
    let step = resume_pool(run_hsm_batch_worker_pool(2), PoolReply::Submitted(true));
    let step = resume_pool(step, PoolReply::Submitted(false));
    assert!(matches!(step, Step::Finish(Err(InterfaceError::Default(message))) if message == "failed to submit HSM batch worker job"));
}

#[test]
fn a_lost_result_ends_the_run() {
    let step = resume_pool(submit_all(2), PoolReply::Received(Some((1, Ok(4)))));
    let step = resume_pool(step, PoolReply::Received(None));
    assert!(matches!(step, Step::Finish(Err(InterfaceError::Default(message))) if message == "failed to receive HSM batch worker result"));
}

#[test]
fn the_first_error_that_arrives_ends_the_run() {
    let error = InterfaceError::Default("job".to_owned());
    let step = resume_pool(submit_all(2), PoolReply::Received(Some((1, Err(error)))));
    match step {
        Step::Finish(Err(e)) => assert_eq!(e.message(), "job"),
        _ => panic!("the run is over"),
    }
}

#[test]
fn a_result_that_is_given_twice_leaves_one_missing() {
    let step = resume_pool(submit_all(2), PoolReply::Received(Some((0, Ok(4)))));
    let step = resume_pool(step, PoolReply::Received(Some((0, Ok(5)))));
    assert!(matches!(step, Step::Finish(Err(InterfaceError::Default(message))) if message == "missing HSM batch worker result"));
}

#[test]
fn the_pool_refuses_replies_to_other_calls() {
    match run_hsm_batch_worker_pool::<u32>(1) {
        Step::Call(run, _) => {
            assert!(!run.accepts(&PoolReply::Received(None)));
            assert!(run.accepts(&PoolReply::Submitted(false)));
        }
        Step::Finish(_) => panic!("there is a job"),
    }
    match submit_all(1) {
        Step::Call(run, _) => {
            assert!(!run.accepts(&PoolReply::Submitted(true)));
            assert!(!run.accepts(&PoolReply::Received(Some((1, Ok(0))))));
            assert!(run.accepts(&PoolReply::Received(Some((0, Ok(0))))));
        }
        Step::Finish(_) => panic!("there is a result to come"),
    }
}
