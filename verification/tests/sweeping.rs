use blksweep::command::{retry_start, RetryStep};
use blksweep::errors::Error;
use blksweep::lifecycle::{PointAction, PointRun, Stage, StageFailure};
use blksweep::sweep::{enumerate_points, total_configs};

#[test]
fn enumeration_is_nested_lexicographic() {
    let block_sizes: Vec<String> = vec!["4k".into(), "8k".into()];
    let jobcounts: Vec<u32> = vec![1, 2];
    let workloads: Vec<String> = vec!["read".into(), "write".into()];
    let queue_depths: Vec<u32> = vec![1, 32];
    let points = enumerate_points(&block_sizes, &jobcounts, &workloads, &queue_depths);
    assert_eq!(points.len(), 16);
    let mut expected = Vec::new();
    for bs in &block_sizes {
        for jc in &jobcounts {
            for wl in &workloads {
                for qd in &queue_depths {
                    expected.push((bs.clone(), *jc, wl.clone(), *qd));
                }
            }
        }
    }
    for (point, want) in points.iter().zip(expected.iter()) {
        assert_eq!(point.block_size, want.0);
        assert_eq!(point.jobcount, want.1);
        assert_eq!(point.workload, want.2);
        assert_eq!(point.queue_depth, want.3);
    }
}

#[test]
fn enumeration_of_empty_axis_is_empty() {
    let block_sizes: Vec<String> = vec!["4k".into()];
    let jobcounts: Vec<u32> = vec![];
    let workloads: Vec<String> = vec!["read".into()];
    let queue_depths: Vec<u32> = vec![1];
    let points = enumerate_points(&block_sizes, &jobcounts, &workloads, &queue_depths);
    assert_eq!(points.len(), 0);
}

#[test]
fn zero_attempts_is_an_invalid_argument() {
    assert_eq!(retry_start(0), Err(Error::InvalidRetryCount));
}

#[test]
fn failing_attempts_are_bounded_and_last_error_returned() {
    let mut plan = retry_start(3).unwrap();
    let mut attempts = 0;
    let errors = [
        Error::ProcessFailed { code: 11 },
        Error::ProcessFailed { code: 22 },
        Error::ProcessFailed { code: 33 },
    ];
    let final_error;
    loop {
        let outcome: Result<(), Error> = Err(errors[attempts]);
        attempts += 1;
        match plan.next(outcome) {
            RetryStep::Done => panic!("an always-failing process cannot finish"),
            RetryStep::SleepAndRetry(next_plan) => plan = next_plan,
            RetryStep::GiveUp(e) => {
                final_error = e;
                break;
            }
        }
    }
    assert_eq!(attempts, 3);
    assert_eq!(final_error, Error::ProcessFailed { code: 33 });
}

#[test]
fn spawn_failure_is_fatal_at_once() {
    // A process that cannot even be spawned is not retried: the
    // machine gives up immediately with that error, with no sleep.
    let plan = retry_start(3).unwrap();
    match plan.next(Err(Error::SpawnFailed)) {
        RetryStep::GiveUp(e) => assert_eq!(e, Error::SpawnFailed),
        _ => panic!("a spawn failure must end the call at once"),
    }
}

#[test]
fn success_short_circuits_the_retry() {
    let plan = retry_start(3).unwrap();
    let step = plan.next(Err(Error::ProcessFailed { code: 1 }));
    let plan = match step {
        RetryStep::SleepAndRetry(p) => p,
        _ => panic!("first failure must ask for a retry"),
    };
    assert!(matches!(plan.next(Ok(())), RetryStep::Done));
}

#[test]
fn teardown_runs_when_measurement_fails() {
    let mut teardowns = 0;
    let mut machine = PointRun::start(false);
    let result = loop {
        match machine.action() {
            PointAction::RunSetup => machine = machine.report(Ok(())),
            PointAction::RunPrep => panic!("no preparation was configured"),
            PointAction::RunMeasure => {
                machine = machine.report(Err(Error::ProcessFailed { code: 9 }))
            }
            PointAction::RunTeardown => {
                teardowns += 1;
                machine = machine.report(Ok(()));
            }
            PointAction::Finish(r) => break r,
        }
    };
    assert_eq!(teardowns, 1);
    assert_eq!(
        result,
        Err(StageFailure { stage: Stage::Measure, error: Error::ProcessFailed { code: 9 } })
    );
}

#[test]
fn teardown_runs_once_when_everything_succeeds() {
    let mut teardowns = 0;
    let mut measured = 0;
    let mut machine = PointRun::start(true);
    let result = loop {
        match machine.action() {
            PointAction::RunSetup | PointAction::RunPrep => machine = machine.report(Ok(())),
            PointAction::RunMeasure => {
                measured += 1;
                machine = machine.report(Ok(()));
            }
            PointAction::RunTeardown => {
                teardowns += 1;
                machine = machine.report(Ok(()));
            }
            PointAction::Finish(r) => break r,
        }
    };
    assert_eq!((measured, teardowns), (1, 1));
    assert_eq!(result, Ok(()));
}

#[test]
fn setup_failure_aborts_without_teardown() {
    let mut machine = PointRun::start(false);
    assert!(matches!(machine.action(), PointAction::RunSetup));
    machine = machine.report(Err(Error::IoFailed));
    match machine.action() {
        PointAction::Finish(r) => {
            assert_eq!(r, Err(StageFailure { stage: Stage::Setup, error: Error::IoFailed }))
        }
        _ => panic!("a failed setup must abort the point at once"),
    }
}

#[test]
fn prep_failure_still_tears_down() {
    let mut teardowns = 0;
    let mut machine = PointRun::start(true);
    let result = loop {
        match machine.action() {
            PointAction::RunSetup => machine = machine.report(Ok(())),
            PointAction::RunPrep => machine = machine.report(Err(Error::ProcessFailed { code: 3 })),
            PointAction::RunMeasure => panic!("a failed preparation must skip measurement"),
            PointAction::RunTeardown => {
                teardowns += 1;
                machine = machine.report(Ok(()));
            }
            PointAction::Finish(r) => break r,
        }
    };
    assert_eq!(teardowns, 1);
    assert_eq!(
        result,
        Err(StageFailure { stage: Stage::Prep, error: Error::ProcessFailed { code: 3 } })
    );
}

#[test]
fn teardown_failure_is_surfaced_when_alone() {
    let mut machine = PointRun::start(false);
    machine = machine.report(Ok(()));
    machine = machine.report(Ok(()));
    assert!(matches!(machine.action(), PointAction::RunTeardown));
    machine = machine.report(Err(Error::IoFailed));
    match machine.action() {
        PointAction::Finish(r) => {
            assert_eq!(r, Err(StageFailure { stage: Stage::Teardown, error: Error::IoFailed }))
        }
        _ => panic!("teardown's outcome must finish the point"),
    }
}

#[test]
fn totals() {
    assert_eq!(total_configs(30, 16), Some(480));
    assert_eq!(total_configs(0, 16), Some(0));
    assert_eq!(total_configs(2, 0), Some(0));
    assert_eq!(total_configs(u32::MAX, usize::MAX), None);
}
