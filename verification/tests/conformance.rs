use hisi_rf_rtos_driver::conformance::{
    run_suite, Action, ActionOutcome, ActorId, ActorState, Backend, ExpectedObservation,
    Failure, FailureKind, Observation, Report, ScenarioId, ScenarioResult, Step, Wait,
    SCHEMA_VERSION, V1_SCENARIOS,
};
use hisi_rf_rtos_driver::{Error, RuntimeContract, RuntimeExecutionProfile};

/// Every action a test backend was given, with its answer.
type History = Vec<(Action, Result<Observation, Error>)>;

struct StaticBackend {
    history: History,
}

impl Backend for StaticBackend {
    fn history(&self) -> History {
        self.history.clone()
    }

    fn spec_contract(&self) -> RuntimeContract {
        self.contract()
    }

    fn spec_execution_profile(&self) -> RuntimeExecutionProfile {
        self.execution_profile()
    }

    fn spec_revision(&self) -> &'static str {
        self.revision()
    }

    fn contract(&self) -> RuntimeContract {
        RuntimeContract::V1()
    }

    fn execution_profile(&self) -> RuntimeExecutionProfile {
        RuntimeExecutionProfile::V1_PORTED()
    }

    fn revision(&self) -> &'static str {
        "test\"backend"
    }

    fn apply(&mut self, action: Action) -> Result<Observation, Error> {
        let answer = Ok(Observation {
            running: ActorId::MAIN(),
            subject: None,
            outcome: ActionOutcome::Completed,
            scheduler_lock_depth: 0,
            interrupt_depth: 0,
        });
        self.history.push((action, answer));
        answer
    }
}

#[test]
fn selected_observation_fields_are_matched() {
    let expected = ExpectedObservation {
        running: Some(ActorId::MAIN()),
        subject: None,
        outcome: Some(ActionOutcome::Completed),
        scheduler_lock_depth: None,
        interrupt_depth: None,
    };
    assert!(expected.matches(Observation {
        running: ActorId::MAIN(),
        subject: Some((ActorId::WORKER_A(), ActorState::Ready)),
        outcome: ActionOutcome::Completed,
        scheduler_lock_depth: 7,
        interrupt_depth: 3,
    }));
}

#[test]
fn report_is_json_and_mismatch_fails_closed() {
    let mut backend = StaticBackend { history: Vec::new() };
    let report = run_suite(&mut backend, &V1_SCENARIOS());
    assert!(!report.all_passed());
    assert_eq!(report.results[0].failure.unwrap().step, 1);

    let mut json = std::string::String::new();
    report.write_json(&mut json).unwrap();
    assert!(json.contains("\"backend_revision\":\"test\\\"backend\""));
    assert!(json.contains("\"execution_profile\":{\"revision\":1,\"modes\":14}"));
    assert!(json.contains("\"status\":\"failed\""));
}

/// Replays a fixed list of answers, then errors.
struct ScriptedBackend {
    answers: Vec<Result<Observation, Error>>,
    next: usize,
    history: History,
}

impl Backend for ScriptedBackend {
    fn history(&self) -> History {
        self.history.clone()
    }

    fn spec_contract(&self) -> RuntimeContract {
        self.contract()
    }

    fn spec_execution_profile(&self) -> RuntimeExecutionProfile {
        self.execution_profile()
    }

    fn spec_revision(&self) -> &'static str {
        self.revision()
    }

    fn contract(&self) -> RuntimeContract {
        RuntimeContract::V1_4()
    }

    fn execution_profile(&self) -> RuntimeExecutionProfile {
        RuntimeExecutionProfile::V1_PORTLESS_COOPERATIVE()
    }

    fn revision(&self) -> &'static str {
        "line\nbreak\u{1}"
    }

    fn apply(&mut self, action: Action) -> Result<Observation, Error> {
        let answer = self.answers.get(self.next).copied().unwrap_or(Err(Error::Runtime));
        self.next += 1;
        self.history.push((action, answer));
        answer
    }
}

fn observation(outcome: ActionOutcome) -> Observation {
    Observation {
        running: ActorId::MAIN(),
        subject: None,
        outcome,
        scheduler_lock_depth: 0,
        interrupt_depth: 0,
    }
}

fn scenario(id: ScenarioId, steps: Vec<Step>) -> hisi_rf_rtos_driver::conformance::Scenario {
    hisi_rf_rtos_driver::conformance::Scenario { id, steps }
}

fn expect_outcome(outcome: ActionOutcome) -> ExpectedObservation {
    ExpectedObservation {
        outcome: Some(outcome),
        ..ExpectedObservation::ANY()
    }
}

#[test]
fn scenario_passes_and_backend_errors_are_reported_at_their_step() {
    let steps = vec![
        Step {
            action: Action::Yield,
            expected: expect_outcome(ActionOutcome::Completed),
        },
        Step {
            action: Action::SemaphoreWait {
                timeout: Wait::Milliseconds(5),
            },
            expected: ExpectedObservation::ANY(),
        },
    ];
    let suite = [
        scenario(ScenarioId::ZeroDelayYields, steps.clone()),
        scenario(ScenarioId::WaitForever, steps),
    ];
    let mut backend = ScriptedBackend {
        answers: vec![
            Ok(observation(ActionOutcome::Completed)),
            Ok(observation(ActionOutcome::TimedOut)),
            Ok(observation(ActionOutcome::Completed)),
            Err(Error::InvalidHandle),
        ],
        next: 0,
        history: Vec::new(),
    };
    let report: Report<2> = run_suite(&mut backend, &suite);
    assert_eq!(report.schema_version, SCHEMA_VERSION);
    assert_eq!(report.contract, RuntimeContract::V1_4());
    assert_eq!(report.results[0], ScenarioResult { id: ScenarioId::ZeroDelayYields, failure: None });
    assert_eq!(
        report.results[1],
        ScenarioResult {
            id: ScenarioId::WaitForever,
            failure: Some(Failure { step: 1, kind: FailureKind::Backend(Error::InvalidHandle) }),
        }
    );
    assert!(!report.all_passed());

    let mut json = String::from("prefix:");
    report.write_json(&mut json).unwrap();
    assert_eq!(
        json,
        "prefix:{\"schema_version\":6,\"contract\":{\"major\":1,\"minor\":4,\"capabilities\":1023},\
         \"execution_profile\":{\"revision\":1,\"modes\":1},\"backend_revision\":\"line\\nbreak\\u0001\",\
         \"scenarios\":[{\"id\":\"zero_delay_yields\",\"status\":\"passed\"},\
         {\"id\":\"wait_forever\",\"status\":\"failed\",\"step\":1,\"kind\":\"backend\"}]}"
    );
}

#[test]
fn passing_suite_reports_all_passed() {
    let suite = [scenario(
        ScenarioId::PriorityThenFifo,
        vec![Step {
            action: Action::Yield,
            expected: ExpectedObservation::ANY(),
        }],
    )];
    let mut backend = StaticBackend { history: Vec::new() };
    let report = run_suite(&mut backend, &suite);
    assert!(report.all_passed());
    let empty: [hisi_rf_rtos_driver::conformance::Scenario; 0] = [];
    assert!(run_suite(&mut backend, &empty).all_passed());
}

#[test]
fn step_verdicts_fail_closed() {
    let step = Step {
        action: Action::Yield,
        expected: ExpectedObservation {
            running: Some(ActorId::WORKER_B()),
            ..ExpectedObservation::ANY()
        },
    };
    assert_eq!(
        step.evaluate(4, Ok(observation(ActionOutcome::Completed))),
        Some(Failure { step: 4, kind: FailureKind::UnexpectedObservation })
    );
    assert_eq!(
        step.evaluate(9, Err(Error::TimedOut)),
        Some(Failure { step: 9, kind: FailureKind::Backend(Error::TimedOut) })
    );
    let mut running_b = observation(ActionOutcome::Spawned);
    running_b.running = ActorId::WORKER_B();
    assert_eq!(step.evaluate(0, Ok(running_b)), None);
}

#[test]
fn expectations_match_only_asserted_fields() {
    let observed = Observation {
        running: ActorId::WORKER_A(),
        subject: Some((ActorId::MAIN(), ActorState::Blocked)),
        outcome: ActionOutcome::Rejected(Error::InvalidContext),
        scheduler_lock_depth: 2,
        interrupt_depth: 1,
    };
    assert!(ExpectedObservation::ANY().matches(observed));
    let exact = ExpectedObservation {
        running: Some(observed.running),
        subject: observed.subject,
        outcome: Some(observed.outcome),
        scheduler_lock_depth: Some(2),
        interrupt_depth: Some(1),
    };
    assert!(exact.matches(observed));
    assert!(!ExpectedObservation { interrupt_depth: Some(0), ..exact }.matches(observed));
    assert!(!ExpectedObservation {
        subject: Some((ActorId::MAIN(), ActorState::Ready)),
        ..exact
    }
    .matches(observed));
    assert!(!ExpectedObservation {
        outcome: Some(ActionOutcome::Rejected(Error::InvalidHandle)),
        ..exact
    }
    .matches(observed));
}

#[test]
fn v1_suite_has_stable_names_in_order() {
    let suite = V1_SCENARIOS();
    let names: Vec<&str> = suite.iter().map(|s| s.id.as_str()).collect();
    assert_eq!(names.len(), 22);
    assert_eq!(names[0], "priority_then_fifo");
    assert_eq!(names[21], "mutex_cancel_after_grant");
    for (i, a) in names.iter().enumerate() {
        for b in names.iter().skip(i + 1) {
            assert_ne!(a, b);
        }
    }
    assert!(suite.iter().all(|s| !s.steps.is_empty()));
    assert_eq!(ActorId::WORKER_B().into_raw(), 2);
}

#[test]
fn suite_runs_each_scenario_once_in_order_and_stops_at_the_first_failure() {
    let first = scenario(
        ScenarioId::TaskExitAndReuse,
        vec![
            Step {
                action: Action::Yield,
                expected: expect_outcome(ActionOutcome::Completed),
            },
            Step {
                action: Action::SemaphorePost,
                expected: expect_outcome(ActionOutcome::Granted),
            },
            Step {
                action: Action::ExitTask,
                expected: ExpectedObservation::ANY(),
            },
        ],
    );
    let second = scenario(
        ScenarioId::NestedSchedulerLock,
        vec![
            Step {
                action: Action::LockScheduler,
                expected: ExpectedObservation::ANY(),
            },
            Step {
                action: Action::UnlockScheduler,
                expected: ExpectedObservation::ANY(),
            },
        ],
    );
    let mut backend = ScriptedBackend {
        answers: vec![
            Ok(observation(ActionOutcome::Completed)),
            Ok(observation(ActionOutcome::Completed)),
            Ok(observation(ActionOutcome::Spawned)),
            Ok(observation(ActionOutcome::Completed)),
        ],
        next: 0,
        history: Vec::new(),
    };
    let report = run_suite(&mut backend, &[first, second]);
    assert_eq!(
        report.results[0],
        ScenarioResult {
            id: ScenarioId::TaskExitAndReuse,
            failure: Some(Failure { step: 1, kind: FailureKind::UnexpectedObservation }),
        }
    );
    assert_eq!(
        report.results[1],
        ScenarioResult { id: ScenarioId::NestedSchedulerLock, failure: None }
    );
    let actions: Vec<Action> = backend.history.iter().map(|exchange| exchange.0).collect();
    assert_eq!(
        actions,
        vec![Action::Yield, Action::SemaphorePost, Action::LockScheduler, Action::UnlockScheduler]
    );
    assert_eq!(backend.history[2].1, Ok(observation(ActionOutcome::Spawned)));
    assert_eq!(report.contract, RuntimeContract::V1_4());
    assert_eq!(report.backend_revision, "line\nbreak\u{1}");
}
