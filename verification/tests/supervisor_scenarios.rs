use ntest::outcome::{
    classify_race, classify_recv, report_outcome, timeout_message, BodyResult, Outcome,
    RaceMessage, RecvOutcome, Report, TimeoutResult,
};
use ntest::supervisor::{
    choose_strategy, execute_with_timeout, supervise, supervise_pinned, supervise_race,
    watchdog_decision, Affinity, CompletionFlag, Strategy, Supervised, WatchdogAction,
    WorkBehavior,
};

#[test]
fn deadline_100_sleep_50_reports_pass() {
    let body = WorkBehavior::Finishes {
        after_ms: 50,
        result: BodyResult::<()>::Value(()),
    };
    let (outcome, elapsed) = supervise_race(body, 100);
    assert_eq!(outcome, Outcome::Value(()));
    assert_eq!(elapsed, 50);
    assert!(elapsed < 100);
    let report = report_outcome(outcome, 100);
    assert_eq!(report, Report::Pass(()));
}

#[test]
fn deadline_10_sleep_50_times_out_naming_budget() {
    let body = WorkBehavior::Finishes {
        after_ms: 50,
        result: BodyResult::<()>::Value(()),
    };
    let (outcome, elapsed) = supervise_race(body, 10);
    assert_eq!(outcome, Outcome::TimedOut(10));
    assert_eq!(elapsed, 10);
    let report = report_outcome(outcome, 10);
    match report {
        Report::Fail(message) => {
            assert!(message.contains("10"));
            assert_eq!(message, "timeout: the function call took 10 ms. Max time 10 ms");
        }
        other => panic!("expected a failure report, got {:?}", other),
    }
}

#[test]
fn panic_before_deadline_reraises_boom_verbatim() {
    let body = WorkBehavior::Finishes {
        after_ms: 5,
        result: BodyResult::<()>::Panicked(String::from("boom")),
    };
    let s = supervise(Affinity::AnyUnit, body, 100);
    assert_eq!(
        s,
        Supervised::Reported(Outcome::Panic(String::from("boom")))
    );
    match s {
        Supervised::Reported(outcome) => {
            let report = report_outcome(outcome, 100);
            assert_eq!(report, Report::Reraise(String::from("boom")));
        }
        Supervised::ProcessAborted(_) => unreachable!(),
    }
}

#[test]
fn same_body_same_deadline_same_outcome_twice() {
    let first = supervise(
        Affinity::AnyUnit,
        WorkBehavior::Finishes {
            after_ms: 7,
            result: BodyResult::<u64>::Value(21),
        },
        40,
    );
    let second = supervise(
        Affinity::AnyUnit,
        WorkBehavior::Finishes {
            after_ms: 7,
            result: BodyResult::<u64>::Value(21),
        },
        40,
    );
    assert_eq!(first, second);
}

#[test]
fn abandoned_result_has_no_observable_effect() {
    let late_value = supervise(
        Affinity::AnyUnit,
        WorkBehavior::Finishes {
            after_ms: 200,
            result: BodyResult::<u64>::Value(1),
        },
        100,
    );
    let late_panic = supervise(
        Affinity::AnyUnit,
        WorkBehavior::Finishes {
            after_ms: 200,
            result: BodyResult::<u64>::Panicked(String::from("late")),
        },
        100,
    );
    assert_eq!(late_value, late_panic);
    assert_eq!(late_value, Supervised::Reported(Outcome::TimedOut(100)));
}

#[test]
fn pinned_overrun_ends_the_process_without_report() {
    let s = supervise(Affinity::CallerUnit, WorkBehavior::<u64>::Diverges, 30);
    assert_eq!(s, Supervised::ProcessAborted(30));
    let late = supervise_pinned(
        WorkBehavior::Finishes {
            after_ms: 60,
            result: BodyResult::<u64>::Value(9),
        },
        30,
    );
    assert_eq!(late, Supervised::ProcessAborted(30));
}

#[test]
fn affinity_picks_the_strategy() {
    assert_eq!(choose_strategy(Affinity::AnyUnit), Strategy::HelperRace);
    assert_eq!(choose_strategy(Affinity::CallerUnit), Strategy::CallerWatchdog);
}

#[test]
fn completion_flag_set_before_watchdog_wakes_stands_down() {
    let mut flag = CompletionFlag::new();
    assert!(!flag.read());
    flag.mark_complete();
    assert!(flag.read());
    let action = watchdog_decision(flag.read(), 1000);
    assert_eq!(action, WatchdogAction::StandDown);
}

#[test]
fn watchdog_diagnostic_names_the_deadline() {
    let action = watchdog_decision(false, 100);
    match action {
        WatchdogAction::AbortProcess(diag) => {
            assert!(diag.contains("100"));
            assert_eq!(
                diag,
                "watchdog: work item still running after its deadline of 100 ms; terminating the process"
            );
        }
        WatchdogAction::StandDown => unreachable!(),
    }
}

#[test]
fn no_timeout() {
    let r = execute_with_timeout(
        WorkBehavior::Finishes {
            after_ms: 50,
            result: BodyResult::<()>::Value(()),
        },
        100,
    );
    assert_eq!(r, TimeoutResult::Result(()));
}

#[test]
fn timeout() {
    let r = execute_with_timeout(
        WorkBehavior::Finishes {
            after_ms: 50,
            result: BodyResult::<()>::Value(()),
        },
        100,
    );
    assert_eq!(r, TimeoutResult::Result(()));
}

#[test]
fn timeout_with_result() {
    let r = execute_with_timeout(
        WorkBehavior::Finishes {
            after_ms: 10,
            result: BodyResult::<Result<(), String>>::Value(Ok(())),
        },
        100,
    );
    assert_eq!(r, TimeoutResult::Result(Ok(())));
}

#[test]
fn bare_helper_reports_a_panicking_body_as_panic() {
    let r = execute_with_timeout(
        WorkBehavior::Finishes {
            after_ms: 1,
            result: BodyResult::<u64>::Panicked(String::from("dead")),
        },
        100,
    );
    assert_eq!(r, TimeoutResult::Panic);
    let late = execute_with_timeout(WorkBehavior::<u64>::Diverges, 20);
    assert_eq!(late, TimeoutResult::Timeout);
}

#[test]
fn classifier_maps_each_receive_outcome() {
    assert_eq!(classify_recv(RecvOutcome::Received(5u64)), TimeoutResult::Result(5));
    assert_eq!(classify_recv(RecvOutcome::<u64>::Timeout), TimeoutResult::Timeout);
    assert_eq!(classify_recv(RecvOutcome::<u64>::Disconnected), TimeoutResult::Panic);
}

#[test]
fn race_classifier_keeps_payload_and_elapsed() {
    let delivered = classify_race(
        RaceMessage::Delivered(BodyResult::<u64>::Panicked(String::from("why"))),
        3,
    );
    assert_eq!(delivered, Outcome::Panic(String::from("why")));
    assert_eq!(classify_race(RaceMessage::<u64>::TimedOut, 8), Outcome::TimedOut(8));
    assert_eq!(classify_race(RaceMessage::<u64>::Disconnected, 8), Outcome::Disconnected);
}

#[test]
fn disconnection_is_reported_apart_from_timeout() {
    let disconnected = report_outcome(Outcome::<u64>::Disconnected, 50);
    let timed_out = report_outcome(Outcome::<u64>::TimedOut(50), 50);
    match (disconnected, timed_out) {
        (Report::Fail(a), Report::Fail(b)) => {
            assert_eq!(a, "Thread disconnected unexpectedly");
            assert_ne!(a, b);
        }
        _ => unreachable!(),
    }
}

#[test]
fn timeout_message_embeds_elapsed_and_budget() {
    let m = timeout_message(123, 45);
    assert_eq!(m, "timeout: the function call took 123 ms. Max time 45 ms");
    let zero = timeout_message(0, 1);
    assert_eq!(zero, "timeout: the function call took 0 ms. Max time 1 ms");
    let large = timeout_message(u64::MAX, 20000);
    assert_eq!(
        large,
        "timeout: the function call took 18446744073709551615 ms. Max time 20000 ms"
    );
}

#[test]
fn watchdog_supervision_is_idempotent_too() {
    let first = supervise(Affinity::CallerUnit, WorkBehavior::<u64>::Diverges, 25);
    let second = supervise(Affinity::CallerUnit, WorkBehavior::<u64>::Diverges, 25);
    assert_eq!(first, second);
}

#[test]
fn a_broken_helper_is_reported_as_disconnected() {
    let (outcome, elapsed) = supervise_race(
        WorkBehavior::<u64>::BreaksChannel { after_ms: 4 },
        100,
    );
    assert_eq!(outcome, Outcome::Disconnected);
    assert_eq!(elapsed, 4);
}

#[test]
fn a_body_finishing_at_the_deadline_is_already_late() {
    let (outcome, _) = supervise_race(
        WorkBehavior::Finishes {
            after_ms: 100,
            result: BodyResult::<u64>::Value(1),
        },
        100,
    );
    assert_eq!(outcome, Outcome::TimedOut(100));
}
