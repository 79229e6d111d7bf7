use sol_trade_sdk::{
    PollStep, ResultCollector, SendError, Signature, SwqosType, TaskResult, TradeError,
    is_landed_error, task_result_after_send, task_result_for_build_failure,
};

fn sig(byte: u8) -> Signature {
    Signature { bytes: vec![byte; 64] }
}

fn success_result(byte: u8, swqos_type: SwqosType, t: i64) -> TaskResult {
    TaskResult {
        success: true,
        signature: sig(byte),
        error: None,
        swqos_type,
        landed_on_chain: true,
        submit_done_us: t,
    }
}

fn network_failure(byte: u8, swqos_type: SwqosType, msg: &str, t: i64) -> TaskResult {
    TaskResult {
        success: false,
        signature: sig(byte),
        error: Some(SendError::Other(msg.to_string())),
        swqos_type,
        landed_on_chain: false,
        submit_done_us: t,
    }
}

fn landed_failure(byte: u8, swqos_type: SwqosType, code: u32, msg: &str, t: i64) -> TaskResult {
    TaskResult {
        success: false,
        signature: sig(byte),
        error: Some(SendError::Trade(TradeError {
            code,
            message: msg.to_string(),
            instruction: Some(2),
        })),
        swqos_type,
        landed_on_chain: true,
        submit_done_us: t,
    }
}

// Fan-out completeness: one report per task, all of them observed.
#[test]
fn collector_sees_exactly_one_result_per_task() {
    let mut c = ResultCollector::new(3);
    assert_eq!(c.total_tasks(), 3);
    assert_eq!(c.completed_count(), 0);
    c.submit(success_result(1, SwqosType::Jito, 10));
    c.submit(network_failure(2, SwqosType::Helius, "connection reset", 20));
    c.submit(network_failure(3, SwqosType::Default, "connection reset", 30));
    assert_eq!(c.completed_count(), 3);
    assert!(c.all_completed());
    let outcome = c.get_first().unwrap();
    assert_eq!(outcome.signatures.len(), 3);
    assert_eq!(outcome.signatures[0], sig(1));
    assert_eq!(outcome.signatures[1], sig(2));
    assert_eq!(outcome.signatures[2], sig(3));
    assert_eq!(outcome.timings.len(), 3);
    assert_eq!(outcome.timings[0], (SwqosType::Jito, 10));
}

// First-success wins: the poll decides before the slower task reports.
#[test]
fn first_success_decides_without_waiting_for_others() {
    let mut c = ResultCollector::new(2);
    c.submit(success_result(7, SwqosType::Jito, 100));
    assert_eq!(c.completed_count(), 1);
    match c.wait_for_success_step() {
        PollStep::Decided(o) => {
            assert!(o.success);
            assert_eq!(o.signatures.len(), 1);
            assert_eq!(o.signatures[0], sig(7));
            assert!(o.error.is_none());
            assert_eq!(o.timings, vec![(SwqosType::Jito, 100)]);
        }
        other => panic!("expected a decision, got {:?}", other),
    }
}

// Scenario: channel A lands a slippage failure (code 6004) while channel B
// is still building; the call decides immediately with that error.
#[test]
fn landed_slippage_failure_short_circuits_the_race() {
    let mut c = ResultCollector::new(2);
    c.submit(landed_failure(9, SwqosType::Jito, 6004, "ExceededSlippage", 50_000));
    assert_eq!(c.completed_count(), 1);
    match c.wait_for_success_step() {
        PollStep::Decided(o) => {
            assert!(!o.success);
            assert_eq!(o.signatures.len(), 1);
            match o.error {
                Some(SendError::Trade(te)) => {
                    assert_eq!(te.code, 6004);
                    assert_eq!(te.message, "ExceededSlippage");
                }
                other => panic!("expected the landed trade error, got {:?}", other),
            }
        }
        other => panic!("expected a decision, got {:?}", other),
    }
}

// All-fail convergence: the decision comes when the count reaches the
// total, with the last error, not from any timeout.
#[test]
fn all_failed_decides_once_every_task_reported() {
    let mut c = ResultCollector::new(2);
    c.submit(network_failure(1, SwqosType::Jito, "first error", 10));
    assert!(matches!(c.wait_for_success_step(), PollStep::Pending));
    c.submit(network_failure(2, SwqosType::Helius, "second error", 20));
    match c.wait_for_success_step() {
        PollStep::Decided(o) => {
            assert!(!o.success);
            assert_eq!(o.signatures.len(), 2);
            match o.error {
                Some(SendError::Other(msg)) => assert_eq!(msg, "second error"),
                other => panic!("expected the last error, got {:?}", other),
            }
        }
        other => panic!("expected a decision, got {:?}", other),
    }
}

#[test]
fn empty_collector_poll_is_pending_and_get_first_is_none() {
    let mut c = ResultCollector::new(2);
    assert!(matches!(c.wait_for_success_step(), PollStep::Pending));
    assert!(c.get_first().is_none());
}

#[test]
fn exhausted_after_a_decision_drained_everything() {
    let mut c = ResultCollector::new(1);
    c.submit(success_result(5, SwqosType::Default, 1));
    assert!(matches!(c.wait_for_success_step(), PollStep::Decided(_)));
    // The queue is empty and every task has reported: nothing left.
    assert!(matches!(c.wait_for_success_step(), PollStep::Exhausted));
}

#[test]
fn build_failure_report_carries_the_zero_signature() {
    let r = task_result_for_build_failure(
        SendError::Other("Instructions empty".to_string()),
        SwqosType::Helius,
        123,
    );
    assert!(!r.success);
    assert!(!r.landed_on_chain);
    assert_eq!(r.signature.bytes, vec![0u8; 64]);
    assert_eq!(r.swqos_type, SwqosType::Helius);
    assert_eq!(r.submit_done_us, 123);
}

#[test]
fn send_report_classifies_success_and_failure() {
    let ok = task_result_after_send(Ok(()), sig(1), SwqosType::Jito, 5);
    assert!(ok.success);
    assert!(ok.landed_on_chain);
    assert!(ok.error.is_none());

    let slippage = SendError::Trade(TradeError {
        code: 6004,
        message: "ExceededSlippage".to_string(),
        instruction: None,
    });
    let err = task_result_after_send(Err(slippage), sig(2), SwqosType::Jito, 6);
    assert!(!err.success);
    assert!(err.landed_on_chain);

    let timeout = SendError::Other("request timed out".to_string());
    let err2 = task_result_after_send(Err(timeout), sig(3), SwqosType::Jito, 7);
    assert!(!err2.success);
    assert!(!err2.landed_on_chain);
}

#[test]
fn landed_classification_follows_code_and_timeout_text() {
    let slippage = SendError::Trade(TradeError {
        code: 6004,
        message: "ExceededSlippage".to_string(),
        instruction: None,
    });
    assert!(is_landed_error(&slippage));

    let timeout_coded = SendError::Trade(TradeError {
        code: 500,
        message: "Transaction abc's confirmation timed out".to_string(),
        instruction: None,
    });
    assert!(!is_landed_error(&timeout_coded));

    let coded_500_other = SendError::Trade(TradeError {
        code: 500,
        message: "internal server error".to_string(),
        instruction: None,
    });
    assert!(is_landed_error(&coded_500_other));

    let zero_code = SendError::Trade(TradeError {
        code: 0,
        message: "no code".to_string(),
        instruction: None,
    });
    assert!(!is_landed_error(&zero_code));

    let unstructured = SendError::Other("connection refused".to_string());
    assert!(!is_landed_error(&unstructured));
}

#[test]
fn to_trade_error_wraps_unstructured_errors_as_500() {
    let e = SendError::Other("boom".to_string());
    let te = e.to_trade_error();
    assert_eq!(te.code, 500);
    assert_eq!(te.message, "boom");
    assert!(te.instruction.is_none());

    let structured = SendError::Trade(TradeError {
        code: 6004,
        message: "ExceededSlippage".to_string(),
        instruction: Some(1),
    });
    let te2 = structured.to_trade_error();
    assert_eq!(te2.code, 6004);
    assert_eq!(te2.instruction, Some(1));
}
