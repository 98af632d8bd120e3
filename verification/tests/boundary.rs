use evalexpr_rhai::outcome::Outcome;
use evalexpr_rhai::pipeline::{compile, evaluate_adhoc, evaluate_compiled, release_program};

/// Unwrap a success payload, panicking with the failure message otherwise.
fn payload(outcome: Outcome<Option<String>>) -> Option<String> {
    match outcome {
        Outcome::Success(p) => p,
        Outcome::Failure(m) => panic!("expected success, got failure: {}", m),
    }
}

fn failure_message(outcome: Outcome<Option<String>>) -> String {
    match outcome {
        Outcome::Success(_) => panic!("expected failure, got success"),
        Outcome::Failure(m) => m,
    }
}

#[test]
fn compile_then_evaluate_simple_sum() {
    let program = match compile(b"1+1") {
        Outcome::Success(p) => p,
        Outcome::Failure(m) => panic!("compile failed: {}", m),
    };
    let result = payload(evaluate_compiled(Some(&program), b""));
    assert_eq!(result, Some(String::from("2")));
    release_program(Some(program));
}

#[test]
fn compile_then_evaluate_with_context() {
    let program = match compile(b"context.x + 1") {
        Outcome::Success(p) => p,
        Outcome::Failure(m) => panic!("compile failed: {}", m),
    };
    let result = payload(evaluate_compiled(Some(&program), b"{\"x\": 41}"));
    assert_eq!(result, Some(String::from("42")));
    release_program(Some(program));
}

#[test]
fn malformed_script_is_rejected_with_a_message() {
    match compile(b"1 +") {
        Outcome::Success(_) => panic!("a malformed script must not produce a handle"),
        Outcome::Failure(m) => assert!(!m.is_empty()),
    }
}

#[test]
fn malformed_context_is_a_recoverable_failure() {
    let program = match compile(b"1+1") {
        Outcome::Success(p) => p,
        Outcome::Failure(m) => panic!("compile failed: {}", m),
    };
    let message = failure_message(evaluate_compiled(Some(&program), b"{not json"));
    assert!(!message.is_empty());
    release_program(Some(program));
}

#[test]
fn context_that_is_not_utf8_is_a_recoverable_failure() {
    let program = match compile(b"1+1") {
        Outcome::Success(p) => p,
        Outcome::Failure(m) => panic!("compile failed: {}", m),
    };
    let message = failure_message(evaluate_compiled(Some(&program), &[0xff, 0xfe]));
    assert_eq!(message, "context is not valid UTF-8");
    release_program(Some(program));
}

#[test]
fn script_that_is_not_utf8_is_a_recoverable_failure() {
    match compile(&[0xff, 0x31]) {
        Outcome::Success(_) => panic!("non-UTF-8 script must not produce a handle"),
        Outcome::Failure(m) => assert_eq!(m, "script is not valid UTF-8"),
    }
    let message = failure_message(evaluate_adhoc(&[0xff, 0x31], b""));
    assert_eq!(message, "script is not valid UTF-8");
}

#[test]
fn releasing_the_null_handle_is_a_no_op() {
    release_program(None);
}

#[test]
fn releasing_a_live_handle_consumes_it() {
    let program = match compile(b"40 + 2") {
        Outcome::Success(p) => p,
        Outcome::Failure(m) => panic!("compile failed: {}", m),
    };
    release_program(Some(program));
}

#[test]
fn null_program_evaluates_to_the_empty_payload() {
    assert_eq!(payload(evaluate_compiled(None, b"")), None);
    assert_eq!(payload(evaluate_compiled(None, b"{\"x\": 1}")), None);
}

#[test]
fn empty_adhoc_script_is_a_successful_no_op() {
    assert_eq!(payload(evaluate_adhoc(b"", b"")), None);
    // Never an error, whatever the context holds.
    assert_eq!(payload(evaluate_adhoc(b"", b"{not json")), None);
}

#[test]
fn sequential_evaluations_do_not_leak_state() {
    let program = match compile(b"context.x + 1") {
        Outcome::Success(p) => p,
        Outcome::Failure(m) => panic!("compile failed: {}", m),
    };
    let first = payload(evaluate_compiled(Some(&program), b"{\"x\": 1}"));
    let second = payload(evaluate_compiled(Some(&program), b"{\"x\": 2}"));
    assert_eq!(first, Some(String::from("2")));
    assert_eq!(second, Some(String::from("3")));
    release_program(Some(program));
}

#[test]
fn adhoc_evaluation_with_and_without_context() {
    assert_eq!(payload(evaluate_adhoc(b"1+1", b"")), Some(String::from("2")));
    assert_eq!(
        payload(evaluate_adhoc(b"context.x * 2", b"{\"x\": 21}")),
        Some(String::from("42")),
    );
}

#[test]
fn adhoc_malformed_context_takes_precedence() {
    let message = failure_message(evaluate_adhoc(b"1+1", b"{not json"));
    assert!(!message.is_empty());
    // Even when the script itself is malformed, the context is decoded first.
    let message = failure_message(evaluate_adhoc(b"1 +", b"{not json"));
    assert!(!message.is_empty());
}

#[test]
fn adhoc_malformed_script_is_rejected() {
    let message = failure_message(evaluate_adhoc(b"1 +", b"{\"x\": 1}"));
    assert!(!message.is_empty());
}

#[test]
fn runtime_fault_is_reported_as_failure() {
    let program = match compile(b"undefined_variable + 1") {
        Outcome::Success(p) => p,
        Outcome::Failure(m) => panic!("compile failed: {}", m),
    };
    let message = failure_message(evaluate_compiled(Some(&program), b""));
    assert!(!message.is_empty());
    release_program(Some(program));
}

#[test]
fn outcome_reports_its_tag() {
    let success: Outcome<i64> = Outcome::Success(1);
    let failure: Outcome<i64> = Outcome::Failure(String::from("broken"));
    assert!(success.is_success());
    assert!(!failure.is_success());
}

#[test]
fn empty_script_still_compiles_to_a_program() {
    // Only the ad-hoc path treats an empty script as "nothing to do"; an
    // explicitly compiled empty script is a program whose result is null.
    let program = match compile(b"") {
        Outcome::Success(p) => p,
        Outcome::Failure(m) => panic!("compile failed: {}", m),
    };
    assert_eq!(payload(evaluate_compiled(Some(&program), b"")), Some(String::from("null")));
    release_program(Some(program));
}
