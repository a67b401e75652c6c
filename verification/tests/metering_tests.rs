use tana_runtime::runtime::{EngineOutcome, RuntimeError, TanaRuntime};

// What the metered runner script does in the engine for a script body
// that evaluates without a throw: both phase costs are charged.
fn run_clean_phases(rt: &mut TanaRuntime) {
    rt.track_gas(500);
    rt.track_gas(1000);
}

#[test]
fn metered_noop_costs_exactly_the_three_constants() {
    let mut rt = TanaRuntime::new();
    let _script = rt.execute_with_validity(";");
    run_clean_phases(&mut rt);
    let payload = rt.execute_with_validity_report(&EngineOutcome::Completed).unwrap();
    assert_eq!(
        payload,
        "{\"success\":true,\"gas_used\":2500,\"output\":\"\",\"error\":null}"
    );
}

#[test]
fn metered_script_charges_phases_and_catches_errors() {
    let mut rt = TanaRuntime::new();
    let script = rt.execute_with_validity("1 + 1");
    assert!(script.starts_with("let src = \"1 + 1\";"));
    assert!(script.contains("trackGas(500);"));
    assert!(script.contains("trackGas(1000);"));
    assert!(script.contains("catch (error)"));
    assert!(script.contains("markFailure();"));
    assert!(script.contains("op_print_stderr(\"Execution error: \" + error.message);"));
}

#[test]
fn throw_during_evaluation_is_reported_as_data() {
    let mut rt = TanaRuntime::new();
    let _script = rt.execute_with_validity("undefined_name");
    // The transpile phase completed, the evaluation threw before any
    // output: the boundary marks failure and forwards the message.
    rt.track_gas(500);
    rt.track_gas(1000);
    rt.mark_failure();
    rt.print_stderr(String::from("Execution error: undefined_name is not defined"));
    let payload = rt.execute_with_validity_report(&EngineOutcome::Completed).unwrap();
    assert_eq!(
        payload,
        "{\"success\":false,\"gas_used\":2500,\"output\":\"\",\"error\":\"Execution error: undefined_name is not defined\"}"
    );
}

#[test]
fn throw_during_transpile_still_charges_base_and_transpile() {
    let mut rt = TanaRuntime::new();
    let _script = rt.execute_with_validity("const const");
    rt.track_gas(500);
    rt.mark_failure();
    rt.print_stderr(String::from("Execution error: unexpected token"));
    let payload = rt.execute_with_validity_report(&EngineOutcome::Completed).unwrap();
    assert!(payload.contains("\"success\":false"));
    assert!(payload.contains("\"gas_used\":1500"));
    assert!(payload.contains("Execution error: unexpected token"));
}

#[test]
fn gas_resets_to_base_on_every_metered_call() {
    let mut rt = TanaRuntime::new();

    let _script = rt.execute_with_validity("a()");
    run_clean_phases(&mut rt);
    let first = rt.execute_with_validity_report(&EngineOutcome::Completed).unwrap();
    assert!(first.contains("\"gas_used\":2500"));

    let _script = rt.execute_with_validity("b()");
    assert_eq!(rt.accounting.gas, 1000);
    run_clean_phases(&mut rt);
    let second = rt.execute_with_validity_report(&EngineOutcome::Completed).unwrap();
    assert!(second.contains("\"gas_used\":2500"));
}

#[test]
fn gas_saturates_instead_of_wrapping() {
    let mut rt = TanaRuntime::new();
    let _script = rt.execute_with_validity("x");
    rt.track_gas(u64::MAX);
    assert_eq!(rt.accounting.gas, u64::MAX);
    rt.track_gas(12);
    assert_eq!(rt.accounting.gas, u64::MAX);
    let payload = rt.execute_with_validity_report(&EngineOutcome::Completed).unwrap();
    assert!(payload.contains("\"gas_used\":18446744073709551615"));
}

#[test]
fn mark_failure_is_idempotent() {
    let mut rt = TanaRuntime::new();
    let _script = rt.execute_with_validity("x");
    rt.mark_failure();
    rt.mark_failure();
    let payload = rt.execute_with_validity_report(&EngineOutcome::Completed).unwrap();
    assert!(payload.contains("\"success\":false"));
}

#[test]
fn engine_level_failure_propagates_instead_of_payload() {
    let mut rt = TanaRuntime::new();
    let _script = rt.execute_with_validity("x");
    let r = rt.execute_with_validity_report(&EngineOutcome::Failed(String::from("engine gone")));
    assert!(matches!(r, Err(RuntimeError::ExecutionFailed(_))));
    assert_eq!(r.unwrap_err().message(), "Execution error: engine gone");
    assert!(!rt.accounting.success);
}

#[test]
fn payload_escapes_output_text() {
    let mut rt = TanaRuntime::new();
    let _script = rt.execute_with_validity("log('line\"1')");
    run_clean_phases(&mut rt);
    rt.print_stdout(String::from("line\"1\n"));
    let payload = rt.execute_with_validity_report(&EngineOutcome::Completed).unwrap();
    assert!(payload.contains("\"output\":\"line\\\"1\\n\""));
}

#[test]
fn payload_escapes_control_characters() {
    let mut rt = TanaRuntime::new();
    let _script = rt.execute_with_validity("x");
    run_clean_phases(&mut rt);
    rt.print_stdout(String::from("\u{1}\t\\"));
    let payload = rt.execute_with_validity_report(&EngineOutcome::Completed).unwrap();
    assert!(payload.contains("\"output\":\"\\u0001\\t\\\\\""));
}

#[test]
fn metered_script_embeds_escaped_rewritten_source() {
    let mut rt = TanaRuntime::new();
    let script = rt.execute_with_validity("import { log } from 'ns/core';\nlog(\"hi\")");
    assert!(script.starts_with(
        "let src = \"const {log} = __nsImport('ns/core');\\nlog(\\\"hi\\\")\";"
    ));
}
