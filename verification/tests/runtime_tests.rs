use tana_runtime::runtime::{
    is_registered_namespace, unknown_module_message, EngineOutcome, RuntimeError, TanaRuntime,
};

#[test]
fn new_instance_state() {
    let rt = TanaRuntime::new();
    assert!(!rt.typescript_loaded);
    assert_eq!(rt.accounting.gas, 0);
    assert!(rt.accounting.success);
    assert!(rt.accounting.output.is_empty());
    assert!(rt.accounting.errors.is_empty());
}

#[test]
fn bootstrap_before_load_fails_without_touching_accounting() {
    let mut rt = TanaRuntime::new();
    rt.print_stdout(String::from("left over"));
    rt.track_gas(7);
    let r = rt.bootstrap("0.1.0", "0.2.0", "0.3.0");
    assert!(matches!(r, Err(RuntimeError::CompilerNotLoaded)));
    let msg = r.unwrap_err().message();
    assert_eq!(msg, "TypeScript compiler not loaded. Call load_typescript() first.");
    assert_eq!(rt.accounting.gas, 7);
    assert_eq!(rt.accounting.output.len(), 1);
    assert!(rt.accounting.success);
}

#[test]
fn load_then_bootstrap_succeeds() {
    let mut rt = TanaRuntime::new();
    assert!(rt.load_typescript(&EngineOutcome::Completed).is_ok());
    assert!(rt.typescript_loaded);
    let script = rt.bootstrap("1.2.3", "0.412.0", "13.5").unwrap();
    assert!(script.contains("globalThis.__nsCore = globalThis.Deno?.core;"));
    assert!(script.contains("delete globalThis.Deno;"));
    assert!(script.contains("nsModules[\"ns/core\"]"));
    assert!(script.contains("runtime: \"1.2.3\""));
    assert!(script.contains("engine: \"0.412.0\""));
    assert!(script.contains("platform: \"13.5\""));
    assert!(script.contains("globalThis.__nsImport = function (name)"));
    assert!(script.contains("unknown module: "));
}

#[test]
fn load_failure_reports_and_leaves_state() {
    let mut rt = TanaRuntime::new();
    let r = rt.load_typescript(&EngineOutcome::Failed(String::from("boom")));
    assert!(matches!(r, Err(RuntimeError::LoadFailed(_))));
    assert_eq!(r.unwrap_err().message(), "Failed to load TypeScript: boom");
    assert!(!rt.typescript_loaded);
    assert!(matches!(
        rt.bootstrap("a", "b", "c"),
        Err(RuntimeError::CompilerNotLoaded)
    ));
}

#[test]
fn bootstrap_outcome_maps_engine_result() {
    assert!(TanaRuntime::bootstrap_outcome(&EngineOutcome::Completed).is_ok());
    let r = TanaRuntime::bootstrap_outcome(&EngineOutcome::Failed(String::from("no heap")));
    assert!(matches!(r, Err(RuntimeError::BootstrapFailed(_))));
    assert_eq!(r.unwrap_err().message(), "Bootstrap failed: no heap");
}

#[test]
fn execute_report_is_concatenated_stdout_without_markers() {
    let mut rt = TanaRuntime::new();
    let _script = rt.execute("f()\ng()");
    rt.print_stdout(String::from("a\n"));
    rt.print_stdout(String::from("b\n"));
    let report = rt.execute_report(&EngineOutcome::Completed).unwrap();
    assert_eq!(report, "a\nb\n");
    assert!(!report.contains("STDOUT"));
    assert!(!report.contains("STDERR"));
}

#[test]
fn execute_report_with_stderr_has_labeled_sections() {
    let mut rt = TanaRuntime::new();
    let _script = rt.execute("f()");
    rt.print_stdout(String::from("out\n"));
    rt.print_stderr(String::from("err\n"));
    let report = rt.execute_report(&EngineOutcome::Completed).unwrap();
    // The captured stdout text ends with its own line feed; the report
    // keeps it, so a blank line stands before the stderr section.
    assert_eq!(report, "STDOUT:\nout\n\n\nSTDERR:\nerr\n");
}

#[test]
fn execute_resets_captured_streams() {
    let mut rt = TanaRuntime::new();
    rt.print_stdout(String::from("stale"));
    rt.print_stderr(String::from("stale"));
    let _script = rt.execute("1");
    let report = rt.execute_report(&EngineOutcome::Completed).unwrap();
    assert_eq!(report, "");
}

#[test]
fn execute_failure_propagates_message() {
    let mut rt = TanaRuntime::new();
    let _script = rt.execute("syntax error here");
    let r = rt.execute_report(&EngineOutcome::Failed(String::from("SyntaxError: unexpected")));
    assert!(matches!(r, Err(RuntimeError::ExecutionFailed(_))));
    assert_eq!(r.unwrap_err().message(), "Execution error: SyntaxError: unexpected");
}

#[test]
fn runner_script_embeds_escaped_source() {
    let mut rt = TanaRuntime::new();
    let script = rt.execute("say(\"hi\")\nnext");
    assert!(script.starts_with("let src = \"say(\\\"hi\\\")\\nnext\";"));
    assert!(script.contains("ts.transpileModule(src"));
    assert!(script.contains("target: \"ES2020\""));
    assert!(script.contains("(0, eval)(out.outputText);"));
}

#[test]
fn runner_script_embeds_rewritten_import() {
    let mut rt = TanaRuntime::new();
    let script = rt.execute("import { log } from \"ns/core\";");
    assert!(script.starts_with("let src = \"const {log} = __nsImport('ns/core');\";"));
}

#[test]
fn registry_knows_only_the_core_namespace() {
    assert!(is_registered_namespace("ns/core"));
    assert!(!is_registered_namespace("ns/net"));
    assert!(!is_registered_namespace("ns/core "));
    assert!(!is_registered_namespace("NS/core"));
    assert!(!is_registered_namespace(""));
    assert_eq!(unknown_module_message("ns/net"), "unknown module: ns/net");
}

#[test]
fn core_log_joins_arguments_with_spaces() {
    let mut rt = TanaRuntime::new();
    let _script = rt.execute("log(\"a\", \"b\")");
    rt.core_log(&vec![String::from("a"), String::from("b")]);
    let report = rt.execute_report(&EngineOutcome::Completed).unwrap();
    assert_eq!(report, "a b\n");
}

#[test]
fn core_error_goes_to_stderr() {
    let mut rt = TanaRuntime::new();
    let _script = rt.execute("error(\"bad\")");
    rt.core_error(&vec![String::from("bad")]);
    let report = rt.execute_report(&EngineOutcome::Completed).unwrap();
    assert_eq!(report, "STDOUT:\n\n\nSTDERR:\nbad\n");
}
