//! The runtime instance: the public call surface of the sandboxed
//! execution and metering protocol.
//!
//! An instance owns the per-call accounting state and remembers whether
//! the transpiler has been loaded. The script engine itself is an external
//! collaborator: each phase of the protocol is split into a verified step
//! that prepares the exact script text the engine must run and resets the
//! accounting, and a verified step that takes the engine's outcome and
//! either updates the state and assembles the result or reports the
//! failure. The host process hands the prepared script to its engine,
//! forwards the engine's op calls to the capability surface here, and
//! feeds the outcome back.

use vstd::prelude::*;

use crate::accounting::{
    initial_accounting, mark_failure_spec, metered_reset_spec, push_stderr_spec, push_stdout_spec,
    track_gas_spec, AccountingState, AccountingView,
};
use crate::json::{result_json, result_json_spec};
use crate::report::{build_report, join_entries, join_spaced, report_spec};
use crate::rewrite::{rewrite_imports, rewrite_source_spec};
use crate::scripts::{
    bootstrap_script, bootstrap_script_spec, metered_script, metered_script_spec, runner_script,
    runner_script_spec,
};
use crate::text::{concat_all, join_with};
use crate::{GAS_BASE, GAS_EVAL, GAS_TRANSPILE};

verus! {

/// What the engine reported back for one script it was handed: completion,
/// or rejection with a message.
pub enum EngineOutcome {
    Completed,
    Failed(String),
}

/// The errors a call can fail with: the bootstrap precondition, and the
/// three places where the engine itself can reject a script.
#[derive(Debug)]
pub enum RuntimeError {
    CompilerNotLoaded,
    LoadFailed(String),
    BootstrapFailed(String),
    ExecutionFailed(String),
}

impl RuntimeError {
    /// The message a caller sees for this error.
    pub open spec fn message_spec(&self) -> Seq<char> {
        match self {
            RuntimeError::CompilerNotLoaded => (
            "TypeScript compiler not loaded. Call load_typescript() first."
            )@,
            RuntimeError::LoadFailed(m) => "Failed to load TypeScript: "@ + m@,
            RuntimeError::BootstrapFailed(m) => "Bootstrap failed: "@ + m@,
            RuntimeError::ExecutionFailed(m) => "Execution error: "@ + m@,
        }
    }

    /// Render the message a caller sees for this error.
    pub fn message(&self) -> (r: String)
        ensures
            r@ == self.message_spec(),
    {
        match self {
            RuntimeError::CompilerNotLoaded => String::from_str(
                "TypeScript compiler not loaded. Call load_typescript() first.",
            ),
            RuntimeError::LoadFailed(m) => {
                let mut out = String::from_str("Failed to load TypeScript: ");
                out.append(m.as_str());
                out
            },
            RuntimeError::BootstrapFailed(m) => {
                let mut out = String::from_str("Bootstrap failed: ");
                out.append(m.as_str());
                out
            },
            RuntimeError::ExecutionFailed(m) => {
                let mut out = String::from_str("Execution error: ");
                out.append(m.as_str());
                out
            },
        }
    }
}

/// A runtime instance: the accounting state the capability ops write to,
/// and whether the transpiler has been loaded into the engine.
pub struct TanaRuntime {
    pub accounting: AccountingState,
    pub typescript_loaded: bool,
}

impl TanaRuntime {
    /// A fresh instance: nothing captured, compiler not loaded.
    pub fn new() -> (r: TanaRuntime)
        ensures
            r.accounting@ == initial_accounting(),
            !r.typescript_loaded,
    {
        TanaRuntime { accounting: AccountingState::new(), typescript_loaded: false }
    }

    /// Capability op: append one entry to the captured stdout sequence.
    pub fn print_stdout(&mut self, msg: String)
        ensures
            final(self).accounting@ == push_stdout_spec(old(self).accounting@, msg@),
            final(self).typescript_loaded == old(self).typescript_loaded,
    {
        self.accounting.print_stdout(msg);
    }

    /// Capability op: append one entry to the captured stderr sequence.
    pub fn print_stderr(&mut self, msg: String)
        ensures
            final(self).accounting@ == push_stderr_spec(old(self).accounting@, msg@),
            final(self).typescript_loaded == old(self).typescript_loaded,
    {
        self.accounting.print_stderr(msg);
    }

    /// Capability op: add to the gas counter, saturating on overflow.
    pub fn track_gas(&mut self, amount: u64)
        ensures
            final(self).accounting@ == track_gas_spec(old(self).accounting@, amount),
            final(self).typescript_loaded == old(self).typescript_loaded,
    {
        self.accounting.track_gas(amount);
    }

    /// Capability op: record that the current call failed. Idempotent.
    pub fn mark_failure(&mut self)
        ensures
            final(self).accounting@ == mark_failure_spec(old(self).accounting@),
            final(self).typescript_loaded == old(self).typescript_loaded,
    {
        self.accounting.mark_failure();
    }

    /// Record the engine's outcome for the transpiler source, which the
    /// host runs in the engine exactly as given. On completion the
    /// compiler counts as loaded; on rejection the state is unchanged and
    /// the load error carries the engine's message. The accounting state
    /// is never touched.
    pub fn load_typescript(&mut self, outcome: &EngineOutcome) -> (r: Result<(), RuntimeError>)
        ensures
            final(self).accounting == old(self).accounting,
            outcome is Completed ==> r is Ok && final(self).typescript_loaded,
            outcome matches EngineOutcome::Failed(m) ==> (r matches Err(
                RuntimeError::LoadFailed(e),
            ) && e@ == m@ && final(self).typescript_loaded == old(self).typescript_loaded),
    {
        match outcome {
            EngineOutcome::Completed => {
                self.typescript_loaded = true;
                Ok(())
            },
            EngineOutcome::Failed(m) => Err(RuntimeError::LoadFailed(m.clone())),
        }
    }

    /// The bootstrap step: refused with a precondition error while the
    /// compiler is not loaded, otherwise it yields exactly the bootstrap
    /// script the host must run in the engine. Nothing is mutated; in
    /// particular the accounting state is exactly as it was.
    pub fn bootstrap(
        &self,
        runtime_version: &str,
        engine_version: &str,
        platform_version: &str,
    ) -> (r: Result<String, RuntimeError>)
        ensures
            self.typescript_loaded ==> (r matches Ok(s) && s@ == bootstrap_script_spec(
                runtime_version@,
                engine_version@,
                platform_version@,
            )),
            !self.typescript_loaded ==> r matches Err(RuntimeError::CompilerNotLoaded),
    {
        if !self.typescript_loaded {
            Err(RuntimeError::CompilerNotLoaded)
        } else {
            Ok(bootstrap_script(runtime_version, engine_version, platform_version))
        }
    }

    /// Map the engine's outcome for the bootstrap script to the caller's
    /// result: completion is success, rejection carries the engine's
    /// message.
    pub fn bootstrap_outcome(outcome: &EngineOutcome) -> (r: Result<(), RuntimeError>)
        ensures
            outcome is Completed <==> r is Ok,
            outcome matches EngineOutcome::Failed(m) ==> (r matches Err(
                RuntimeError::BootstrapFailed(e),
            ) && e@ == m@),
    {
        match outcome {
            EngineOutcome::Completed => Ok(()),
            EngineOutcome::Failed(m) => Err(RuntimeError::BootstrapFailed(m.clone())),
        }
    }

    /// Begin an unmetered call: reset the captured streams (the gas
    /// counter and success flag are not part of this variant), rewrite the
    /// imports of the user source, and yield exactly the runner script the
    /// host must run in the engine.
    pub fn execute(&mut self, user_code: &str) -> (r: String)
        ensures
            final(self).typescript_loaded == old(self).typescript_loaded,
            final(self).accounting@ == (AccountingView {
                output: Seq::empty(),
                errors: Seq::empty(),
                ..old(self).accounting@
            }),
            r@ == runner_script_spec(rewrite_source_spec(user_code@)),
    {
        self.accounting.reset_streams();
        let rewritten = rewrite_imports(user_code);
        runner_script(rewritten.as_str())
    }

    /// Finish an unmetered call: on completion the combined text report
    /// over the captured streams, on rejection the execution error with
    /// the engine's message. In this variant errors thrown by the user
    /// code are not caught inside the sandbox, so they surface here as
    /// call failures.
    pub fn execute_report(&self, outcome: &EngineOutcome) -> (r: Result<String, RuntimeError>)
        ensures
            outcome is Completed ==> (r matches Ok(t) && t@ == report_spec(
                self.accounting@.output,
                self.accounting@.errors,
            )),
            outcome matches EngineOutcome::Failed(m) ==> (r matches Err(
                RuntimeError::ExecutionFailed(e),
            ) && e@ == m@),
    {
        match outcome {
            EngineOutcome::Completed => Ok(
                build_report(&self.accounting.output, &self.accounting.errors),
            ),
            EngineOutcome::Failed(m) => Err(RuntimeError::ExecutionFailed(m.clone())),
        }
    }

    /// Begin a metered call: reset the whole accounting state with the
    /// gas counter at the base cost — whatever any earlier call left
    /// behind — rewrite the imports of the user source, and yield exactly
    /// the metered runner script, which charges the transpile-phase and
    /// evaluation-phase costs through the gas op and catches errors inside
    /// the sandbox.
    pub fn execute_with_validity(&mut self, user_code: &str) -> (r: String)
        ensures
            final(self).typescript_loaded == old(self).typescript_loaded,
            final(self).accounting@ == metered_reset_spec(old(self).accounting@, GAS_BASE),
            final(self).accounting@.gas == GAS_BASE,
            r@ == metered_script_spec(rewrite_source_spec(user_code@), GAS_TRANSPILE, GAS_EVAL),
    {
        self.accounting.reset_metered(GAS_BASE);
        let rewritten = rewrite_imports(user_code);
        metered_script(rewritten.as_str(), GAS_TRANSPILE, GAS_EVAL)
    }

    /// Finish a metered call: on completion the execution result payload
    /// assembled from the accounting state as the ops left it; on an
    /// engine-level rejection — a failure the sandbox boundary could not
    /// catch — the success flag is cleared and the execution error is
    /// propagated to the caller instead of a payload.
    pub fn execute_with_validity_report(&mut self, outcome: &EngineOutcome) -> (r: Result<
        String,
        RuntimeError,
    >)
        ensures
            final(self).typescript_loaded == old(self).typescript_loaded,
            outcome is Completed ==> *final(self) == *old(self),
            outcome is Completed ==> (r matches Ok(t) && t@ == result_json_spec(
                old(self).accounting@.success,
                old(self).accounting@.gas,
                concat_all(old(self).accounting@.output),
                concat_all(old(self).accounting@.errors),
            )),
            outcome matches EngineOutcome::Failed(m) ==> (r matches Err(
                RuntimeError::ExecutionFailed(e),
            ) && e@ == m@ && final(self).accounting@ == mark_failure_spec(old(self).accounting@)),
    {
        match outcome {
            EngineOutcome::Completed => {
                let so = join_entries(&self.accounting.output);
                let se = join_entries(&self.accounting.errors);
                Ok(result_json(self.accounting.success, self.accounting.gas, so.as_str(), se.as_str()))
            },
            EngineOutcome::Failed(m) => {
                self.accounting.mark_failure();
                Err(RuntimeError::ExecutionFailed(m.clone()))
            },
        }
    }

    /// Host-side model of the core module's `log` export: the arguments
    /// joined with single spaces, a line feed appended, forwarded through
    /// the stdout op as one entry.
    pub fn core_log(&mut self, args: &Vec<String>)
        ensures
            final(self).typescript_loaded == old(self).typescript_loaded,
            final(self).accounting@ == push_stdout_spec(
                old(self).accounting@,
                join_with(args.deep_view(), seq![' ']) + seq!['\n'],
            ),
    {
        let mut msg = join_spaced(args);
        msg.append("\n");
        proof {
            reveal_strlit("\n");
            assert(msg@ =~= join_with(args.deep_view(), seq![' ']) + seq!['\n']);
        }
        self.accounting.print_stdout(msg);
    }

    /// Host-side model of the core module's `error` export: as `core_log`,
    /// but through the stderr op.
    pub fn core_error(&mut self, args: &Vec<String>)
        ensures
            final(self).typescript_loaded == old(self).typescript_loaded,
            final(self).accounting@ == push_stderr_spec(
                old(self).accounting@,
                join_with(args.deep_view(), seq![' ']) + seq!['\n'],
            ),
    {
        let mut msg = join_spaced(args);
        msg.append("\n");
        proof {
            reveal_strlit("\n");
            assert(msg@ =~= join_with(args.deep_view(), seq![' ']) + seq!['\n']);
        }
        self.accounting.print_stderr(msg);
    }
}

/// Whether the module registry knows this namespace: the registry holds
/// exactly one entry, the core module.
pub fn is_registered_namespace(namespace: &str) -> (b: bool)
    ensures
        b == (namespace@ == "ns/core"@),
{
    proof {
        reveal_strlit("ns/core");
    }
    let n = namespace.unicode_len();
    if n != 7 {
        return false;
    }
    let c0 = namespace.get_char(0);
    let c1 = namespace.get_char(1);
    let c2 = namespace.get_char(2);
    let c3 = namespace.get_char(3);
    let c4 = namespace.get_char(4);
    let c5 = namespace.get_char(5);
    let c6 = namespace.get_char(6);
    let b = c0 == 'n' && c1 == 's' && c2 == '/' && c3 == 'c' && c4 == 'o' && c5 == 'r'
        && c6 == 'e';
    proof {
        if b {
            assert(namespace@ =~= "ns/core"@);
        } else {
            assert(namespace@ != "ns/core"@);
        }
    }
    b
}

/// The message of the error thrown by the module lookup function for a
/// namespace with no registered entry.
pub fn unknown_module_message(namespace: &str) -> (r: String)
    ensures
        r@ == "unknown module: "@ + namespace@,
{
    let mut out = String::from_str("unknown module: ");
    out.append(namespace);
    out
}

/// The cost model of a metered call whose evaluation completes without a
/// throw and performs no op calls of its own: the gas used is exactly the
/// base cost plus the transpile-phase and evaluation-phase costs, the call
/// is successful, and no output or error text was captured.
pub proof fn lemma_metered_noop_cost(prior: AccountingView)
    ensures
        ({
            let s = track_gas_spec(
                track_gas_spec(metered_reset_spec(prior, GAS_BASE), GAS_TRANSPILE),
                GAS_EVAL,
            );
            s.gas == GAS_BASE + GAS_TRANSPILE + GAS_EVAL && s.success && s.output.len() == 0
                && s.errors.len() == 0
        }),
{
}

/// The cost model of a metered call whose sandboxed code throws. The
/// boundary marks the call failed and forwards one formatted message
/// through the stderr op. A throw during the transpile phase leaves the
/// gas at base plus transpile cost; a throw during evaluation leaves it at
/// base plus both phase costs; either way at least the base and transpile
/// costs were charged and the exact thrown message is captured.
pub proof fn lemma_metered_failure_cost(prior: AccountingView, msg: Seq<char>)
    ensures
        ({
            let t = track_gas_spec(metered_reset_spec(prior, GAS_BASE), GAS_TRANSPILE);
            let s = push_stderr_spec(mark_failure_spec(t), "Execution error: "@ + msg);
            !s.success && s.gas == GAS_BASE + GAS_TRANSPILE && s.gas >= GAS_BASE + GAS_TRANSPILE
                && s.errors.len() == 1 && s.errors.last() == "Execution error: "@ + msg
        }),
        ({
            let t = track_gas_spec(
                track_gas_spec(metered_reset_spec(prior, GAS_BASE), GAS_TRANSPILE),
                GAS_EVAL,
            );
            let s = push_stderr_spec(mark_failure_spec(t), "Execution error: "@ + msg);
            !s.success && s.gas == GAS_BASE + GAS_TRANSPILE + GAS_EVAL && s.gas >= GAS_BASE
                + GAS_TRANSPILE && s.errors.len() == 1 && s.errors.last() == "Execution error: "@
                + msg
        }),
{
}

} // verus!
