//! Builders for the scripts handed to the engine: the bootstrap script
//! that seals the sandbox and installs the module registry, and the two
//! runner scripts that transpile and evaluate a prepared source.

use vstd::prelude::*;

use crate::json::{dec_spec, json_quote, json_string_spec, u64_to_dec};

verus! {

/// The bootstrap script, with the three caller-supplied version strings
/// spliced into the version object of the core module. It first stashes
/// the host op handle, then deletes the ambient trusted namespace, then
/// installs the frozen module map and the lookup function.
pub open spec fn bootstrap_script_spec(
    runtime_version: Seq<char>,
    engine_version: Seq<char>,
    platform_version: Seq<char>,
) -> Seq<char> {
    "globalThis.__nsCore = globalThis.Deno?.core;\ndelete globalThis.Deno;\nconst nsModules = Object.create(null);\nnsModules[\"ns/core\"] = {\n  log(...args) {\n    if (globalThis.__nsCore) {\n      const msg = args.map((v) => {\n        if (typeof v === 'object') {\n          try { return JSON.stringify(v, null, 2); }\n          catch { return String(v); }\n        }\n        return String(v);\n      }).join(' ');\n      globalThis.__nsCore.ops.op_print_stdout(msg + \"\\n\");\n    }\n  },\n  error(...args) {\n    if (globalThis.__nsCore) {\n      const msg = args.map((v) => {\n        if (typeof v === 'object') {\n          try { return JSON.stringify(v, null, 2); }\n          catch { return String(v); }\n        }\n        return String(v);\n      }).join(' ');\n      globalThis.__nsCore.ops.op_print_stderr(msg + \"\\n\");\n    }\n  },\n  version: {\n    runtime: \""@
        + runtime_version + "\",\n    engine: \""@ + engine_version + "\",\n    platform: \""@
        + platform_version
        + "\",\n  },\n};\nObject.freeze(nsModules[\"ns/core\"]);\nglobalThis.__nsImport = function (name) {\n  const m = nsModules[name];\n  if (!m) throw new Error(\"unknown module: \" + name);\n  return m;\n};\n"@
}

/// Build the bootstrap script around the three version strings.
pub fn bootstrap_script(
    runtime_version: &str,
    engine_version: &str,
    platform_version: &str,
) -> (r: String)
    ensures
        r@ == bootstrap_script_spec(runtime_version@, engine_version@, platform_version@),
{
    let mut out = String::from_str(
        "globalThis.__nsCore = globalThis.Deno?.core;\ndelete globalThis.Deno;\nconst nsModules = Object.create(null);\nnsModules[\"ns/core\"] = {\n  log(...args) {\n    if (globalThis.__nsCore) {\n      const msg = args.map((v) => {\n        if (typeof v === 'object') {\n          try { return JSON.stringify(v, null, 2); }\n          catch { return String(v); }\n        }\n        return String(v);\n      }).join(' ');\n      globalThis.__nsCore.ops.op_print_stdout(msg + \"\\n\");\n    }\n  },\n  error(...args) {\n    if (globalThis.__nsCore) {\n      const msg = args.map((v) => {\n        if (typeof v === 'object') {\n          try { return JSON.stringify(v, null, 2); }\n          catch { return String(v); }\n        }\n        return String(v);\n      }).join(' ');\n      globalThis.__nsCore.ops.op_print_stderr(msg + \"\\n\");\n    }\n  },\n  version: {\n    runtime: \"",
    );
    out.append(runtime_version);
    out.append("\",\n    engine: \"");
    out.append(engine_version);
    out.append("\",\n    platform: \"");
    out.append(platform_version);
    out.append(
        "\",\n  },\n};\nObject.freeze(nsModules[\"ns/core\"]);\nglobalThis.__nsImport = function (name) {\n  const m = nsModules[name];\n  if (!m) throw new Error(\"unknown module: \" + name);\n  return m;\n};\n",
    );
    proof {
        assert(out@ =~= bootstrap_script_spec(
            runtime_version@,
            engine_version@,
            platform_version@,
        ));
    }
    out
}

/// The unmetered runner: the rewritten source embedded as a JSON string
/// literal, transpiled with the fixed target configuration, and evaluated
/// through the indirect evaluation primitive so that it runs in global
/// scope.
pub open spec fn runner_script_spec(rewritten: Seq<char>) -> Seq<char> {
    "let src = "@ + json_string_spec(rewritten)
        + ";\nconst out = ts.transpileModule(src, {\n  compilerOptions: {\n    target: \"ES2020\",\n    module: ts.ModuleKind.ESNext\n  }\n});\n(0, eval)(out.outputText);\n"@
}

/// Build the unmetered runner script around a rewritten source.
pub fn runner_script(rewritten: &str) -> (r: String)
    ensures
        r@ == runner_script_spec(rewritten@),
{
    let mut out = String::from_str("let src = ");
    let q = json_quote(rewritten);
    out.append(q.as_str());
    out.append(
        ";\nconst out = ts.transpileModule(src, {\n  compilerOptions: {\n    target: \"ES2020\",\n    module: ts.ModuleKind.ESNext\n  }\n});\n(0, eval)(out.outputText);\n",
    );
    proof {
        assert(out@ =~= runner_script_spec(rewritten@));
    }
    out
}

/// The metered runner: like the unmetered one, but the transpile and
/// evaluation phases are wrapped in a failure boundary inside the sandbox,
/// and each phase charges its cost through the gas op before it begins. A
/// throw anywhere inside the boundary marks the call failed and forwards
/// the formatted message through the stderr op, so that evaluation-phase
/// cost is charged only when the transpile phase completed.
pub open spec fn metered_script_spec(
    rewritten: Seq<char>,
    transpile_cost: u64,
    eval_cost: u64,
) -> Seq<char> {
    "let src = "@ + json_string_spec(rewritten)
        + ";\nconst trackGas = (amount) => {\n  if (globalThis.__nsCore) {\n    globalThis.__nsCore.ops.op_track_gas(amount);\n  }\n};\nconst markFailure = () => {\n  if (globalThis.__nsCore) {\n    globalThis.__nsCore.ops.op_mark_failure();\n  }\n};\ntry {\n  trackGas("@
        + dec_spec(transpile_cost as int)
        + ");\n  const out = ts.transpileModule(src, {\n    compilerOptions: {\n      target: \"ES2020\",\n      module: ts.ModuleKind.ESNext\n    }\n  });\n  trackGas("@
        + dec_spec(eval_cost as int)
        + ");\n  (0, eval)(out.outputText);\n} catch (error) {\n  markFailure();\n  globalThis.__nsCore.ops.op_print_stderr(\"Execution error: \" + error.message);\n}\n"@
}

/// Build the metered runner script around a rewritten source and the two
/// phase costs.
pub fn metered_script(rewritten: &str, transpile_cost: u64, eval_cost: u64) -> (r: String)
    ensures
        r@ == metered_script_spec(rewritten@, transpile_cost, eval_cost),
{
    let mut out = String::from_str("let src = ");
    let q = json_quote(rewritten);
    out.append(q.as_str());
    out.append(
        ";\nconst trackGas = (amount) => {\n  if (globalThis.__nsCore) {\n    globalThis.__nsCore.ops.op_track_gas(amount);\n  }\n};\nconst markFailure = () => {\n  if (globalThis.__nsCore) {\n    globalThis.__nsCore.ops.op_mark_failure();\n  }\n};\ntry {\n  trackGas(",
    );
    let t = u64_to_dec(transpile_cost);
    out.append(t.as_str());
    out.append(
        ");\n  const out = ts.transpileModule(src, {\n    compilerOptions: {\n      target: \"ES2020\",\n      module: ts.ModuleKind.ESNext\n    }\n  });\n  trackGas(",
    );
    let e = u64_to_dec(eval_cost);
    out.append(e.as_str());
    out.append(
        ");\n  (0, eval)(out.outputText);\n} catch (error) {\n  markFailure();\n  globalThis.__nsCore.ops.op_print_stderr(\"Execution error: \" + error.message);\n}\n",
    );
    proof {
        assert(out@ =~= metered_script_spec(rewritten@, transpile_cost, eval_cost));
    }
    out
}

} // verus!
