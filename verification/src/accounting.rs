//! Call-scoped accounting state and the capability op surface.
//!
//! Sandboxed code can reach the host only through four write-only
//! operations: append a line to captured stdout, append a line to captured
//! stderr, add to the gas counter, and mark the call as failed. The state
//! is reset at the start of every top-level call.

use vstd::prelude::*;

verus! {

/// Mathematical view of the per-call accounting state.
#[verifier::ext_equal]
pub struct AccountingView {
    pub output: Seq<Seq<char>>,
    pub errors: Seq<Seq<char>>,
    pub gas: u64,
    pub success: bool,
}

/// Per-call accounting state: captured stdout entries, captured stderr
/// entries, the cumulative gas counter, and the success flag.
pub struct AccountingState {
    pub output: Vec<String>,
    pub errors: Vec<String>,
    pub gas: u64,
    pub success: bool,
}

impl View for AccountingState {
    type V = AccountingView;

    open spec fn view(&self) -> AccountingView {
        AccountingView {
            output: self.output.deep_view(),
            errors: self.errors.deep_view(),
            gas: self.gas,
            success: self.success,
        }
    }
}

/// The accounting state of a freshly constructed instance, and of every
/// call after its reset: nothing captured, no gas, presumed successful.
pub open spec fn initial_accounting() -> AccountingView {
    AccountingView { output: Seq::empty(), errors: Seq::empty(), gas: 0, success: true }
}

/// Effect of the stdout op on the accounting state.
pub open spec fn push_stdout_spec(s: AccountingView, msg: Seq<char>) -> AccountingView {
    AccountingView { output: s.output.push(msg), ..s }
}

/// Effect of the stderr op on the accounting state.
pub open spec fn push_stderr_spec(s: AccountingView, msg: Seq<char>) -> AccountingView {
    AccountingView { errors: s.errors.push(msg), ..s }
}

/// Effect of the gas op: the counter grows by `amount`, saturating at the
/// top of the unsigned range rather than silently wrapping.
pub open spec fn track_gas_spec(s: AccountingView, amount: u64) -> AccountingView {
    AccountingView {
        gas: if s.gas + amount <= u64::MAX { (s.gas + amount) as u64 } else { u64::MAX },
        ..s
    }
}

/// Effect of the failure op: the success flag is cleared.
pub open spec fn mark_failure_spec(s: AccountingView) -> AccountingView {
    AccountingView { success: false, ..s }
}

impl AccountingState {
    /// A fresh accounting state.
    pub fn new() -> (r: AccountingState)
        ensures
            r@ == initial_accounting(),
    {
        let r = AccountingState { output: Vec::new(), errors: Vec::new(), gas: 0, success: true };
        proof {
            assert(r@ =~~= initial_accounting());
        }
        r
    }

    /// Capability op: append one entry to the captured stdout sequence.
    pub fn print_stdout(&mut self, msg: String)
        ensures
            final(self)@ == push_stdout_spec(old(self)@, msg@),
    {
        let ghost pre = self@;
        self.output.push(msg);
        proof {
            assert(final(self)@ =~~= push_stdout_spec(pre, msg@));
        }
    }

    /// Capability op: append one entry to the captured stderr sequence.
    pub fn print_stderr(&mut self, msg: String)
        ensures
            final(self)@ == push_stderr_spec(old(self)@, msg@),
    {
        let ghost pre = self@;
        self.errors.push(msg);
        proof {
            assert(final(self)@ =~~= push_stderr_spec(pre, msg@));
        }
    }

    /// Capability op: add `amount` to the gas counter, saturating instead
    /// of wrapping on overflow.
    pub fn track_gas(&mut self, amount: u64)
        ensures
            final(self)@ == track_gas_spec(old(self)@, amount),
    {
        let ghost pre = self@;
        if amount <= u64::MAX - self.gas {
            self.gas = self.gas + amount;
        } else {
            self.gas = u64::MAX;
        }
        proof {
            assert(final(self)@ =~~= track_gas_spec(pre, amount));
        }
    }

    /// Capability op: record that the call failed. Idempotent.
    pub fn mark_failure(&mut self)
        ensures
            final(self)@ == mark_failure_spec(old(self)@),
    {
        let ghost pre = self@;
        self.success = false;
        proof {
            assert(final(self)@ =~~= mark_failure_spec(pre));
        }
    }

    /// Reset the captured output and error sequences, leaving the gas
    /// counter and success flag alone.
    pub fn reset_streams(&mut self)
        ensures
            final(self)@ == (AccountingView {
                output: Seq::empty(),
                errors: Seq::empty(),
                ..old(self)@
            }),
    {
        let ghost pre = self@;
        self.output = Vec::new();
        self.errors = Vec::new();
        proof {
            assert(final(self)@ =~~= (AccountingView {
                output: Seq::empty(),
                errors: Seq::empty(),
                ..pre
            }));
        }
    }

    /// Reset everything and charge the base cost: the state at the start of
    /// every metered call, whatever went before.
    pub fn reset_metered(&mut self, base: u64)
        ensures
            final(self)@ == metered_reset_spec(old(self)@, base),
    {
        self.output = Vec::new();
        self.errors = Vec::new();
        self.gas = base;
        self.success = true;
        proof {
            assert(final(self)@ =~~= metered_reset_spec(old(self)@, base));
        }
    }
}

/// State at the start of a metered call: empty streams, the success flag
/// set, and the gas counter holding exactly the base cost. The prior state
/// is ignored entirely; it is a parameter only so that independence from it
/// can be stated.
pub open spec fn metered_reset_spec(prior: AccountingView, base: u64) -> AccountingView {
    AccountingView { output: Seq::empty(), errors: Seq::empty(), gas: base, success: true }
}

/// Gas accounting is per call, never cumulative across calls: the metered
/// reset gives the same state, with the gas counter at the base cost, no
/// matter what any earlier call on the same instance left behind.
pub proof fn lemma_metered_reset_independent(a: AccountingView, b: AccountingView, base: u64)
    ensures
        metered_reset_spec(a, base) == metered_reset_spec(b, base),
        metered_reset_spec(a, base).gas == base,
{
}

/// Marking failure is idempotent: a second call changes nothing.
pub proof fn lemma_mark_failure_idempotent(s: AccountingView)
    ensures
        mark_failure_spec(mark_failure_spec(s)) == mark_failure_spec(s),
{
}

/// The gas counter never decreases: it is a monotone cost accumulator.
pub proof fn lemma_track_gas_monotone(s: AccountingView, amount: u64)
    ensures
        track_gas_spec(s, amount).gas >= s.gas,
{
}

} // verus!
