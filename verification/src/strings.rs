//! String concatenation of resolved inputs: a pure action that needs no
//! adapter at all, so its whole `run` is verified here.

use vstd::prelude::*;

use crate::action::{ActionIdentity, ActionOutput, Operation, OutputVal, Probe};
use crate::errors::ActionError;
use crate::resolve::{resolve_text, resolve_text_spec, ActionInput};
use crate::store::OutputStore;

verus! {

/// Concatenates its resolved inputs, in order, into one text output.
pub struct Join {
    pub inputs: Vec<ActionInput<String>>,
}

/// What joining a list of inputs against a store yields: the concatenation of
/// the resolved texts, or the first resolution failure.
pub open spec fn joined_text_spec(
    inputs: Seq<ActionInput<String>>,
    m: Map<ActionIdentity, OutputVal>,
) -> Result<Seq<char>, ActionError>
    decreases inputs.len(),
{
    if inputs.len() == 0 {
        Ok(Seq::empty())
    } else {
        match joined_text_spec(inputs.drop_last(), m) {
            Ok(prefix) => match resolve_text_spec(inputs.last(), m) {
                Ok(s) => Ok(prefix + s),
                Err(e) => Err(e),
            },
            Err(e) => Err(e),
        }
    }
}

/// Once a prefix of the inputs fails to resolve, every longer prefix fails the
/// same way: the first failure is the join's failure.
proof fn lemma_joined_error_persists(
    inputs: Seq<ActionInput<String>>,
    m: Map<ActionIdentity, OutputVal>,
    e: ActionError,
    i: int,
    k: int,
)
    requires
        0 <= i <= k <= inputs.len(),
        joined_text_spec(inputs.take(i), m) == Err::<Seq<char>, ActionError>(e),
    ensures
        joined_text_spec(inputs.take(k), m) == Err::<Seq<char>, ActionError>(e),
    decreases k - i,
{
    if k > i {
        lemma_joined_error_persists(inputs, m, e, i, k - 1);
        assert(inputs.take(k).drop_last() =~= inputs.take(k - 1));
        assert(inputs.take(k).len() == k);
    }
}

impl Join {
    pub fn new(inputs: Vec<ActionInput<String>>) -> (r: Self)
        ensures
            r.inputs@ == inputs@,
    {
        Join { inputs }
    }

    /// The probe: a join is recomputed on every run and cannot be undone, so
    /// it always asks to run and refuses rollback.
    pub open spec fn probe_post(r: Result<Probe, ActionError>) -> bool {
        r == Ok::<Probe, ActionError>(Probe { needs_run: true, can_rollback: false })
    }

    pub fn probe(&self) -> (r: Result<Probe, ActionError>)
        ensures
            Self::probe_post(r),
    {
        Ok(Probe { needs_run: true, can_rollback: false })
    }

    /// Everything `run` promises: the rollback direction is refused before
    /// anything is resolved, and a perform yields the concatenation of the
    /// resolved texts or the first resolution failure.
    pub open spec fn run_post(
        self,
        m: Map<ActionIdentity, OutputVal>,
        op: Operation,
        r: Result<Option<ActionOutput>, ActionError>,
    ) -> bool {
        &&& op == Operation::Rollback ==> r == Err::<Option<ActionOutput>, ActionError>(
            ActionError::OperationNotSupported,
        )
        &&& op == Operation::Perform ==> match joined_text_spec(self.inputs@, m) {
            Ok(t) => r matches Ok(Some(out)) && out@ == OutputVal::Text(t),
            Err(e) => r == Err::<Option<ActionOutput>, ActionError>(e),
        }
    }

    /// Resolve every input in order and concatenate the texts; the first
    /// resolution failure is the action's failure. The rollback direction is
    /// refused before anything is resolved.
    pub fn run(&self, store: &OutputStore, op: Operation) -> (r: Result<
        Option<ActionOutput>,
        ActionError,
    >)
        ensures
            self.run_post(store@, op, r),
    {
        if matches!(op, Operation::Rollback) {
            return Err(ActionError::OperationNotSupported);
        }
        let mut acc = String::new();
        let n = self.inputs.len();
        let mut i: usize = 0;
        while i < n
            invariant
                op == Operation::Perform,
                0 <= i <= n,
                n == self.inputs@.len(),
                joined_text_spec(self.inputs@.take(i as int), store@) == Ok::<
                    Seq<char>,
                    ActionError,
                >(acc@),
            decreases n - i,
        {
            proof {
                assert(self.inputs@.take(i as int + 1).drop_last() =~= self.inputs@.take(i as int));
                assert(self.inputs@.take(i as int + 1).last() == self.inputs@[i as int]);
            }
            match resolve_text(&self.inputs[i], store) {
                Ok(piece) => {
                    acc.append(piece.as_str());
                },
                Err(e) => {
                    proof {
                        lemma_joined_error_persists(self.inputs@, store@, e, i as int + 1, n as int);
                        assert(self.inputs@.take(n as int) =~= self.inputs@);
                    }
                    return Err(e);
                },
            }
            i += 1;
        }
        proof {
            assert(self.inputs@.take(n as int) =~= self.inputs@);
        }
        Ok(Some(ActionOutput::Text(acc)))
    }

    /// The human-readable label; this action reports an empty one.
    pub fn display_name(&self) -> (r: String)
        ensures
            r@ == Seq::<char>::empty(),
    {
        String::new()
    }
}

/// Probing a join is repeatable and pure: the probe reads no evidence and
/// borrows nothing mutably, so any two of its verdicts are the same `Probe`
/// value.
pub proof fn lemma_join_probe_repeatable(
    r1: Result<Probe, ActionError>,
    r2: Result<Probe, ActionError>,
)
    requires
        Join::probe_post(r1),
        Join::probe_post(r2),
    ensures
        r1 == r2,
{
}

/// A rollback demanded of an action whose probe refused it is rejected, not
/// silently ignored: every probe verdict of a join reports
/// `can_rollback == false`, and every answer of its `run` to the rollback
/// direction is `OperationNotSupported` — returned before anything is
/// resolved, so no observable work happens.
pub proof fn lemma_join_rollback_refused(
    a: Join,
    m: Map<ActionIdentity, OutputVal>,
    pr: Result<Probe, ActionError>,
    rr: Result<Option<ActionOutput>, ActionError>,
)
    requires
        Join::probe_post(pr),
        a.run_post(m, Operation::Rollback, rr),
    ensures
        pr matches Ok(p) && !p.can_rollback,
        rr == Err::<Option<ActionOutput>, ActionError>(ActionError::OperationNotSupported),
{
}

} // verus!
