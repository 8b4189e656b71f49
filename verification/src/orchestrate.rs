//! The orchestrator: one source record against a batch of targets.
//!
//! Each target specifier is resolved to a record definition by an external
//! resolver before the batch reaches this module; a target arrives here as
//! its specifier plus the resolved definition, or nothing if resolution
//! failed. Every target yields exactly one outcome — a generated operation
//! bundle, or a target-not-found diagnostic — and each outcome is a function
//! of the source record and that target alone, so a single target's failure
//! never suppresses output for the others. The source record definition
//! itself is never modified: generated operations are additive.

use vstd::prelude::*;

use crate::diagnostics::{Diagnostic, DiagnosticView};
use crate::emit::{Emission, Ownership, emission_matches, emit};
use crate::fields::{RecordDef, RecordDefView};
use crate::types::dup_string;

verus! {

/// Ghost model of one requested target.
pub struct TargetSpecView {
    pub specifier: Seq<char>,
    pub record: Option<RecordDefView>,
}

/// One requested target: the path-like specifier it was named by, and the
/// record definition the external resolver found for it, or nothing if
/// resolution failed.
#[derive(Debug, PartialEq, Eq)]
pub struct TargetSpec {
    pub specifier: String,
    pub record: Option<RecordDef>,
}

impl View for TargetSpec {
    type V = TargetSpecView;

    open spec fn view(&self) -> TargetSpecView {
        TargetSpecView {
            specifier: self.specifier@,
            record: match &self.record {
                Some(r) => Some(r@),
                None => None,
            },
        }
    }
}

impl DeepView for TargetSpec {
    type V = TargetSpecView;

    open spec fn deep_view(&self) -> TargetSpecView {
        self@
    }
}

/// The outcome for one target: either a generated operation bundle or the
/// diagnostics that explain its absence — never both, never neither.
#[derive(Debug, PartialEq, Eq)]
pub enum TargetOutcome {
    Generated(Emission),
    Failed(Vec<Diagnostic>),
}

/// What the outcome for one target must be: for a resolved target, an
/// emission derived from the source record and the resolved definition; for
/// an unresolved one, exactly one target-not-found diagnostic naming the
/// specifier.
pub open spec fn outcome_matches(
    outcome: TargetOutcome,
    source: RecordDefView,
    target: TargetSpecView,
    ownership: Ownership,
) -> bool {
    match (outcome, target.record) {
        (TargetOutcome::Generated(e), Some(record)) => emission_matches(
            e,
            source,
            record,
            ownership,
        ),
        (TargetOutcome::Failed(diags), None) => diags.deep_view() == seq![
            DiagnosticView::TargetNotFound { specifier: target.specifier },
        ],
        _ => false,
    }
}

/// Process a batch of targets against one source record: per target, either
/// the generated operation bundle or its diagnostics. The batch never
/// aborts: every target is processed, whatever became of the others.
pub fn process(source: &RecordDef, targets: &Vec<TargetSpec>, ownership: Ownership) -> (outcomes:
    Vec<TargetOutcome>)
    ensures
        outcomes@.len() == targets@.len(),
        forall|i: int|
            0 <= i < targets@.len() ==> outcome_matches(
                #[trigger] outcomes@[i],
                source@,
                targets.deep_view()[i],
                ownership,
            ),
{
    let mut outcomes: Vec<TargetOutcome> = Vec::new();
    let mut i: usize = 0;
    while i < targets.len()
        invariant
            i <= targets.len(),
            outcomes@.len() == i as int,
            forall|j: int|
                0 <= j < i ==> outcome_matches(
                    #[trigger] outcomes@[j],
                    source@,
                    targets.deep_view()[j],
                    ownership,
                ),
        decreases targets.len() - i,
    {
        let target = &targets[i];
        match &target.record {
            Some(record) => {
                outcomes.push(TargetOutcome::Generated(emit(source, record, ownership)));
            },
            None => {
                let diag = Diagnostic::TargetNotFound { specifier: dup_string(&target.specifier) };
                let ghost diag_view = diag@;
                let mut diags: Vec<Diagnostic> = Vec::new();
                diags.push(diag);
                proof {
                    assert(diags.deep_view() =~= seq![diag_view]);
                }
                outcomes.push(TargetOutcome::Failed(diags));
            },
        }
        i += 1;
    }
    outcomes
}

} // verus!
