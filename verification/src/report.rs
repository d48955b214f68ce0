//! How a deployment ended, in words, with what the deployment knows of it:
//! the process ids that would not go, the archive that would not start, the
//! attempts that were made.

use vstd::prelude::*;
use vstd::string::*;
use crate::error::{error_text, DeployError, DeployErrorView, Stage};
use crate::machine::{budget_of, Deployment, DeploymentView};
use crate::render::{decimal, push_decimal};
use crate::unit::{outcome_text, Outcome, OutcomeView};

verus! {

/// The cause of a failure with the attempts that were allowed, where the
/// budget says how many.
pub open spec fn exhausted_text(s: DeploymentView, stage: Stage) -> Seq<char> {
    let cause = error_text(DeployErrorView::RetryExhausted(stage));
    match budget_of(s.plan, stage) {
        Some(budget) => cause + "("@ + decimal(budget.max_attempts as nat) + "次)"@,
        None => cause,
    }
}

/// The cause of the failure `error` of the deployment `s`: for processes
/// that would not go their ids, for an archive that did not start its remote
/// path, for a spent budget the attempts that it allowed.
pub open spec fn cause_text(s: DeploymentView, error: DeployErrorView) -> Seq<char> {
    match error {
        DeployErrorView::ProcessTermination => error_text(error) + ": "@ + s.pids,
        DeployErrorView::ProcessStart => error_text(error) + ": "@ + s.unit.remote_path,
        DeployErrorView::RetryExhausted(stage) => exhausted_text(s, stage),
        _ => error_text(error),
    }
}

/// How the deployment `s` ended; nothing while it is under way.
pub open spec fn report_text(s: DeploymentView) -> Option<Seq<char>> {
    match s.outcome {
        Some(OutcomeView::Failed(error)) => Some(cause_text(s, error)),
        Some(outcome) => Some(outcome_text(outcome)),
        None => None,
    }
}

impl Deployment {
    /// The cause of the failure `error` of this deployment.
    pub fn cause(&self, error: &DeployError) -> (r: String)
        ensures
            r@ == cause_text(self@, error@),
    {
        let mut r = error.describe();
        match error {
            DeployError::ProcessTermination => {
                r.append(": ");
                r.append(self.pids.as_str());
            },
            DeployError::ProcessStart => {
                r.append(": ");
                r.append(self.unit.remote_path.as_str());
            },
            DeployError::RetryExhausted(stage) => {
                match self.plan.budget(*stage) {
                    Some(budget) => {
                        r.append("(");
                        push_decimal(&mut r, budget.max_attempts as u64);
                        r.append("次)");
                    },
                    None => {},
                }
            },
            _ => {},
        }
        r
    }

    /// How the deployment ended, in words; nothing while it is under way.
    pub fn report(&self) -> (r: Option<String>)
        ensures
            match r {
                Some(text) => report_text(self@) == Some(text@),
                None => report_text(self@).is_none(),
            },
    {
        match &self.outcome {
            Some(Outcome::Failed(error)) => Some(self.cause(error)),
            Some(outcome) => Some(outcome.describe()),
            None => None,
        }
    }
}

} // verus!
