//! The distance check: how many commits the pinned commit is behind the tip
//! of the tracked branch.
//!
//! The check has to check out the tracked branch to learn its tip. It notes
//! what was checked out before and checks that out again when it is done.

use vstd::prelude::*;
use crate::protocol::{Action, ActionView, Event, EventView, Outcome, Question};
use crate::workflow::state::{Operation, Phase, Workflow, WorkflowView};
use crate::workflow::step::save;

verus! {

impl WorkflowView {
    /// Where the distance check begins: with the question which branch is
    /// checked out.
    pub open spec fn distance_behind(self) -> (WorkflowView, ActionView) {
        self.proceed(Phase::DistanceBranch, ActionView::QueryCurrentBranch)
    }

    /// What follows the distance check: with the pinned commit behind, the
    /// operator is asked whether to adopt the newest; with nothing to adopt
    /// the manifest is persisted as it stands.
    pub open spec fn after_distance(self) -> (WorkflowView, ActionView) {
        if self.distance > 0 {
            self.proceed(
                Phase::ConfirmLatest,
                ActionView::Confirm {
                    question: Question::UseLatestSecrets { distance: self.distance },
                },
            )
        } else {
            self.save()
        }
    }

    /// The distance check gives up with `failure`: what it noted is checked
    /// out again first.
    pub open spec fn restored(self, failure: Outcome) -> (WorkflowView, ActionView) {
        WorkflowView { failure: Some(failure), ..self }.proceed(
            Phase::DistanceRestore,
            ActionView::CheckoutBranchAtRevision {
                branch: self.current_branch,
                hash: self.current_hash,
            },
        )
    }

    /// The step of the distance check. The branch and the commit that are
    /// checked out are noted, the tracked branch is checked out and its
    /// commit read, the distance from the pinned commit to that commit is
    /// counted, and what was noted is checked out again. Once the checkout of
    /// the tracked branch has been asked for, what was noted is checked out
    /// again however the check goes: a step that fails from there on ends the
    /// update only after that.
    pub open spec fn distance_next(self, event: EventView) -> (WorkflowView, ActionView) {
        match (self.phase, event) {
            (Phase::DistanceBranch, EventView::Text(branch)) => WorkflowView {
                current_branch: branch,
                ..self
            }.proceed(Phase::DistanceHash, ActionView::QueryCurrentHash),
            (Phase::DistanceHash, EventView::Text(hash)) => WorkflowView {
                current_hash: hash,
                ..self
            }.proceed(
                Phase::DistanceCheckout,
                ActionView::CheckoutBranch { branch: self.configuration.branch },
            ),
            (Phase::DistanceCheckout, EventView::Acknowledged) => self.proceed(
                Phase::DistanceLatest,
                ActionView::QueryCurrentHash,
            ),
            (Phase::DistanceCheckout, _) => self.restored(event.as_failure()),
            (Phase::DistanceLatest, EventView::Text(hash)) => WorkflowView {
                latest_hash: hash,
                ..self
            }.proceed(
                Phase::DistanceCount,
                ActionView::QueryHashDistance {
                    older: self.configuration.pinned_hash,
                    newer: hash,
                },
            ),
            (Phase::DistanceLatest, _) => self.restored(event.as_failure()),
            (Phase::DistanceCount, EventView::Distance(distance)) => WorkflowView {
                distance,
                ..self
            }.proceed(
                Phase::DistanceRestore,
                ActionView::CheckoutBranchAtRevision {
                    branch: self.current_branch,
                    hash: self.current_hash,
                },
            ),
            (Phase::DistanceCount, _) => self.restored(event.as_failure()),
            (Phase::DistanceRestore, EventView::Acknowledged) => match self.failure {
                Some(failure) => self.halted(failure),
                None => self.after_distance(),
            },
            _ => self.refused(event),
        }
    }
}

/// Begins the distance check of the manifest's pinned commit against the
/// manifest's branch.
pub(crate) fn configure_file_distance_behind_secrets_repo(workflow: Workflow) -> (next: (
    Workflow,
    Action,
))
    requires
        workflow.wf(),
        workflow.operation == Operation::Update,
    ensures
        next.0.wf(),
        (next.0@, next.1@) == workflow@.distance_behind(),
{
    let mut workflow = workflow;
    workflow.phase = Phase::DistanceBranch;
    (workflow, Action::QueryCurrentBranch)
}

/// Goes on with what follows the distance check.
pub(crate) fn after_distance(workflow: Workflow) -> (next: (Workflow, Action))
    requires
        workflow.wf(),
        workflow.operation == Operation::Update,
    ensures
        next.0.wf(),
        (next.0@, next.1@) == workflow@.after_distance(),
{
    if workflow.distance > 0 {
        let mut workflow = workflow;
        workflow.phase = Phase::ConfirmLatest;
        let question = Question::UseLatestSecrets { distance: workflow.distance };
        (workflow, Action::Confirm { question })
    } else {
        save(workflow)
    }
}

/// Gives the distance check up with `failure`, by way of the restoring
/// checkout.
fn restored(workflow: Workflow, failure: Outcome) -> (next: (Workflow, Action))
    requires
        workflow.wf(),
        workflow.operation == Operation::Update,
    ensures
        next.0.wf(),
        (next.0@, next.1@) == workflow@.restored(failure),
{
    let mut workflow = workflow;
    workflow.failure = Some(failure);
    workflow.phase = Phase::DistanceRestore;
    let branch = workflow.current_branch.clone();
    let hash = workflow.current_hash.clone();
    (workflow, Action::CheckoutBranchAtRevision { branch, hash })
}

/// Takes the answer to a step of the distance check.
pub(crate) fn distance_step(workflow: Workflow, event: Event) -> (next: (Workflow, Action))
    requires
        workflow.wf(),
        workflow.outcome is None,
        workflow.phase.is_distance(),
    ensures
        next.0.wf(),
        (next.0@, next.1@) == workflow@.distance_next(event@),
{
    let mut workflow = workflow;
    match (workflow.phase, event) {
        (Phase::DistanceBranch, Event::Text(branch)) => {
            workflow.current_branch = branch;
            workflow.phase = Phase::DistanceHash;
            (workflow, Action::QueryCurrentHash)
        },
        (Phase::DistanceHash, Event::Text(hash)) => {
            workflow.current_hash = hash;
            workflow.phase = Phase::DistanceCheckout;
            let branch = workflow.configuration.branch.clone();
            (workflow, Action::CheckoutBranch { branch })
        },
        (Phase::DistanceCheckout, Event::Acknowledged) => {
            workflow.phase = Phase::DistanceLatest;
            (workflow, Action::QueryCurrentHash)
        },
        (Phase::DistanceCheckout, event) => {
            let failure = event.as_failure();
            restored(workflow, failure)
        },
        (Phase::DistanceLatest, Event::Text(hash)) => {
            let older = workflow.configuration.pinned_hash.clone();
            let newer = hash.clone();
            workflow.latest_hash = hash;
            workflow.phase = Phase::DistanceCount;
            (workflow, Action::QueryHashDistance { older, newer })
        },
        (Phase::DistanceLatest, event) => {
            let failure = event.as_failure();
            restored(workflow, failure)
        },
        (Phase::DistanceCount, Event::Distance(distance)) => {
            workflow.distance = distance;
            workflow.phase = Phase::DistanceRestore;
            let branch = workflow.current_branch.clone();
            let hash = workflow.current_hash.clone();
            (workflow, Action::CheckoutBranchAtRevision { branch, hash })
        },
        (Phase::DistanceCount, event) => {
            let failure = event.as_failure();
            restored(workflow, failure)
        },
        (Phase::DistanceRestore, Event::Acknowledged) => match workflow.failure {
            Some(failure) => workflow.halted(failure),
            None => after_distance(workflow),
        },
        (_, event) => workflow.refused(event),
    }
}

} // verus!
