//! The update: move the pinned commit to the newest commit of the tracked
//! branch, encrypt the secrets of that commit into the project, and leave the
//! secrets repository as it was found.

use vstd::prelude::*;
use crate::configuration::{ConfigurationFile, ConfigurationView};
use crate::protocol::{Action, ActionView, Event, EventView, Outcome, Question, RepoSyncState};
use crate::workflow::branch::prompt_for_branch;
use crate::workflow::distance::configure_file_distance_behind_secrets_repo;
use crate::workflow::files::apply_from_cursor;
use crate::workflow::state::{Operation, Phase, Workflow, WorkflowView};
use crate::workflow::step::save;

verus! {

/// What [`update_configuration`] returns.
pub open spec fn update_start(configuration: ConfigurationView) -> (WorkflowView, ActionView) {
    (
        WorkflowView::fresh(Operation::Update, Phase::CaptureBranch, configuration),
        ActionView::QueryCurrentBranch,
    )
}

impl WorkflowView {
    /// The step of an update, for the phases that are the update's own.
    ///
    /// The branch and the commit that the secrets repository has checked out
    /// are noted first: that is what the update puts back before it decrypts.
    /// The remote's refs are fetched and the operator picks the branch anew.
    /// Where the local clone and its remote have drifted apart the operator
    /// may end the update there, with nothing changed. After the distance
    /// check the operator may adopt the newest commit of the branch: it is
    /// then checked out and becomes the pinned commit. Declining leaves the
    /// pinned commit as it is. Either way the manifest is persisted next.
    ///
    /// From the checkout of the newest commit on, an update that has to give
    /// up does so by way of the rollback: what was noted at the start is
    /// checked out again, and only then does the update end, with the failure
    /// that made it give up. A rollback that is not acknowledged ends the
    /// update there.
    pub open spec fn update_next(self, event: EventView) -> (WorkflowView, ActionView) {
        match (self.phase, event) {
            (Phase::CaptureBranch, EventView::Text(branch)) => WorkflowView {
                starting_branch: branch,
                ..self
            }.proceed(Phase::CaptureHash, ActionView::QueryCurrentHash),
            (Phase::CaptureHash, EventView::Text(hash)) => WorkflowView {
                starting_ref: hash,
                ..self
            }.proceed(Phase::Fetch, ActionView::FetchLatest),
            (Phase::Fetch, EventView::Acknowledged) => self.prompt_for_branch(true),
            (Phase::SyncStatus, EventView::Status(status)) => if status.sync_state
                == RepoSyncState::Synced {
                self.distance_behind()
            } else {
                self.proceed(
                    Phase::ConfirmDrift,
                    ActionView::Confirm {
                        question: Question::ContinueDespiteDrift {
                            sync_state: status.sync_state,
                            distance: status.distance,
                        },
                    },
                )
            },
            (Phase::ConfirmDrift, EventView::Answer(go_on)) => if go_on {
                self.distance_behind()
            } else {
                self.halted(Outcome::Declined)
            },
            (Phase::ConfirmLatest, EventView::Answer(adopt)) => if adopt {
                self.proceed(
                    Phase::LatestHash,
                    ActionView::QueryLatestHash { branch: self.configuration.branch },
                )
            } else {
                self.save()
            },
            (Phase::LatestHash, EventView::Text(hash)) => WorkflowView {
                latest_hash: hash,
                ..self
            }.proceed(
                Phase::CheckoutLatest,
                ActionView::CheckoutBranchAtRevision { branch: self.configuration.branch, hash },
            ),
            (Phase::CheckoutLatest, EventView::Acknowledged) => WorkflowView {
                configuration: ConfigurationView {
                    pinned_hash: self.latest_hash,
                    ..self.configuration
                },
                ..self
            }.save(),
            (Phase::CheckoutLatest, _) => self.rolled_back(event.as_failure()),
            (Phase::Rollback, EventView::Acknowledged) => match self.failure {
                Some(failure) => self.halted(failure),
                None => WorkflowView { cursor: 0, ..self }.apply_from_cursor(),
            },
            _ => self.refused(event),
        }
    }
}

/// Starts an update of the project's secrets.
pub fn update_configuration(configuration: ConfigurationFile) -> (start: (Workflow, Action))
    ensures
        start.0.wf(),
        (start.0@, start.1@) == update_start(configuration@),
{
    (
        Workflow::fresh(Operation::Update, Phase::CaptureBranch, configuration),
        Action::QueryCurrentBranch,
    )
}

/// Takes the answer to a step of the update's own.
pub(crate) fn update_step(workflow: Workflow, event: Event) -> (next: (Workflow, Action))
    requires
        workflow.wf(),
        workflow.outcome is None,
        workflow.phase.is_update(),
    ensures
        next.0.wf(),
        (next.0@, next.1@) == workflow@.update_next(event@),
{
    let mut workflow = workflow;
    match (workflow.phase, event) {
        (Phase::CaptureBranch, Event::Text(branch)) => {
            workflow.starting_branch = branch;
            workflow.phase = Phase::CaptureHash;
            (workflow, Action::QueryCurrentHash)
        },
        (Phase::CaptureHash, Event::Text(hash)) => {
            workflow.starting_ref = hash;
            workflow.phase = Phase::Fetch;
            (workflow, Action::FetchLatest)
        },
        (Phase::Fetch, Event::Acknowledged) => prompt_for_branch(workflow, true),
        (Phase::SyncStatus, Event::Status(status)) => {
            match status.sync_state {
                RepoSyncState::Synced => configure_file_distance_behind_secrets_repo(workflow),
                sync_state => {
                    workflow.phase = Phase::ConfirmDrift;
                    let question = Question::ContinueDespiteDrift {
                        sync_state,
                        distance: status.distance,
                    };
                    (workflow, Action::Confirm { question })
                },
            }
        },
        (Phase::ConfirmDrift, Event::Answer(go_on)) => {
            if go_on {
                configure_file_distance_behind_secrets_repo(workflow)
            } else {
                workflow.halted(Outcome::Declined)
            }
        },
        (Phase::ConfirmLatest, Event::Answer(adopt)) => {
            if adopt {
                workflow.phase = Phase::LatestHash;
                let branch = workflow.configuration.branch.clone();
                (workflow, Action::QueryLatestHash { branch })
            } else {
                save(workflow)
            }
        },
        (Phase::LatestHash, Event::Text(hash)) => {
            let branch = workflow.configuration.branch.clone();
            workflow.latest_hash = hash.clone();
            workflow.phase = Phase::CheckoutLatest;
            (workflow, Action::CheckoutBranchAtRevision { branch, hash })
        },
        (Phase::CheckoutLatest, Event::Acknowledged) => {
            workflow.configuration.pinned_hash = workflow.latest_hash.clone();
            save(workflow)
        },
        (Phase::CheckoutLatest, event) => {
            let failure = event.as_failure();
            workflow.rolled_back(failure)
        },
        (Phase::Rollback, Event::Acknowledged) => match workflow.failure {
            Some(failure) => workflow.halted(failure),
            None => {
                workflow.cursor = 0;
                apply_from_cursor(workflow)
            },
        },
        (_, event) => workflow.refused(event),
    }
}

} // verus!
